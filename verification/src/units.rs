//! Linear font units and the conversion from the engine's point-based values.

use vstd::prelude::*;

verus! {

/// A device-independent linear font unit: one sixtieth of a pixel.  At the
/// conventional 96 pixels per inch and 72 typographic points per inch a point
/// is 4/3 of a pixel, so one point equals exactly 80 of these units.
#[derive(Clone, Copy, Debug, PartialEq, Eq, Structural)]
pub struct Au(pub i64);

/// A fractional pixel width, held in thousandths of a pixel.
#[derive(Clone, Copy, Debug, PartialEq, Eq, Structural)]
pub struct FractionalPixel(pub i64);

/// The magnitudes, in thousandths of a point, that the unit conversion
/// accepts: up to one billion points, far beyond any real font metric.
pub open spec fn pt_milli_in_range(mpt: int) -> bool {
    -1_000_000_000_000 <= mpt <= 1_000_000_000_000
}

/// The fixed conversion from thousandths of a typographic point to font
/// units: 80 units per point, with the fractional remainder truncated toward
/// zero so that positive and negative values convert symmetrically.
pub open spec fn pt_to_au(mpt: int) -> int {
    if mpt >= 0 {
        (mpt * 80) / 1000
    } else {
        -(((-mpt) * 80) / 1000)
    }
}

impl Au {
    /// Convert a value in thousandths of a typographic point into font units.
    pub fn from_pt_milli(mpt: i64) -> (r: Au)
        requires
            pt_milli_in_range(mpt as int),
        ensures
            r.0 == pt_to_au(mpt as int),
            -80_000_000_000 <= r.0 <= 80_000_000_000,
    {
        if mpt >= 0 {
            let scaled: u64 = (mpt as u64) * 80;
            let units: u64 = scaled / 1000;
            proof {
                vstd::arithmetic::div_mod::lemma_div_is_ordered(
                    scaled as int,
                    80_000_000_000_000,
                    1000,
                );
            }
            Au(units as i64)
        } else {
            let scaled: u64 = ((-mpt) as u64) * 80;
            let units: u64 = scaled / 1000;
            proof {
                vstd::arithmetic::div_mod::lemma_div_is_ordered(
                    scaled as int,
                    80_000_000_000_000,
                    1000,
                );
            }
            Au(-(units as i64))
        }
    }
}

} // verus!
