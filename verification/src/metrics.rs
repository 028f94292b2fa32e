//! The aggregate metrics record and its derivation from engine readings.

use vstd::prelude::*;

use crate::handle::QuartzFontHandle;
use crate::units::{pt_milli_in_range, pt_to_au, Au};

verus! {

/// The size-bound values the engine reports for a sized font, each in
/// thousandths of a typographic point: the per-side vertical extents, the
/// line gap, the x-height, the two underline values, and the width of the
/// font's overall bounding box.
#[derive(Clone, Copy, Debug, PartialEq, Eq, Structural)]
pub struct SizedFontReadings {
    pub ascent: i64,
    pub descent: i64,
    pub leading: i64,
    pub x_height: i64,
    pub underline_thickness: i64,
    pub underline_position: i64,
    pub bounding_width: i64,
}

impl SizedFontReadings {
    /// Every reading is within the magnitude the unit conversion accepts.
    pub open spec fn in_range(self) -> bool {
        &&& pt_milli_in_range(self.ascent as int)
        &&& pt_milli_in_range(self.descent as int)
        &&& pt_milli_in_range(self.leading as int)
        &&& pt_milli_in_range(self.x_height as int)
        &&& pt_milli_in_range(self.underline_thickness as int)
        &&& pt_milli_in_range(self.underline_position as int)
        &&& pt_milli_in_range(self.bounding_width as int)
    }
}

/// The aggregate metrics of a sized font, every field in the same linear
/// font unit.  `em_size` is derived, not queried: the sum of ascent and
/// descent.  `max_advance` comes from the font's overall bounding-box width,
/// not from any single glyph's advance.
#[derive(Clone, Copy, Debug, PartialEq, Eq, Structural)]
pub struct FontMetrics {
    pub underline_size: Au,
    pub underline_offset: Au,
    pub leading: Au,
    pub x_height: Au,
    pub em_size: Au,
    pub ascent: Au,
    pub descent: Au,
    pub max_advance: Au,
}

impl QuartzFontHandle {
    /// Build the aggregate metrics record from the engine's readings for the
    /// owned sized font.  Each reading is converted to font units by the one
    /// fixed point-to-unit conversion; the em size is not read from the
    /// engine but derived as ascent plus descent, so metric consistency
    /// holds of every record this produces.
    pub fn get_metrics(&self, readings: SizedFontReadings) -> (m: FontMetrics)
        requires
            readings.in_range(),
        ensures
            m.ascent.0 == pt_to_au(readings.ascent as int),
            m.descent.0 == pt_to_au(readings.descent as int),
            m.leading.0 == pt_to_au(readings.leading as int),
            m.x_height.0 == pt_to_au(readings.x_height as int),
            m.underline_size.0 == pt_to_au(readings.underline_thickness as int),
            m.underline_offset.0 == pt_to_au(readings.underline_position as int),
            m.max_advance.0 == pt_to_au(readings.bounding_width as int),
            m.em_size.0 == m.ascent.0 + m.descent.0,
    {
        let ascent = Au::from_pt_milli(readings.ascent);
        let descent = Au::from_pt_milli(readings.descent);
        FontMetrics {
            underline_size: Au::from_pt_milli(readings.underline_thickness),
            underline_offset: Au::from_pt_milli(readings.underline_position),
            leading: Au::from_pt_milli(readings.leading),
            x_height: Au::from_pt_milli(readings.x_height),
            em_size: Au(ascent.0 + descent.0),
            ascent,
            descent,
            max_advance: Au::from_pt_milli(readings.bounding_width),
        }
    }
}

} // verus!
