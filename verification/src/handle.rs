//! The font handle: atomic three-stage construction over the native engine,
//! and release planning in exact reverse acquisition order.

use vstd::prelude::*;

verus! {

/// One native engine resource, tagged by its role in the ownership chain and
/// carrying the reference value under which the engine knows it.
#[derive(Clone, Copy, Debug, PartialEq, Eq, Structural)]
pub enum NativeResource {
    /// An engine handle wrapping the block of raw font bytes.
    DataProvider(u64),
    /// An engine handle for the parsed, unsized font program.
    OutlineFont(u64),
    /// The outline font bound to a point size, ready for queries.
    SizedFont(u64),
}

/// Which build stage the engine rejected by answering with an invalid
/// (zero) reference.
#[derive(Clone, Copy, Debug, PartialEq, Eq, Structural)]
pub enum ConstructionError {
    /// The engine would not wrap the raw bytes as a data provider.
    DataProviderRejected,
    /// The engine could not parse the provider's bytes into an outline font.
    OutlineFontRejected,
    /// The engine would not bind the outline font to the requested size.
    SizedFontRejected,
}

/// The outcome of a failed build stage: the error to report, and the
/// resources acquired by the earlier stages, listed in the exact order the
/// driver must release them — the reverse of acquisition order.
#[derive(Debug)]
pub struct StageFailure {
    pub error: ConstructionError,
    pub to_release: Vec<NativeResource>,
}

/// Construction progress after stage 1: the data provider is held and the
/// outline font is awaited.
pub struct DataProviderStage {
    fontprov: u64,
}

/// Construction progress after stage 2: the data provider and the outline
/// font are held and the sized font is awaited.
pub struct OutlineFontStage {
    fontprov: u64,
    cgfont: u64,
}

/// The font handle.  It owns the full chain of three native resources, every
/// one of them valid: construction either yields a handle with all three or
/// yields no handle at all, so a partially built handle is never observable.
pub struct QuartzFontHandle {
    fontprov: u64,
    cgfont: u64,
    ctfont: u64,
}

/// The resources a construction run acquires, in acquisition order, when the
/// engine answers the three stages with `r1`, `r2`, `r3` (zero = invalid).
/// A later stage is attempted only when every earlier stage succeeded.
pub open spec fn acquisition_order(r1: u64, r2: u64, r3: u64) -> Seq<NativeResource> {
    if r1 == 0 {
        Seq::<NativeResource>::empty()
    } else if r2 == 0 {
        seq![NativeResource::DataProvider(r1)]
    } else if r3 == 0 {
        seq![NativeResource::DataProvider(r1), NativeResource::OutlineFont(r2)]
    } else {
        seq![
            NativeResource::DataProvider(r1),
            NativeResource::OutlineFont(r2),
            NativeResource::SizedFont(r3),
        ]
    }
}

/// Whether a construction run whose three stage answers are `r1`, `r2`, `r3`
/// produces a handle.
pub open spec fn construction_succeeds(r1: u64, r2: u64, r3: u64) -> bool {
    r1 != 0 && r2 != 0 && r3 != 0
}

/// The resources a failed construction run releases before reporting its
/// error, in the order it releases them.
pub open spec fn failure_releases(r1: u64, r2: u64, r3: u64) -> Seq<NativeResource> {
    if r1 == 0 {
        Seq::<NativeResource>::empty()
    } else if r2 == 0 {
        seq![NativeResource::DataProvider(r1)]
    } else if r3 == 0 {
        seq![NativeResource::OutlineFont(r2), NativeResource::DataProvider(r1)]
    } else {
        Seq::<NativeResource>::empty()
    }
}

/// The resources the destruction of a fully built handle releases, in the
/// order it releases them: sized font, then outline font, then data provider.
pub open spec fn destruction_releases(r1: u64, r2: u64, r3: u64) -> Seq<NativeResource> {
    seq![
        NativeResource::SizedFont(r3),
        NativeResource::OutlineFont(r2),
        NativeResource::DataProvider(r1),
    ]
}

impl DataProviderStage {
    #[verifier::type_invariant]
    spec fn inv(self) -> bool {
        self.fontprov != 0
    }

    /// The reference under which the engine knows the data provider.
    pub closed spec fn fontprov_id(self) -> u64 {
        self.fontprov
    }

    /// The data-provider reference, for the driver's stage 2 engine call.
    pub fn fontprov_ref(&self) -> (r: u64)
        ensures
            r == self.fontprov_id(),
            r != 0,
    {
        proof {
            use_type_invariant(self);
        }
        self.fontprov
    }

    /// Stage 2 decision.  The engine was asked to parse the held data
    /// provider into an outline font and answered `response`.  A zero answer
    /// fails the build, releasing the data provider — the only resource
    /// acquired so far — so no failure path leaks; any other answer extends
    /// the chain.
    pub fn accept_outline_font(self, response: u64) -> (r: Result<OutlineFontStage, StageFailure>)
        ensures
            response != 0 ==> (r matches Ok(s) && s.fontprov_id() == self.fontprov_id()
                && s.cgfont_id() == response),
            response == 0 ==> (r matches Err(f) && f.error == ConstructionError::OutlineFontRejected
                && f.to_release@ == seq![NativeResource::DataProvider(self.fontprov_id())]),
            self.fontprov_id() != 0,
    {
        proof {
            use_type_invariant(&self);
        }
        if response == 0 {
            let mut rel: Vec<NativeResource> = Vec::new();
            rel.push(NativeResource::DataProvider(self.fontprov));
            proof {
                assert(rel@ =~= seq![NativeResource::DataProvider(self.fontprov)]);
            }
            Err(StageFailure { error: ConstructionError::OutlineFontRejected, to_release: rel })
        } else {
            Ok(OutlineFontStage { fontprov: self.fontprov, cgfont: response })
        }
    }
}

impl OutlineFontStage {
    #[verifier::type_invariant]
    spec fn inv(self) -> bool {
        self.fontprov != 0 && self.cgfont != 0
    }

    /// The reference under which the engine knows the data provider.
    pub closed spec fn fontprov_id(self) -> u64 {
        self.fontprov
    }

    /// The reference under which the engine knows the outline font.
    pub closed spec fn cgfont_id(self) -> u64 {
        self.cgfont
    }

    /// The outline-font reference, for the driver's stage 3 engine call.
    pub fn cgfont_ref(&self) -> (r: u64)
        ensures
            r == self.cgfont_id(),
            r != 0,
    {
        proof {
            use_type_invariant(self);
        }
        self.cgfont
    }

    /// Stage 3 decision.  The engine was asked to bind the held outline font
    /// to the requested point size and answered `response`.  A zero answer
    /// fails the build, releasing the outline font and then the data provider
    /// — everything acquired, in reverse acquisition order — so no failure
    /// path leaks; any other answer completes the handle.
    pub fn accept_sized_font(self, response: u64) -> (r: Result<QuartzFontHandle, StageFailure>)
        ensures
            response != 0 ==> (r matches Ok(h) && h.fontprov_id() == self.fontprov_id()
                && h.cgfont_id() == self.cgfont_id() && h.ctfont_id() == response),
            response == 0 ==> (r matches Err(f) && f.error == ConstructionError::SizedFontRejected
                && f.to_release@ == seq![
                    NativeResource::OutlineFont(self.cgfont_id()),
                    NativeResource::DataProvider(self.fontprov_id()),
                ]),
            self.fontprov_id() != 0,
            self.cgfont_id() != 0,
    {
        proof {
            use_type_invariant(&self);
        }
        if response == 0 {
            let mut rel: Vec<NativeResource> = Vec::new();
            rel.push(NativeResource::OutlineFont(self.cgfont));
            rel.push(NativeResource::DataProvider(self.fontprov));
            proof {
                assert(rel@ =~= seq![
                    NativeResource::OutlineFont(self.cgfont),
                    NativeResource::DataProvider(self.fontprov),
                ]);
            }
            Err(StageFailure { error: ConstructionError::SizedFontRejected, to_release: rel })
        } else {
            Ok(QuartzFontHandle { fontprov: self.fontprov, cgfont: self.cgfont, ctfont: response })
        }
    }
}

impl QuartzFontHandle {
    #[verifier::type_invariant]
    spec fn inv(self) -> bool {
        self.fontprov != 0 && self.cgfont != 0 && self.ctfont != 0
    }

    /// The reference under which the engine knows the data provider.
    pub closed spec fn fontprov_id(self) -> u64 {
        self.fontprov
    }

    /// The reference under which the engine knows the outline font.
    pub closed spec fn cgfont_id(self) -> u64 {
        self.cgfont
    }

    /// The reference under which the engine knows the sized font.
    pub closed spec fn ctfont_id(self) -> u64 {
        self.ctfont
    }

    /// The sized-font reference, for the driver's glyph and metric queries.
    pub fn ctfont_ref(&self) -> (r: u64)
        ensures
            r == self.ctfont_id(),
            r != 0,
    {
        proof {
            use_type_invariant(self);
        }
        self.ctfont
    }

    /// Stage 1 decision.  The engine was asked to wrap the caller's raw font
    /// bytes as a data provider and answered `response`.  A zero answer fails
    /// the build with nothing yet acquired and so nothing to release; any
    /// other answer starts the chain.
    pub fn begin_construction(response: u64) -> (r: Result<DataProviderStage, StageFailure>)
        ensures
            response != 0 ==> (r matches Ok(s) && s.fontprov_id() == response),
            response == 0 ==> (r matches Err(f)
                && f.error == ConstructionError::DataProviderRejected
                && f.to_release@ == Seq::<NativeResource>::empty()),
    {
        if response == 0 {
            Err(
                StageFailure {
                    error: ConstructionError::DataProviderRejected,
                    to_release: Vec::new(),
                },
            )
        } else {
            Ok(DataProviderStage { fontprov: response })
        }
    }

    /// Consume the handle and give its release plan: each owned resource,
    /// sized font first, then outline font, then data provider — the exact
    /// reverse of acquisition order.  Every reference in the plan is valid
    /// (nonzero): a handle is never destroyed mid-construction.
    pub fn into_release_sequence(self) -> (r: Vec<NativeResource>)
        ensures
            r@ == destruction_releases(self.fontprov_id(), self.cgfont_id(), self.ctfont_id()),
            self.fontprov_id() != 0,
            self.cgfont_id() != 0,
            self.ctfont_id() != 0,
    {
        proof {
            use_type_invariant(&self);
        }
        let mut r: Vec<NativeResource> = Vec::new();
        r.push(NativeResource::SizedFont(self.ctfont));
        r.push(NativeResource::OutlineFont(self.cgfont));
        r.push(NativeResource::DataProvider(self.fontprov));
        proof {
            assert(r@ =~= destruction_releases(self.fontprov, self.cgfont, self.ctfont));
        }
        r
    }
}

/// Construction atomicity: whenever any stage of a construction run fails,
/// the run releases exactly the resources it acquired — the same count, each
/// one present — and does so in reverse acquisition order, so no failure
/// path leaks a resource and no handle is produced.
pub proof fn lemma_construction_atomicity(r1: u64, r2: u64, r3: u64)
    requires
        !construction_succeeds(r1, r2, r3),
    ensures
        failure_releases(r1, r2, r3).len() == acquisition_order(r1, r2, r3).len(),
        forall|i: int|
            0 <= i < acquisition_order(r1, r2, r3).len() ==> failure_releases(r1, r2, r3)[i]
                == acquisition_order(r1, r2, r3)[acquisition_order(r1, r2, r3).len() - 1 - i],
        forall|x: NativeResource|
            acquisition_order(r1, r2, r3).contains(x) ==> failure_releases(r1, r2, r3).contains(x),
{
    let acq = acquisition_order(r1, r2, r3);
    let rel = failure_releases(r1, r2, r3);
    assert forall|x: NativeResource| acq.contains(x) implies rel.contains(x) by {
        let i = choose|i: int| 0 <= i < acq.len() && acq[i] == x;
        assert(rel[acq.len() - 1 - i] == x);
    }
}

/// Release-order invariant: destroying a fully built handle releases the
/// sized font before the outline font before the data provider — the exact
/// reverse of the order in which construction acquired them.
pub proof fn lemma_destruction_reverses_acquisition(r1: u64, r2: u64, r3: u64)
    requires
        construction_succeeds(r1, r2, r3),
    ensures
        destruction_releases(r1, r2, r3).len() == acquisition_order(r1, r2, r3).len(),
        forall|i: int|
            0 <= i < acquisition_order(r1, r2, r3).len() ==> destruction_releases(r1, r2, r3)[i]
                == acquisition_order(r1, r2, r3)[acquisition_order(r1, r2, r3).len() - 1 - i],
{
}

} // verus!
