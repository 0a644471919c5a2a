use crate::bitmap::{Bitmap, BitmapView};
use crate::error::NwgError;
use crate::platform::{accept, produced, signed_size, to_signed_size};
use crate::platform::{PlatformCall, PlatformCallView};
use vstd::prelude::*;

verus! {

/// Where a build stands while a call of the platform is under way.
#[derive(Clone, Copy, Debug, PartialEq, Eq)]
pub enum BuildPhase {
    /// The load was asked for. What is kept is what the next call needs.
    Loading { size: Option<(u32, u32)>, transparency_key: Option<[u8; 3]> },
    /// The transparency call on the loaded handle `base` was asked for.
    Masking { base: usize },
}

impl BuildPhase {
    /// A handle that was loaded is not null.
    pub open spec fn valid(self) -> bool {
        self matches BuildPhase::Masking { base } ==> base != 0
    }

    /// How many calls of the platform a build in this phase may still make,
    /// the one under way included.
    pub open spec fn calls_left(self) -> nat {
        match self {
            BuildPhase::Loading { .. } => 2,
            BuildPhase::Masking { .. } => 1,
        }
    }

    /// What follows when the platform answers `reply` to the call under way:
    /// the next step, and the target as it is then.
    pub open spec fn step(self, reply: Option<usize>, target: BitmapView) -> (
        BuildStepView,
        BitmapView,
    ) {
        match self {
            BuildPhase::Loading { size, transparency_key } => match produced(reply) {
                None => BuildStepView::failed(NwgError::LoadError, None, target),
                Some(base) => match transparency_key {
                    Some(key) => (
                        BuildStepView::Call {
                            call: PlatformCallView::MakeTransparent {
                                handle: base,
                                size: signed_size(size),
                                key,
                            },
                            next: BuildPhase::Masking { base },
                        },
                        target,
                    ),
                    None => BuildStepView::done(base, target),
                },
            },
            BuildPhase::Masking { base } => match produced(reply) {
                None => BuildStepView::failed(
                    NwgError::TransformError,
                    target.discarded(base),
                    target,
                ),
                Some(handle) => BuildStepView::done(handle, target),
            },
        }
    }
}

/// A build between two calls of the platform. Only a build hands one out, and
/// stepping it uses it up: no answer can be given twice, or to a build that
/// is over.
#[derive(Debug, PartialEq, Eq)]
pub struct BuildState {
    phase: BuildPhase,
}

impl View for BuildState {
    type V = BuildPhase;

    closed spec fn view(&self) -> BuildPhase {
        self.phase
    }
}

/// What a build asks for next.
#[derive(Debug, PartialEq, Eq)]
pub enum BuildStep<'a> {
    /// The platform is to make `call`; its answer goes to `next`.
    Call { call: PlatformCall<'a>, next: BuildState },
    /// The build is over. `release`, if any, is a handle that nothing owns
    /// any more and that the platform is to release.
    Finished { result: Result<(), NwgError>, release: Option<usize> },
}

/// A [`BuildStep`] as plain values.
pub enum BuildStepView {
    Call { call: PlatformCallView, next: BuildPhase },
    Finished { result: Result<(), NwgError>, release: Option<usize> },
}

impl BuildStepView {
    /// The build ends in success: the target takes over `handle`.
    pub open spec fn done(handle: usize, target: BitmapView) -> (BuildStepView, BitmapView) {
        (
            BuildStepView::Finished { result: Ok(()), release: target.displaced_by(handle) },
            BitmapView::loaded(handle),
        )
    }

    /// The build ends in failure: the target stays as it is.
    pub open spec fn failed(error: NwgError, release: Option<usize>, target: BitmapView) -> (
        BuildStepView,
        BitmapView,
    ) {
        (BuildStepView::Finished { result: Err(error), release }, target)
    }

    /// How many calls of the platform may still follow this step.
    pub open spec fn calls_left(self) -> nat {
        match self {
            BuildStepView::Call { next, .. } => next.calls_left(),
            BuildStepView::Finished { .. } => 0,
        }
    }

    /// The step that follows this one when the platform answers `reply` to
    /// the call it asks for, and the target as it is then. A build that is
    /// over stays as it is.
    pub open spec fn after(self, reply: Option<usize>, target: BitmapView) -> (
        BuildStepView,
        BitmapView,
    ) {
        match self {
            BuildStepView::Call { next, .. } => next.step(reply, target),
            BuildStepView::Finished { .. } => (self, target),
        }
    }
}

/// What a whole build comes to.
pub struct BuildOutcome {
    /// Whether the bitmap was built, or why not.
    pub result: Result<(), NwgError>,
    /// The target after the build.
    pub target: BitmapView,
    /// The handle that the platform is asked to release, if any.
    pub release: Option<usize>,
}

impl BuildOutcome {
    /// The target takes over `handle`; what it owned before is released.
    pub open spec fn success(handle: usize, before: BitmapView) -> BuildOutcome {
        BuildOutcome {
            result: Ok(()),
            target: BitmapView::loaded(handle),
            release: before.displaced_by(handle),
        }
    }

    /// The target stays as it was.
    pub open spec fn failure(
        error: NwgError,
        release: Option<usize>,
        before: BitmapView,
    ) -> BuildOutcome {
        BuildOutcome { result: Err(error), target: before, release }
    }
}

impl<'a> View for BuildStep<'a> {
    type V = BuildStepView;

    open spec fn view(&self) -> BuildStepView {
        match *self {
            BuildStep::Call { call, next } => BuildStepView::Call { call: call@, next: next@ },
            BuildStep::Finished { result, release } => BuildStepView::Finished { result, release },
        }
    }
}

impl BuildState {
    /// Holds of every state: a handle that was loaded is not null.
    #[verifier::type_invariant]
    pub open spec fn well_formed(self) -> bool {
        self@.valid()
    }

    /// The state of a build whose load is under way.
    pub(crate) fn loading(size: Option<(u32, u32)>, transparency_key: Option<[u8; 3]>) -> (state:
        BuildState)
        ensures
            state@ == (BuildPhase::Loading { size, transparency_key }),
    {
        BuildState { phase: BuildPhase::Loading { size, transparency_key } }
    }

    /// Takes the platform's answer to the call under way and decides what
    /// follows. A null handle counts as no handle. The target is written only
    /// when the build ends in success, and then owns the handle that the last
    /// call produced; the handle it owned before is handed out for release.
    /// A loaded handle whose transparency call fails is not leaked: it is
    /// handed out for release too.
    pub fn step(self, reply: Option<usize>, target: &mut Bitmap) -> (step: BuildStep<'static>)
        ensures
            step@ == self@.step(reply, old(target)@).0,
            final(target)@ == self@.step(reply, old(target)@).1,
    {
        match self.phase {
            BuildPhase::Loading { size, transparency_key } => match accept(reply) {
                None => BuildStep::Finished { result: Err(NwgError::LoadError), release: None },
                Some(base) => match transparency_key {
                    Some(key) => BuildStep::Call {
                        call: PlatformCall::MakeTransparent {
                            handle: base,
                            size: to_signed_size(size),
                            key,
                        },
                        next: BuildState { phase: BuildPhase::Masking { base } },
                    },
                    None => {
                        let release = target.adopt(base);
                        BuildStep::Finished { result: Ok(()), release }
                    },
                },
            },
            BuildPhase::Masking { base } => match accept(reply) {
                None => {
                    let release = target.discard(base);
                    BuildStep::Finished { result: Err(NwgError::TransformError), release }
                },
                Some(handle) => {
                    let release = target.adopt(handle);
                    BuildStep::Finished { result: Ok(()), release }
                },
            },
        }
    }
}

} // verus!
