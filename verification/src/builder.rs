use crate::bitmap::{Bitmap, BitmapState, BitmapView};
use crate::error::NwgError;
use crate::machine::{BuildOutcome, BuildPhase, BuildState, BuildStep, BuildStepView};
use crate::oem::OemBitmap;
use crate::platform::{answered, answered_if_asked, produced, signed_size};
use crate::platform::{PlatformCall, PlatformCallView};
use vstd::prelude::*;

verus! {

/// What a [`BitmapBuilder`] has been told, as plain values.
pub struct BitmapConfig {
    /// The path of the file to load, if one was given.
    pub source_file: Option<Seq<char>>,
    /// The bytes to decode, if any were given.
    pub source_bin: Option<Seq<u8>>,
    /// The system bitmap to fetch, if one was named.
    pub source_system: Option<OemBitmap>,
    /// The colour to turn transparent, as red, green and blue.
    pub transparency_key: Option<[u8; 3]>,
    /// The size to load at; unset or `(0, 0)` asks for the image's own size.
    pub size: Option<(u32, u32)>,
    /// Whether the loader must fail rather than make do.
    pub strict: bool,
}

impl BitmapConfig {
    /// Nothing selected: no source, no size, no transparency key, not strict.
    pub open spec fn unset() -> BitmapConfig {
        BitmapConfig {
            source_file: None,
            source_bin: None,
            source_system: None,
            transparency_key: None,
            size: None,
            strict: false,
        }
    }

    /// Whether any source is set.
    pub open spec fn has_source(self) -> bool {
        self.source_file is Some || self.source_system is Some || self.source_bin is Some
    }

    /// The load that a build asks for: of the sources that are set, the file
    /// comes before the system bitmap, and that before the bytes.
    pub open spec fn load_call(self) -> Option<PlatformCallView> {
        if self.source_file is Some {
            Some(
                PlatformCallView::LoadFile {
                    path: self.source_file.unwrap(),
                    size: self.size,
                    strict: self.strict,
                },
            )
        } else if self.source_system is Some {
            Some(
                PlatformCallView::LoadSystem {
                    image: self.source_system.unwrap(),
                    size: self.size,
                },
            )
        } else if self.source_bin is Some {
            Some(PlatformCallView::LoadMemory { bytes: self.source_bin.unwrap() })
        } else {
            None
        }
    }

    /// The transparency call that a build asks for once the platform has
    /// answered `loaded` to the load: none unless there was a load, it
    /// produced a handle, and a key is set.
    pub open spec fn mask_call(self, loaded: Option<usize>) -> Option<PlatformCallView> {
        if self.has_source() && produced(loaded) is Some && self.transparency_key is Some {
            Some(
                PlatformCallView::MakeTransparent {
                    handle: produced(loaded).unwrap(),
                    size: signed_size(self.size),
                    key: self.transparency_key.unwrap(),
                },
            )
        } else {
            None
        }
    }

    /// The first step of a build.
    pub open spec fn begin(self) -> BuildStepView {
        match self.load_call() {
            Some(call) => BuildStepView::Call {
                call,
                next: BuildPhase::Loading {
                    size: self.size,
                    transparency_key: self.transparency_key,
                },
            },
            None => BuildStepView::Finished {
                result: Err(NwgError::ConfigurationError),
                release: None,
            },
        }
    }

    /// What a build into the target `before` comes to when the platform
    /// answers `loaded` to the load and `masked` to the transparency call.
    /// An answer to a call that is not made plays no part.
    pub open spec fn outcome(
        self,
        before: BitmapView,
        loaded: Option<usize>,
        masked: Option<usize>,
    ) -> BuildOutcome {
        if !self.has_source() {
            BuildOutcome::failure(NwgError::ConfigurationError, None, before)
        } else if produced(loaded) is None {
            BuildOutcome::failure(NwgError::LoadError, None, before)
        } else if self.transparency_key is None {
            BuildOutcome::success(produced(loaded).unwrap(), before)
        } else if produced(masked) is None {
            BuildOutcome::failure(
                NwgError::TransformError,
                before.discarded(produced(loaded).unwrap()),
                before,
            )
        } else {
            BuildOutcome::success(produced(masked).unwrap(), before)
        }
    }
}

impl BitmapConfig {
    /// With no source set a build fails with `ConfigurationError`, whatever
    /// the platform might answer: nothing is asked of it, nothing is to be
    /// released, and the target stays as it was.
    pub proof fn lemma_no_source_is_refused(
        self,
        before: BitmapView,
        loaded: Option<usize>,
        masked: Option<usize>,
    )
        requires
            !self.has_source(),
        ensures
            self.load_call() is None,
            self.mask_call(loaded) is None,
            self.begin() == (BuildStepView::Finished {
                result: Err(NwgError::ConfigurationError),
                release: None,
            }),
            self.outcome(before, loaded, masked) == (BuildOutcome {
                result: Err(NwgError::ConfigurationError),
                target: before,
                release: None,
            }),
    {
    }

    /// With a file set and no transparency key, a build asks for that file
    /// at the configured size and strictness, and where the load produces a
    /// handle the build succeeds: the target owns that handle, which is not
    /// null.
    pub proof fn lemma_file_source_is_loaded(
        self,
        before: BitmapView,
        loaded: Option<usize>,
        masked: Option<usize>,
    )
        requires
            self.source_file is Some,
            self.transparency_key is None,
            produced(loaded) is Some,
        ensures
            self.load_call() == Some(
                PlatformCallView::LoadFile {
                    path: self.source_file.unwrap(),
                    size: self.size,
                    strict: self.strict,
                },
            ),
            self.mask_call(loaded) is None,
            ({
                let outcome = self.outcome(before, loaded, masked);
                &&& outcome.result is Ok
                &&& outcome.target == BitmapView::loaded(loaded.unwrap())
                &&& outcome.target.owned
                &&& outcome.target.handle != 0
            }),
    {
    }

    /// With a system bitmap set a build never fails for want of a source. It
    /// succeeds exactly when every call it makes produces a handle, and the
    /// target then owns its handle, whatever the source was.
    pub proof fn lemma_system_source_is_owned(
        self,
        before: BitmapView,
        loaded: Option<usize>,
        masked: Option<usize>,
    )
        requires
            self.source_system is Some,
        ensures
            self.load_call() is Some,
            ({
                let outcome = self.outcome(before, loaded, masked);
                let every_call_produced = produced(loaded) is Some && (self.transparency_key is None
                    || produced(masked) is Some);
                &&& outcome.result != Err::<(), NwgError>(NwgError::ConfigurationError)
                &&& outcome.result is Ok <==> every_call_produced
                &&& outcome.result is Ok ==> outcome.target.owned
            }),
    {
    }

    /// Of several sources the file is used before the system bitmap, and the
    /// system bitmap before the bytes.
    pub proof fn lemma_source_priority(self)
        ensures
            self.load_call() is Some <==> self.has_source(),
            self.source_file is Some ==> self.load_call() == Some(
                PlatformCallView::LoadFile {
                    path: self.source_file.unwrap(),
                    size: self.size,
                    strict: self.strict,
                },
            ),
            self.source_file is None && self.source_system is Some ==> self.load_call() == Some(
                PlatformCallView::LoadSystem {
                    image: self.source_system.unwrap(),
                    size: self.size,
                },
            ),
            self.source_file is None && self.source_system is None && self.source_bin is Some
                ==> self.load_call() == Some(
                PlatformCallView::LoadMemory { bytes: self.source_bin.unwrap() },
            ),
    {
    }

    /// Stepping a build through the platform's answers comes to its outcome,
    /// and within two answers. The calls that the steps ask for are the load
    /// and the transparency call of the configuration, and no others.
    pub proof fn lemma_steps_reach_outcome(
        self,
        before: BitmapView,
        loaded: Option<usize>,
        masked: Option<usize>,
    )
        ensures
            ({
                let first = self.begin();
                let (second, target) = first.after(loaded, before);
                let (last, after) = second.after(masked, target);
                let outcome = self.outcome(before, loaded, masked);
                &&& first.calls_left() <= 2
                &&& second.calls_left() <= 1
                &&& first is Call <==> self.load_call() is Some
                &&& first matches BuildStepView::Call { call, .. } ==> self.load_call() == Some(call)
                &&& second is Call <==> self.mask_call(loaded) is Some
                &&& second matches BuildStepView::Call { call, .. } ==> self.mask_call(loaded)
                    == Some(call)
                &&& second is Call ==> target == before
                &&& last == (BuildStepView::Finished {
                    result: outcome.result,
                    release: outcome.release,
                })
                &&& after == outcome.target
            }),
    {
    }

    /// A build is sound about ownership. The target is written only on
    /// success, and then owns a handle that is not null. A handle that is
    /// handed out for release is not null, and the target does not own it
    /// afterwards.
    pub proof fn lemma_outcome_is_sound(
        self,
        before: BitmapView,
        loaded: Option<usize>,
        masked: Option<usize>,
    )
        requires
            before.valid(),
        ensures
            ({
                let outcome = self.outcome(before, loaded, masked);
                &&& outcome.target.valid()
                &&& outcome.result is Err ==> outcome.target == before
                &&& outcome.result is Ok ==> outcome.target.state() == BitmapState::Loaded
                &&& outcome.release matches Some(handle) ==> handle != 0
                    && outcome.target.pending_release() != Some(handle)
            }),
    {
    }
}

/// Whether a build of `config` into the target `before` may ask `request`
/// of `platform`. It may ask for the load of the configuration; for the
/// transparency call that follows an answer `platform` can give to that
/// load; and for the release that the outcome names, under answers that
/// `platform` can give to both. It may ask for nothing else.
pub open spec fn may_ask<'a, P: Fn(PlatformCall<'a>) -> Option<usize>>(
    platform: P,
    config: BitmapConfig,
    before: BitmapView,
    request: PlatformCallView,
) -> bool {
    ||| config.load_call() == Some(request)
    ||| exists|loaded: Option<usize>|
        answered_if_asked(platform, config.load_call(), loaded) && #[trigger] config.mask_call(
            loaded,
        ) == Some(request)
    ||| exists|loaded: Option<usize>, masked: Option<usize>|
        {
            &&& answered_if_asked(platform, config.load_call(), loaded)
            &&& answered_if_asked(platform, config.mask_call(loaded), masked)
            &&& (#[trigger] config.outcome(before, loaded, masked)).release matches Some(handle)
                && request == (PlatformCallView::Release { handle })
        }
}

/// With no source set a build may ask nothing of the platform: no load, no
/// transparency call and no release, whatever the target holds.
pub proof fn lemma_nothing_is_asked_without_source<'a, P: Fn(PlatformCall<'a>) -> Option<usize>>(
    platform: P,
    config: BitmapConfig,
    before: BitmapView,
    request: PlatformCallView,
)
    requires
        !config.has_source(),
    ensures
        !may_ask(platform, config, before, request),
{
}

/// What a build may ask of the platform is what it needs. The only load is
/// the one of the source that comes first. A transparency call is asked only
/// where a key is set, on a handle that the platform gave for that load. A
/// release is asked only of a handle that is not null: the one the target
/// owned before, or the one that the platform gave for the load.
pub proof fn lemma_only_needed_calls_are_asked<'a, P: Fn(PlatformCall<'a>) -> Option<usize>>(
    platform: P,
    config: BitmapConfig,
    before: BitmapView,
    request: PlatformCallView,
)
    requires
        before.valid(),
        may_ask(platform, config, before, request),
    ensures
        config.has_source(),
        request is LoadFile || request is LoadSystem || request is LoadMemory
            ==> config.load_call() == Some(request),
        request is MakeTransparent ==> config.transparency_key is Some && exists|
            loaded: Option<usize>,
        |
            answered_if_asked(platform, config.load_call(), loaded) && #[trigger] config.mask_call(
                loaded,
            ) == Some(request),
        request matches PlatformCallView::Release { handle } ==> handle != 0 && (
        before.pending_release() == Some(handle) || exists|loaded: Option<usize>|
            answered_if_asked(platform, config.load_call(), loaded) && #[trigger] produced(loaded)
                == Some(handle)),
{
}

/// The characters of an optional path.
pub open spec fn text_of(text: Option<&str>) -> Option<Seq<char>> {
    match text {
        Some(t) => Some(t@),
        None => None,
    }
}

/// The bytes of an optional buffer.
pub open spec fn bytes_of(bytes: Option<&[u8]>) -> Option<Seq<u8>> {
    match bytes {
        Some(b) => Some(b@),
        None => None,
    }
}

/// Collects what a bitmap is to be built from. Setting a value replaces the
/// one set before and checks nothing; which of several sources is used is
/// settled when the bitmap is built.
pub struct BitmapBuilder<'a> {
    source_text: Option<&'a str>,
    source_bin: Option<&'a [u8]>,
    source_system: Option<OemBitmap>,
    transparency_key: Option<[u8; 3]>,
    size: Option<(u32, u32)>,
    strict: bool,
}

impl<'a> View for BitmapBuilder<'a> {
    type V = BitmapConfig;

    closed spec fn view(&self) -> BitmapConfig {
        BitmapConfig {
            source_file: text_of(self.source_text),
            source_bin: bytes_of(self.source_bin),
            source_system: self.source_system,
            transparency_key: self.transparency_key,
            size: self.size,
            strict: self.strict,
        }
    }
}

impl Bitmap {
    /// A builder with nothing selected.
    pub fn builder<'a>() -> (builder: BitmapBuilder<'a>)
        ensures
            builder@ == BitmapConfig::unset(),
    {
        BitmapBuilder {
            source_text: None,
            source_bin: None,
            source_system: None,
            transparency_key: None,
            size: None,
            strict: false,
        }
    }
}

impl<'a> BitmapBuilder<'a> {
    /// Sets, or with `None` clears, the file to load the bitmap from.
    pub fn source_file(self, t: Option<&'a str>) -> (builder: BitmapBuilder<'a>)
        ensures
            builder@ == (BitmapConfig { source_file: text_of(t), ..self@ }),
    {
        let mut builder = self;
        builder.source_text = t;
        builder
    }

    /// Sets, or with `None` clears, the bytes to decode the bitmap from.
    pub fn source_bin(self, t: Option<&'a [u8]>) -> (builder: BitmapBuilder<'a>)
        ensures
            builder@ == (BitmapConfig { source_bin: bytes_of(t), ..self@ }),
    {
        let mut builder = self;
        builder.source_bin = t;
        builder
    }

    /// Sets, or with `None` clears, the system bitmap to fetch.
    pub fn source_system(self, t: Option<OemBitmap>) -> (builder: BitmapBuilder<'a>)
        ensures
            builder@ == (BitmapConfig { source_system: t, ..self@ }),
    {
        let mut builder = self;
        builder.source_system = t;
        builder
    }

    /// Sets, or with `None` clears, the size to load the bitmap at.
    pub fn size(self, s: Option<(u32, u32)>) -> (builder: BitmapBuilder<'a>)
        ensures
            builder@ == (BitmapConfig { size: s, ..self@ }),
    {
        let mut builder = self;
        builder.size = s;
        builder
    }

    /// Sets whether the loader must fail rather than make do.
    pub fn strict(self, s: bool) -> (builder: BitmapBuilder<'a>)
        ensures
            builder@ == (BitmapConfig { strict: s, ..self@ }),
    {
        let mut builder = self;
        builder.strict = s;
        builder
    }

    /// Sets, or with `None` clears, the colour to turn transparent.
    pub fn transparency_key(self, k: Option<[u8; 3]>) -> (builder: BitmapBuilder<'a>)
        ensures
            builder@ == (BitmapConfig { transparency_key: k, ..self@ }),
    {
        let mut builder = self;
        builder.transparency_key = k;
        builder
    }

    /// Starts the build: settles which source is used and asks for its load,
    /// or ends the build at once where no source is set.
    pub fn begin(self) -> (step: BuildStep<'a>)
        ensures
            step@ == self@.begin(),
    {
        let call = if let Some(path) = self.source_text {
            PlatformCall::LoadFile { path, size: self.size, strict: self.strict }
        } else if let Some(image) = self.source_system {
            PlatformCall::LoadSystem { image, size: self.size }
        } else if let Some(bytes) = self.source_bin {
            PlatformCall::LoadMemory { bytes }
        } else {
            return BuildStep::Finished {
                result: Err(NwgError::ConfigurationError),
                release: None,
            };
        };
        BuildStep::Call { call, next: BuildState::loading(self.size, self.transparency_key) }
    }

    /// Builds the bitmap into `b`, with `platform` making the calls.
    ///
    /// The source is settled first; with none set the build fails with
    /// `ConfigurationError`. Otherwise the load is asked for, then, where a
    /// transparency key is set, the transparency call on the loaded handle. A
    /// call that produces no handle, or the null handle, ends the build with
    /// `LoadError` or `TransformError`. On success `b` owns the handle that
    /// the last call produced; on failure it is as it was. A handle that is
    /// left without an owner, the one `b` owned before or one whose
    /// transparency call failed, is handed to `platform` for release.
    ///
    /// `platform` has to accept the calls that the build may ask for, and no
    /// others: a platform that refuses every other call can be handed in, so
    /// no other call is made. With no source set that is a platform that
    /// refuses everything.
    pub fn build<P>(self, b: &mut Bitmap, platform: P) -> (result: Result<(), NwgError>) where
        P: Fn(PlatformCall<'a>) -> Option<usize>,

        requires
            forall|call: PlatformCall<'a>|
                may_ask(platform, self@, old(b)@, call@) ==> #[trigger] platform.requires((call,)),
        ensures
            exists|loaded: Option<usize>, masked: Option<usize>|
                {
                    &&& answered_if_asked(platform, self@.load_call(), loaded)
                    &&& answered_if_asked(platform, self@.mask_call(loaded), masked)
                    &&& result == (#[trigger] self@.outcome(old(b)@, loaded, masked)).result
                    &&& final(b)@ == self@.outcome(old(b)@, loaded, masked).target
                    &&& self@.outcome(old(b)@, loaded, masked).release matches Some(handle)
                        ==> exists|reply: Option<usize>| #[trigger]
                        answered(platform, PlatformCallView::Release { handle }, reply)
                },
    {
        let ghost config = self@;
        let ghost before = b@;
        let ghost mut loaded: Option<usize> = None;
        let ghost mut masked: Option<usize> = None;
        let ghost mut answers: nat = 0;
        let mut step = self.begin();
        loop
            invariant
                forall|call: PlatformCall<'a>|
                    may_ask(platform, config, before, call@) ==> #[trigger] platform.requires(
                        (call,),
                    ),
                config == self@,
                before == old(b)@,
                answers + step@.calls_left() <= 2,
                answers == 0 ==> step@ == config.begin() && b@ == before,
                answers >= 1 ==> config.has_source() && answered_if_asked(
                    platform,
                    config.load_call(),
                    loaded,
                ),
                answers == 1 ==> (step@, b@) == config.begin().after(loaded, before),
                answers == 2 ==> config.mask_call(loaded) is Some && answered_if_asked(
                    platform,
                    config.mask_call(loaded),
                    masked,
                ),
                answers == 2 ==> (step@, b@) == config.begin().after(loaded, before).0.after(
                    masked,
                    before,
                ),
            decreases step@.calls_left(),
        {
            match step {
                BuildStep::Call { call, next } => {
                    assert(may_ask(platform, config, before, call@)) by {
                        if answers == 1 {
                            assert(config.mask_call(loaded) == Some(call@));
                        }
                    }
                    let reply = platform(call);
                    proof {
                        assert(answered(platform, call@, reply));
                        if answers == 0 {
                            loaded = reply;
                        } else {
                            masked = reply;
                        }
                        answers = answers + 1;
                    }
                    step = next.step(reply, b);
                },
                BuildStep::Finished { result, release } => {
                    let ghost outcome = config.outcome(before, loaded, masked);
                    assert(result == outcome.result && b@ == outcome.target && release
                        == outcome.release);
                    if let Some(handle) = release {
                        let call = PlatformCall::Release { handle };
                        assert(may_ask(platform, config, before, call@)) by {
                            assert(answered_if_asked(platform, config.load_call(), loaded));
                            assert(answered_if_asked(platform, config.mask_call(loaded), masked));
                            assert(outcome.release == Some(handle));
                        }
                        let reply = platform(call);
                        assert(answered(platform, call@, reply));
                    }
                    return result;
                },
            }
        }
    }
}

} // verus!
