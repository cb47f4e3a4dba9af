//! Calls that try several packages in turn: a preferred one first, and each
//! fallback only after the one before it has failed.
//!
//! Every attempt is an ordinary request. The answer of the whole call is the
//! first success, or the failure of the last attempt.

use crate::error::ProvisionError;
use crate::package_utils::{
    get_node_package, resolve, spec_node_package, spec_resolve, Architecture, Os, Package,
    PackageView,
};
use crate::protocol::{option_view, Action, ActionView, Event, EventView};
use crate::tsgo::{
    spec_advance, spec_begin, CacheView, Phase, PhaseView, Request, RequestView, TsGoExtension,
};
use vstd::prelude::*;

verus! {

/// A call with fallbacks: the attempt under way, and the packages still to
/// be tried should it fail, in order.
#[derive(Debug)]
pub struct Attempts {
    pub request: Request,
    pub fallbacks: Vec<Package>,
}

/// Mathematical value of an [`Attempts`].
pub struct AttemptsView {
    pub request: RequestView,
    pub fallbacks: Seq<PackageView>,
}

/// Mathematical value of a list of packages.
pub open spec fn packages_view(packages: Seq<Package>) -> Seq<PackageView> {
    Seq::new(packages.len(), |i: int| packages[i]@)
}

impl View for Attempts {
    type V = AttemptsView;

    open spec fn view(&self) -> AttemptsView {
        AttemptsView { request: self.request@, fallbacks: packages_view(self.fallbacks@) }
    }
}

/// A call with fallbacks as it is opened: the preferred package is tried
/// first.
pub open spec fn spec_begin_attempts(
    cache: CacheView,
    preferred: PackageView,
    fallbacks: Seq<PackageView>,
    pinned_version: Option<Seq<char>>,
) -> AttemptsView {
    AttemptsView { request: spec_begin(cache, preferred, pinned_version), fallbacks }
}

impl AttemptsView {
    /// The action the call waits for.
    pub open spec fn pending(self) -> ActionView {
        self.request.pending()
    }

    /// Whether the call is over.
    pub open spec fn is_finished(self) -> bool {
        self.request.is_finished()
    }
}

/// One step of a call with fallbacks. The attempt under way advances as any
/// request does. Where that step ends it in failure and a fallback is left,
/// the failure is dropped and a request for the next fallback is opened in
/// its place, with the same pin.
pub open spec fn spec_advance_attempts(
    cache: CacheView,
    attempts: AttemptsView,
    event: EventView,
) -> (CacheView, AttemptsView) {
    let step = spec_advance(cache, attempts.request, event);
    if !attempts.request.is_finished() && (step.1.phase matches PhaseView::Finished {
        result: Err(_),
    }) && attempts.fallbacks.len() > 0 {
        (
            step.0,
            AttemptsView {
                request: spec_begin(
                    step.0,
                    attempts.fallbacks[0],
                    attempts.request.pinned_version,
                ),
                fallbacks: attempts.fallbacks.drop_first(),
            },
        )
    } else {
        (step.0, AttemptsView { request: step.1, fallbacks: attempts.fallbacks })
    }
}

impl Attempts {
    /// The action the host must perform next.
    pub fn pending(&self) -> (action: Action)
        ensures
            action@ == self@.pending(),
    {
        self.request.pending()
    }

    /// Whether the call is over.
    pub fn is_finished(&self) -> (done: bool)
        ensures
            done == self@.is_finished(),
    {
        self.request.is_finished()
    }
}

impl TsGoExtension {
    /// Opens a call that tries `preferred` and then each of `fallbacks` in
    /// order, all at `pinned_version` if one is given.
    pub fn begin_attempts(
        &self,
        preferred: Package,
        fallbacks: Vec<Package>,
        pinned_version: Option<String>,
    ) -> (attempts: Attempts)
        ensures
            attempts@ == spec_begin_attempts(
                self@,
                preferred@,
                packages_view(fallbacks@),
                option_view(pinned_version),
            ),
    {
        Attempts { request: self.begin(preferred, pinned_version), fallbacks }
    }

    /// Opens the call for a platform: its native package first, the
    /// platform-independent package as the one fallback. An architecture
    /// without a native package fails here, before anything is asked of the
    /// host, and gets no fallback.
    pub fn begin_for_platform(
        &self,
        os: Os,
        arch: Architecture,
        pinned_version: Option<String>,
    ) -> (attempts: Result<Attempts, ProvisionError>)
        ensures
            match spec_resolve(os, arch) {
                Ok(native) => attempts matches Ok(opened) && opened@ == spec_begin_attempts(
                    self@,
                    native,
                    seq![spec_node_package()],
                    option_view(pinned_version),
                ),
                Err(error) => attempts matches Err(failure) && failure@ == error,
            },
    {
        match resolve(os, arch) {
            Ok(native) => {
                let mut fallbacks = Vec::new();
                fallbacks.push(get_node_package());
                assert(packages_view(fallbacks@) =~= seq![spec_node_package()]);
                Ok(self.begin_attempts(native, fallbacks, pinned_version))
            },
            Err(error) => Err(error),
        }
    }

    /// Takes the host's report on the pending action of `attempts` and
    /// returns the call as it stands afterwards.
    pub fn advance_attempts(&mut self, attempts: Attempts, event: Event) -> (next: Attempts)
        ensures
            (final(self)@, next@) == spec_advance_attempts(old(self)@, attempts@, event@),
    {
        let Attempts { request, mut fallbacks } = attempts;
        let was_finished = request.is_finished();
        let request = self.advance(request, event);
        let failed = match &request.phase {
            Phase::Finished { result: Err(_) } => true,
            _ => false,
        };
        if !was_finished && failed && fallbacks.len() > 0 {
            let ghost before = fallbacks@;
            let target = fallbacks.remove(0);
            assert(packages_view(fallbacks@) =~= packages_view(before).drop_first());
            Attempts { request: self.begin(target, request.pinned_version), fallbacks }
        } else {
            Attempts { request, fallbacks }
        }
    }
}

} // verus!
