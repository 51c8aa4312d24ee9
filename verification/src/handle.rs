//! The handle through which the one inference engine is built and reached.
//!
//! The engine is expensive to build and is not known to tolerate two calls at
//! once. The handle therefore builds it on first demand and never again, and
//! lends it out only through `&mut self`, so that Rust's borrowing rules admit
//! one caller at a time. Callers on several threads share a handle behind a
//! lock, and whoever holds the lock holds that borrow.
//!
//! A build runs inside the demand that caused it, under the same exclusive
//! borrow, so that no caller ever finds a handle half built: a handle is
//! uninitialized, ready or failed. A failed build is final.

use crate::settings::EngineSettings;
use vstd::prelude::*;

verus! {

/// Where a handle stands, as a caller sees it.
#[derive(Clone, Copy, Debug, PartialEq, Eq, Structural)]
pub enum Readiness {
    /// No build was attempted yet.
    Uninitialized,
    /// The engine was built and can be used.
    Ready,
    /// The one build failed; the handle cannot serve.
    Failed,
}

/// Where a handle stands, to the contracts: with the engine it holds, or the
/// detail of the failed build.
pub enum Phase<E> {
    Uninitialized,
    Ready(E),
    Failed(Seq<char>),
}

impl<E> Phase<E> {
    /// The phase a handle is in once its build has ended with `built`.
    pub open spec fn settled(built: Result<E, String>) -> Phase<E> {
        match built {
            Ok(engine) => Phase::Ready(engine),
            Err(detail) => Phase::Failed(detail@),
        }
    }

    /// The phase after a demand for the engine that found the handle in
    /// `self`, if a build, where one was made, ended with `built`.
    pub open spec fn demanded(self, built: Result<E, String>) -> Phase<E> {
        if self is Uninitialized {
            Self::settled(built)
        } else {
            self
        }
    }

    /// What a caller is told of this phase.
    pub open spec fn readiness(self) -> Readiness {
        match self {
            Phase::Uninitialized => Readiness::Uninitialized,
            Phase::Ready(_) => Readiness::Ready,
            Phase::Failed(_) => Readiness::Failed,
        }
    }

    /// The number of builds made by a run of demands that starts in `self`,
    /// the `i`-th of which would end its build, if it made one, with
    /// `builds[i]`.
    pub open spec fn builds_made(self, builds: Seq<Result<E, String>>) -> nat
        decreases builds.len(),
    {
        if builds.len() == 0 {
            0
        } else {
            let first: nat = if self is Uninitialized { 1 } else { 0 };
            first + self.demanded(builds[0]).builds_made(builds.drop_first())
        }
    }

    /// The phase at the end of such a run.
    pub open spec fn after_demands(self, builds: Seq<Result<E, String>>) -> Phase<E>
        decreases builds.len(),
    {
        if builds.len() == 0 {
            self
        } else {
            self.demanded(builds[0]).after_demands(builds.drop_first())
        }
    }
}

enum Slot<E> {
    Empty,
    Ready(E),
    Failed(String),
}

/// The handle to the one engine of type `E`.
pub struct ModelHandle<E> {
    settings: EngineSettings,
    slot: Slot<E>,
}

impl<E> ModelHandle<E> {
    /// The settings the engine is, or will be, built with.
    pub closed spec fn settings_spec(&self) -> EngineSettings {
        self.settings
    }

    /// The phase the handle is in.
    pub closed spec fn phase(&self) -> Phase<E> {
        match self.slot {
            Slot::Empty => Phase::Uninitialized,
            Slot::Ready(engine) => Phase::Ready(engine),
            Slot::Failed(detail) => Phase::Failed(detail@),
        }
    }

    /// The engine of a handle that is ready.
    pub open spec fn engine(&self) -> E
        recommends
            self.phase() is Ready,
    {
        self.phase()->Ready_0
    }

    /// A handle on which nothing was built yet.
    pub fn new(settings: EngineSettings) -> (handle: ModelHandle<E>)
        ensures
            handle.settings_spec() == settings,
            handle.phase() is Uninitialized,
    {
        ModelHandle { settings, slot: Slot::Empty }
    }

    /// The settings the engine is, or will be, built with.
    pub fn settings(&self) -> (s: EngineSettings)
        ensures
            s == self.settings_spec(),
    {
        self.settings
    }

    /// Where the handle stands.
    pub fn readiness(&self) -> (r: Readiness)
        ensures
            r == self.phase().readiness(),
    {
        match &self.slot {
            Slot::Empty => Readiness::Uninitialized,
            Slot::Ready(_) => Readiness::Ready,
            Slot::Failed(_) => Readiness::Failed,
        }
    }

    /// The detail of the failed build, if the build failed.
    pub fn failure(&self) -> (detail: Option<&String>)
        ensures
            match detail {
                Some(text) => self.phase() == Phase::<E>::Failed(text@),
                None => !(self.phase() is Failed),
            },
    {
        match &self.slot {
            Slot::Failed(text) => Some(text),
            _ => None,
        }
    }

    /// Demands the engine. On a handle on which nothing was built yet, `build`
    /// runs, on the handle's settings, and its outcome settles the handle for
    /// good. On any other handle `build` is dropped unused and nothing
    /// changes.
    pub fn get_or_init<F>(&mut self, build: F) -> (r: Readiness)
        where F: FnOnce(&EngineSettings) -> Result<E, String>
        requires
            old(self).phase() is Uninitialized ==> call_requires(
                build,
                (&old(self).settings_spec(),),
            ),
        ensures
            final(self).settings_spec() == old(self).settings_spec(),
            !(old(self).phase() is Uninitialized) ==> final(self).phase() == old(self).phase(),
            old(self).phase() is Uninitialized ==> exists|built: Result<E, String>|
                #[trigger] call_ensures(build, (&old(self).settings_spec(),), built)
                    && final(self).phase() == Phase::settled(built),
            r == final(self).phase().readiness(),
            r != Readiness::Uninitialized,
    {
        let empty = match &self.slot {
            Slot::Empty => true,
            _ => false,
        };
        if empty {
            let built = build(&self.settings);
            match built {
                Ok(engine) => {
                    self.slot = Slot::Ready(engine);
                    Readiness::Ready
                },
                Err(detail) => {
                    self.slot = Slot::Failed(detail);
                    Readiness::Failed
                },
            }
        } else {
            self.readiness()
        }
    }

    /// Lends the engine to `f`, once, and hands back what `f` returns. The
    /// exclusive borrow of the handle lasts for the whole call, so no second
    /// use of the engine can begin before this one has ended.
    pub fn with_engine<R, F>(&mut self, f: F) -> (r: R)
        where F: FnOnce(&E) -> R
        requires
            old(self).phase() is Ready,
            call_requires(f, (&old(self).engine(),)),
        ensures
            call_ensures(f, (&old(self).engine(),), r),
            final(self).phase() == old(self).phase(),
            final(self).settings_spec() == old(self).settings_spec(),
    {
        match &self.slot {
            Slot::Ready(engine) => f(engine),
            _ => {
                proof {
                    assert(false);
                }
                unreached()
            },
        }
    }
}

/// A demand never leaves a handle uninitialized, and a handle that was
/// settled before the demand is left as it was.
pub proof fn lemma_demand_settles<E>(start: Phase<E>, built: Result<E, String>)
    ensures
        !(start.demanded(built) is Uninitialized),
        !(start is Uninitialized) ==> start.demanded(built) == start,
{
}

/// A demand made twice is a demand made once: the second finds nothing to do.
pub proof fn lemma_demand_idempotent<E>(
    start: Phase<E>,
    first: Result<E, String>,
    second: Result<E, String>,
)
    ensures
        start.demanded(first).demanded(second) == start.demanded(first),
{
}

/// Single construction: however many demands are made of a handle, and
/// whatever each build would have ended with, at most one build is made. It
/// is made by the first demand, and only on a handle that had none before.
pub proof fn lemma_single_construction<E>(start: Phase<E>, builds: Seq<Result<E, String>>)
    ensures
        start.builds_made(builds) <= 1,
        start.builds_made(builds) == 1 <==> (start is Uninitialized && builds.len() > 0),
    decreases builds.len(),
{
    if builds.len() > 0 {
        let next = start.demanded(builds[0]);
        lemma_demand_settles(start, builds[0]);
        lemma_single_construction(next, builds.drop_first());
    }
}

/// Same instance: every demand after the first finds the handle as the first
/// one left it, so that all callers are given the engine of that one build,
/// or all are told of its failure.
pub proof fn lemma_same_instance<E>(start: Phase<E>, builds: Seq<Result<E, String>>)
    requires
        builds.len() > 0,
    ensures
        start.after_demands(builds) == start.demanded(builds[0]),
        forall|k: int|
            0 < k <= builds.len() ==> #[trigger] start.after_demands(builds.take(k))
                == start.demanded(builds[0]),
    decreases builds.len(),
{
    let first = start.demanded(builds[0]);
    lemma_demand_settles(start, builds[0]);
    lemma_settled_stays(first, builds.drop_first());
    assert forall|k: int| 0 < k <= builds.len() implies #[trigger] start.after_demands(
        builds.take(k),
    ) == first by {
        let prefix = builds.take(k);
        assert(prefix[0] == builds[0]);
        lemma_settled_stays(first, prefix.drop_first());
    }
}

/// A handle that is settled stays as it is under any run of demands.
pub proof fn lemma_settled_stays<E>(start: Phase<E>, builds: Seq<Result<E, String>>)
    requires
        !(start is Uninitialized),
    ensures
        start.after_demands(builds) == start,
        start.builds_made(builds) == 0,
    decreases builds.len(),
{
    if builds.len() > 0 {
        lemma_settled_stays(start, builds.drop_first());
    }
}

} // verus!
