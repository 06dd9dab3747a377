//! The lifecycle of the backend child process: launched or not, the endpoint
//! published once, and the child handed back for termination on the single
//! shutdown path.
//!
//! The supervisor owns the handle of the child, of any type `H`. Shutdown
//! moves the handle out, so the caller that terminates it holds the only
//! copy, and a later shutdown has nothing left to hand out.

use vstd::prelude::*;
use crate::endpoint::{endpoint_script, publication_script};

verus! {

/// Where the supervisor stands in the backend's lifecycle.
#[derive(Clone, Copy, Debug, PartialEq, Eq, Structural)]
pub enum SupervisorState {
    /// No spawn was attempted, or it failed: no handle is held.
    NotStarted,
    /// A handle is held; the child is presumed alive.
    Running,
    /// The host has shut down; the handle, if any, was handed out.
    Terminated,
}

/// Owner of the backend's child process for the application's lifetime.
pub struct Supervisor<H> {
    handle: Option<H>,
    shut_down: bool,
    published: bool,
}

impl<H> Supervisor<H> {
    /// The fields agree: a supervisor that has shut down holds no handle.
    pub closed spec fn wf(&self) -> bool {
        self.shut_down ==> self.handle is None
    }

    /// The lifecycle state.
    pub closed spec fn state(&self) -> SupervisorState {
        if self.shut_down {
            SupervisorState::Terminated
        } else if self.handle is Some {
            SupervisorState::Running
        } else {
            SupervisorState::NotStarted
        }
    }

    /// The handle held, if any.
    pub closed spec fn held(&self) -> Option<H> {
        self.handle
    }

    /// Whether the endpoint was handed out for publication.
    pub closed spec fn published(&self) -> bool {
        self.published
    }

    /// `s` is the supervisor made from the launcher's outcome: it holds the
    /// handle exactly when the spawn succeeded.
    pub open spec fn is_launch_of(s: Self, outcome: Option<H>) -> bool {
        &&& s.wf()
        &&& s.held() == outcome
        &&& s.state() == if outcome is Some {
            SupervisorState::Running
        } else {
            SupervisorState::NotStarted
        }
        &&& !s.published()
    }

    /// `after` and `handed` are what a shutdown of `before` gives: the state
    /// is `Terminated`, and the handle is handed out exactly when one was
    /// held, that is when the state was `Running`.
    pub open spec fn is_shutdown_of(before: Self, after: Self, handed: Option<H>) -> bool {
        &&& after.wf()
        &&& after.state() == SupervisorState::Terminated
        &&& after.held() is None
        &&& handed == before.held()
        &&& (handed is Some <==> before.state() == SupervisorState::Running)
        &&& after.published() == before.published()
    }

    /// `after` and `script` are what the window's readiness gives on
    /// `before`: the statement that publishes the endpoint the first time,
    /// nothing after that; the child is not touched.
    pub open spec fn is_window_ready_of(before: Self, after: Self, script: Option<String>) -> bool {
        &&& after.wf()
        &&& after.state() == before.state()
        &&& after.held() == before.held()
        &&& after.published()
        &&& if before.published() {
            script is None
        } else {
            script matches Some(s) && s@ == publication_script()
        }
    }

    /// A supervisor made from the launcher's single attempt: `Some` handle on
    /// a successful spawn, `None` on a failed one.
    pub fn launched(outcome: Option<H>) -> (s: Self)
        ensures
            Self::is_launch_of(s, outcome),
    {
        Supervisor { handle: outcome, shut_down: false, published: false }
    }

    /// The lifecycle state.
    pub fn current_state(&self) -> (r: SupervisorState)
        ensures
            r == self.state(),
    {
        if self.shut_down {
            SupervisorState::Terminated
        } else if self.handle.is_some() {
            SupervisorState::Running
        } else {
            SupervisorState::NotStarted
        }
    }

    /// Whether a handle is held.
    pub fn has_handle(&self) -> (r: bool)
        ensures
            r == self.held() is Some,
    {
        self.handle.is_some()
    }

    /// The interface's main window has become available: hands out the
    /// statement that publishes the endpoint, once.
    pub fn on_window_ready(&mut self) -> (script: Option<String>)
        requires
            old(self).wf(),
        ensures
            Self::is_window_ready_of(*old(self), *final(self), script),
    {
        if self.published {
            None
        } else {
            self.published = true;
            Some(endpoint_script())
        }
    }

    /// The host application has shut down: moves to `Terminated` and hands
    /// out the handle, if one is held, for termination. Further calls hand
    /// out nothing.
    pub fn shutdown(&mut self) -> (handed: Option<H>)
        requires
            old(self).wf(),
        ensures
            Self::is_shutdown_of(*old(self), *final(self), handed),
    {
        let handed = self.handle.take();
        self.shut_down = true;
        handed
    }
}

/// How many of the shutdown results hand out a handle.
pub open spec fn handed_count<H>(handed: Seq<Option<H>>) -> nat
    decreases handed.len(),
{
    if handed.len() == 0 {
        0
    } else {
        handed_count(handed.drop_last()) + if handed.last() is Some {
            1nat
        } else {
            0nat
        }
    }
}

/// Shutting down any number of times has the effect of shutting down once:
/// along a run of shutdowns from `states[0]`, the handle is handed out for
/// termination exactly once if the child was running and never otherwise,
/// every call after the first hands out nothing, and each leaves the
/// supervisor `Terminated`.
pub proof fn lemma_shutdown_idempotent<H>(states: Seq<Supervisor<H>>, handed: Seq<Option<H>>)
    requires
        handed.len() >= 1,
        states.len() == handed.len() + 1,
        states[0].wf(),
        forall|i: int|
            0 <= i < handed.len() ==> Supervisor::is_shutdown_of(
                states[i],
                states[i + 1],
                #[trigger] handed[i],
            ),
    ensures
        handed_count(handed) == if states[0].state() == SupervisorState::Running {
            1nat
        } else {
            0nat
        },
        handed[0] == states[0].held(),
        forall|i: int| 1 <= i < handed.len() ==> #[trigger] handed[i] is None,
        forall|i: int|
            1 <= i < states.len() ==> (#[trigger] states[i]).state() == SupervisorState::Terminated
                && states[i].published() == states[0].published(),
    decreases handed.len(),
{
    assert(Supervisor::is_shutdown_of(states[0], states[1], handed[0]));
    if handed.len() == 1 {
        assert(handed.drop_last() =~= Seq::<Option<H>>::empty());
        assert(handed_count(handed.drop_last()) == 0);
        assert(handed.last() == handed[0]);
    } else {
        let n = handed.len() - 1;
        let front = states.drop_last();
        let front_handed = handed.drop_last();
        assert forall|i: int| 0 <= i < front_handed.len() implies Supervisor::is_shutdown_of(
            front[i],
            front[i + 1],
            #[trigger] front_handed[i],
        ) by {
            assert(handed[i] == front_handed[i]);
            assert(front[i] == states[i] && front[i + 1] == states[i + 1]);
        }
        lemma_shutdown_idempotent(front, front_handed);
        assert(Supervisor::is_shutdown_of(states[n - 1], states[n], handed[n - 1]));
        assert(Supervisor::is_shutdown_of(states[n], states[n + 1], handed[n]));
        assert(front[n] == states[n]);
        assert(front[0] == states[0]);
        assert(handed[n] is None);
        assert(handed.last() is None);
        assert forall|i: int| 1 <= i < states.len() implies (#[trigger] states[i]).state()
            == SupervisorState::Terminated && states[i].published() == states[0].published() by {
            if i < states.len() - 1 {
                assert(states[i] == front[i]);
            }
        }
        assert forall|i: int| 1 <= i < handed.len() implies #[trigger] handed[i] is None by {
            if i < n {
                assert(handed[i] == front_handed[i]);
            }
        }
    }
}

/// A failed spawn leaves nothing to terminate: a supervisor launched without
/// a handle is `NotStarted`, and its shutdown hands out nothing and ends in
/// `Terminated`.
pub proof fn lemma_no_handle_nothing_to_terminate<H>(
    s0: Supervisor<H>,
    s1: Supervisor<H>,
    handed: Option<H>,
)
    requires
        Supervisor::is_launch_of(s0, None),
        Supervisor::is_shutdown_of(s0, s1, handed),
    ensures
        s0.state() == SupervisorState::NotStarted,
        handed is None,
        s1.state() == SupervisorState::Terminated,
{
}

/// The published endpoint does not depend on the spawn: supervisors launched
/// from any two outcomes hand out the same statement when the window first
/// becomes ready.
pub proof fn lemma_publication_independent_of_spawn<H>(
    a0: Supervisor<H>,
    a1: Supervisor<H>,
    b0: Supervisor<H>,
    b1: Supervisor<H>,
    outcome_a: Option<H>,
    outcome_b: Option<H>,
    script_a: Option<String>,
    script_b: Option<String>,
)
    requires
        Supervisor::is_launch_of(a0, outcome_a),
        Supervisor::is_launch_of(b0, outcome_b),
        Supervisor::is_window_ready_of(a0, a1, script_a),
        Supervisor::is_window_ready_of(b0, b1, script_b),
    ensures
        script_a matches Some(x) && script_b matches Some(y) && x@ == y@ && x@
            == publication_script(),
{
}

} // verus!
