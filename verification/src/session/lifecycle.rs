//! The lease of one request on a session's agent instance, and the cleanup that follows it.
//!
//! A request drives an agent instance while it holds the lock on the instance's controller.
//! [`RequestLifecycle`] owns that lock for the request. [`RequestLifecycle::release`] gives the
//! lock up and hands out a [`Release`]: the cleanup that the session policy prescribes, as a
//! sequence of actions that the caller performs in the background, one at a time.

use tokio::sync::OwnedMutexGuard;
use vstd::prelude::*;

verus! {

/// `tokio::sync::OwnedMutexGuard`: the held lock on a mutex behind an `Arc`. The lock is
/// released when the guard is dropped. Verus sees nothing inside a guard.
#[verifier::external_type_specification]
#[verifier::external_body]
#[verifier::reject_recursive_types(T)]
pub struct ExOwnedMutexGuard<T: ?Sized>(OwnedMutexGuard<T>);

/// A copy of the controller behind a held lock: `Deref` of the guard, then `Clone`.
///
/// Nothing is claimed of the copy. Whether it addresses the same agent instance is up to the
/// controller's `Clone`.
#[verifier::external_body]
fn controller_of<C: Clone>(controller_guard: &OwnedMutexGuard<C>) -> (controller: C) {
    (**controller_guard).clone()
}

/// The lease of one request, tagged with the policy of its session.
#[verifier::reject_recursive_types(C)]
pub enum RequestLifecycle<C> {
    /// The agent instance goes on running when the request is over.
    Background { controller_guard: OwnedMutexGuard<C>, request_id: String, session_id: String },
    /// The agent instance is terminated when the request is over.
    Ephemeral { controller_guard: OwnedMutexGuard<C>, request_id: String, session_id: String },
}

/// One step of the cleanup after a request.
#[derive(Clone, Copy, Debug, PartialEq, Eq, Structural)]
pub enum ReleaseAction {
    /// Ask the agent instance for its conversation so far.
    SnapshotTrace,
    /// Write the conversation that the snapshot gave to the session store.
    SaveSession,
    /// Stop the agent instance for good.
    Terminate,
    /// Nothing is left to do.
    Done,
}

/// The action that follows `pending`, once `pending` has succeeded or failed.
///
/// The snapshot comes first. The conversation is saved where the snapshot succeeded; whether
/// the save succeeds changes nothing. An ephemeral session is terminated last, a background
/// session is left running.
pub open spec fn next_action(ephemeral: bool, pending: ReleaseAction, succeeded: bool)
    -> ReleaseAction {
    match pending {
        ReleaseAction::SnapshotTrace => if succeeded {
            ReleaseAction::SaveSession
        } else if ephemeral {
            ReleaseAction::Terminate
        } else {
            ReleaseAction::Done
        },
        ReleaseAction::SaveSession => if ephemeral {
            ReleaseAction::Terminate
        } else {
            ReleaseAction::Done
        },
        ReleaseAction::Terminate => ReleaseAction::Done,
        ReleaseAction::Done => ReleaseAction::Done,
    }
}

/// The actions that a caller performs who starts with `pending` and reports `outcomes[i]` for
/// the `i`-th of them, until nothing is left to do or the outcomes run out.
pub open spec fn performed(ephemeral: bool, pending: ReleaseAction, outcomes: Seq<bool>) -> Seq<
    ReleaseAction,
>
    decreases outcomes.len(),
{
    if pending == ReleaseAction::Done || outcomes.len() == 0 {
        Seq::empty()
    } else {
        seq![pending] + performed(
            ephemeral,
            next_action(ephemeral, pending, outcomes.first()),
            outcomes.drop_first(),
        )
    }
}

/// The cleanup for a session of the given policy whose snapshot succeeds or fails.
pub open spec fn cleanup(ephemeral: bool, snapshot_succeeds: bool) -> Seq<ReleaseAction> {
    seq![ReleaseAction::SnapshotTrace] + (if snapshot_succeeds {
        seq![ReleaseAction::SaveSession]
    } else {
        Seq::empty()
    }) + (if ephemeral {
        seq![ReleaseAction::Terminate]
    } else {
        Seq::empty()
    })
}

/// The number of times that `action` occurs in `actions`.
pub open spec fn occurrences(actions: Seq<ReleaseAction>, action: ReleaseAction) -> nat
    decreases actions.len(),
{
    if actions.len() == 0 {
        0
    } else {
        occurrences(actions.drop_last(), action) + if actions.last() == action {
            1nat
        } else {
            0nat
        }
    }
}

/// The cleanup after one request: the controller to run it against, and the action that is
/// to be performed next.
pub struct Release<C> {
    controller: C,
    request_id: String,
    session_id: String,
    ephemeral: bool,
    pending: ReleaseAction,
}

impl<C> RequestLifecycle<C> {
    /// Wraps an acquired lock for the request `request_id` on the session `session_id`.
    pub fn new(
        ephemeral: bool,
        controller_guard: OwnedMutexGuard<C>,
        request_id: String,
        session_id: String,
    ) -> (lifecycle: Self)
        ensures
            lifecycle == (if ephemeral {
                RequestLifecycle::Ephemeral { controller_guard, request_id, session_id }
            } else {
                RequestLifecycle::Background { controller_guard, request_id, session_id }
            }),
    {
        match ephemeral {
            true => RequestLifecycle::Ephemeral { controller_guard, request_id, session_id },
            false => RequestLifecycle::Background { controller_guard, request_id, session_id },
        }
    }

    /// Whether the agent instance is terminated when the request is over.
    pub open spec fn ephemeral(self) -> bool {
        self is Ephemeral
    }

    /// The identifier of the request that holds the lease.
    pub open spec fn request_id(self) -> String {
        match self {
            RequestLifecycle::Background { request_id, .. } => request_id,
            RequestLifecycle::Ephemeral { request_id, .. } => request_id,
        }
    }

    /// The identifier of the session that the lease is on.
    pub open spec fn session_id(self) -> String {
        match self {
            RequestLifecycle::Background { session_id, .. } => session_id,
            RequestLifecycle::Ephemeral { session_id, .. } => session_id,
        }
    }
}

impl<C: Clone> RequestLifecycle<C> {
    /// Ends the lease. The lock on the controller is given up here, so that the next request
    /// for the session can proceed; the cleanup that is handed out starts with the snapshot
    /// and runs against a copy of the controller.
    pub fn release(self) -> (release: Release<C>)
        ensures
            release.pending() == ReleaseAction::SnapshotTrace,
            release.ephemeral() == self.ephemeral(),
            release.request_id() == self.request_id(),
            release.session_id() == self.session_id(),
    {
        match self {
            RequestLifecycle::Background { controller_guard, request_id, session_id } => Release {
                controller: controller_of(&controller_guard),
                request_id,
                session_id,
                ephemeral: false,
                pending: ReleaseAction::SnapshotTrace,
            },
            RequestLifecycle::Ephemeral { controller_guard, request_id, session_id } => Release {
                controller: controller_of(&controller_guard),
                request_id,
                session_id,
                ephemeral: true,
                pending: ReleaseAction::SnapshotTrace,
            },
        }
    }
}

impl<C> Release<C> {
    /// The action that is to be performed next.
    pub closed spec fn pending(self) -> ReleaseAction {
        self.pending
    }

    /// Whether the agent instance is terminated at the end.
    pub closed spec fn ephemeral(self) -> bool {
        self.ephemeral
    }

    /// The identifier of the request that held the lease.
    pub closed spec fn request_id(self) -> String {
        self.request_id
    }

    /// The identifier of the session whose conversation is saved.
    pub closed spec fn session_id(self) -> String {
        self.session_id
    }

    /// The controller that the snapshot and the termination are addressed to.
    pub closed spec fn controller(self) -> C {
        self.controller
    }

    /// The action that is to be performed next.
    pub fn action(&self) -> (action: ReleaseAction)
        ensures
            action == self.pending(),
    {
        self.pending
    }

    /// The identifier of the session whose conversation is saved.
    pub fn session(&self) -> (session_id: &String)
        ensures
            *session_id == self.session_id(),
    {
        &self.session_id
    }

    /// The identifier of the request that held the lease.
    pub fn request(&self) -> (request_id: &String)
        ensures
            *request_id == self.request_id(),
    {
        &self.request_id
    }

    /// The controller that the snapshot and the termination are addressed to.
    pub fn agent(&self) -> (controller: &C)
        ensures
            *controller == self.controller(),
    {
        &self.controller
    }

    /// Reports that the pending action has succeeded or failed, and learns the next one.
    pub fn advance(&mut self, succeeded: bool) -> (action: ReleaseAction)
        ensures
            action == next_action(old(self).ephemeral(), old(self).pending(), succeeded),
            final(self).pending() == action,
            final(self).ephemeral() == old(self).ephemeral(),
            final(self).request_id() == old(self).request_id(),
            final(self).session_id() == old(self).session_id(),
            final(self).controller() == old(self).controller(),
    {
        let next = match self.pending {
            ReleaseAction::SnapshotTrace => if succeeded {
                ReleaseAction::SaveSession
            } else if self.ephemeral {
                ReleaseAction::Terminate
            } else {
                ReleaseAction::Done
            },
            ReleaseAction::SaveSession => if self.ephemeral {
                ReleaseAction::Terminate
            } else {
                ReleaseAction::Done
            },
            ReleaseAction::Terminate => ReleaseAction::Done,
            ReleaseAction::Done => ReleaseAction::Done,
        };
        self.pending = next;
        next
    }
}

/// The action that is pending once a caller who starts with `pending` has reported all of
/// `outcomes`.
pub open spec fn pending_after(ephemeral: bool, pending: ReleaseAction, outcomes: Seq<bool>)
    -> ReleaseAction
    decreases outcomes.len(),
{
    if outcomes.len() == 0 {
        pending
    } else {
        pending_after(
            ephemeral,
            next_action(ephemeral, pending, outcomes.first()),
            outcomes.drop_first(),
        )
    }
}

/// Whatever the outcomes of its actions, the cleanup after a request is the one that the
/// session policy prescribes, and it is over after three reports at most: one snapshot; one
/// save, where the snapshot succeeded; one termination for an ephemeral session, none for a
/// background session. A failed save neither stops nor changes what follows.
pub proof fn law_cleanup_runs_once(
    ephemeral: bool,
    snapshot_succeeds: bool,
    save_succeeds: bool,
    terminate_succeeds: bool,
)
    ensures
        ({
            let outcomes = seq![snapshot_succeeds, save_succeeds, terminate_succeeds];
            let run = performed(ephemeral, ReleaseAction::SnapshotTrace, outcomes);
            &&& run == cleanup(ephemeral, snapshot_succeeds)
            &&& pending_after(ephemeral, ReleaseAction::SnapshotTrace, outcomes)
                == ReleaseAction::Done
            &&& occurrences(run, ReleaseAction::SnapshotTrace) == 1
            &&& occurrences(run, ReleaseAction::SaveSession) == (if snapshot_succeeds {
                1nat
            } else {
                0nat
            })
            &&& occurrences(run, ReleaseAction::Terminate) == (if ephemeral {
                1nat
            } else {
                0nat
            })
        }),
{
    let outcomes = seq![snapshot_succeeds, save_succeeds, terminate_succeeds];
    let first = ReleaseAction::SnapshotTrace;
    let second = next_action(ephemeral, first, outcomes[0]);
    let rest1 = outcomes.drop_first();
    let third = next_action(ephemeral, second, rest1[0]);
    let rest2 = rest1.drop_first();
    let fourth = next_action(ephemeral, third, rest2[0]);
    let rest3 = rest2.drop_first();
    let run = performed(ephemeral, first, outcomes);
    let run1 = performed(ephemeral, second, rest1);
    let run2 = performed(ephemeral, third, rest2);
    let run3 = performed(ephemeral, fourth, rest3);
    assert(fourth == ReleaseAction::Done);
    assert(run3 =~= Seq::empty());
    assert(run2 =~= if third == ReleaseAction::Done {
        Seq::empty()
    } else {
        seq![third]
    });
    assert(run1 =~= if second == ReleaseAction::Done {
        Seq::empty()
    } else {
        seq![second] + run2
    });
    assert(run =~= seq![first] + run1);
    assert(run =~= cleanup(ephemeral, snapshot_succeeds));
    assert(pending_after(ephemeral, fourth, rest3) == fourth);
    assert(pending_after(ephemeral, third, rest2) == fourth);
    assert(pending_after(ephemeral, second, rest1) == fourth);
    assert(pending_after(ephemeral, first, outcomes) == fourth);
    lemma_occurrences(run, ReleaseAction::SnapshotTrace);
    lemma_occurrences(run, ReleaseAction::SaveSession);
    lemma_occurrences(run, ReleaseAction::Terminate);
}

proof fn lemma_occurrences(actions: Seq<ReleaseAction>, action: ReleaseAction)
    requires
        actions.len() <= 3,
    ensures
        occurrences(actions, action) == (if actions.len() >= 1 && actions[0] == action {
            1nat
        } else {
            0nat
        }) + (if actions.len() >= 2 && actions[1] == action {
            1nat
        } else {
            0nat
        }) + (if actions.len() >= 3 && actions[2] == action {
            1nat
        } else {
            0nat
        }),
    decreases actions.len(),
{
    if actions.len() > 0 {
        let front = actions.drop_last();
        lemma_occurrences(front, action);
        assert(forall|i: int| 0 <= i < front.len() ==> front[i] == actions[i]);
    }
}

} // verus!
