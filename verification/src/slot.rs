//! The slot that owns the running backend, and the one way out of it.
//!
//! A slot is born either holding a child or vacant, and the only change it
//! knows is `shutdown`, which empties it. So a slot never holds a second
//! child, and once empty it stays empty.
//!
//! A host that shares the slot between several shutdown paths guards it with
//! a lock, calls `shutdown` under the lock, and carries out the action it is
//! handed after letting the lock go. The lock puts the calls in some order,
//! one after the other; the laws below hold of every such order.

use vstd::prelude::*;

verus! {

/// What the caller of `shutdown` has to do.
#[derive(Debug, PartialEq, Eq)]
pub enum ShutdownAction<C> {
    /// Signal this child to terminate, then wait until it has exited.
    Terminate(C),
    /// Nothing: the backend is not running. It never was, or another caller
    /// has taken it already.
    Nothing,
}

/// The place of the backend's process handle: a child while the backend runs,
/// nothing before a launch or after shutdown.
#[derive(Debug)]
pub struct BackendSlot<C> {
    child: Option<C>,
}

impl<C> View for BackendSlot<C> {
    type V = Option<C>;

    closed spec fn view(&self) -> Option<C> {
        self.child
    }
}

/// The action that emptying a slot with this content hands out.
pub open spec fn action_for<C>(content: Option<C>) -> ShutdownAction<C> {
    match content {
        Some(child) => ShutdownAction::Terminate(child),
        None => ShutdownAction::Nothing,
    }
}

/// The shutdown transition on a slot's content: what the slot holds
/// afterwards, and the action handed out.
pub open spec fn shut<C>(content: Option<C>) -> (Option<C>, ShutdownAction<C>) {
    (None, action_for(content))
}

/// The actions that `n` shutdowns, one after the other, hand out on a slot
/// that starts with this content.
pub open spec fn actions_of<C>(content: Option<C>, n: nat) -> Seq<ShutdownAction<C>>
    decreases n,
{
    if n == 0 {
        Seq::empty()
    } else {
        seq![shut(content).1] + actions_of(shut(content).0, (n - 1) as nat)
    }
}

/// How many of these actions ask for a termination.
pub open spec fn terminations<C>(actions: Seq<ShutdownAction<C>>) -> nat
    decreases actions.len(),
{
    if actions.len() == 0 {
        0
    } else if actions.last() is Terminate {
        terminations(actions.drop_last()) + 1
    } else {
        terminations(actions.drop_last())
    }
}

impl<C> BackendSlot<C> {
    /// A slot without a backend, as after a launch that failed.
    pub fn vacant() -> (slot: Self)
        ensures
            slot@ is None,
    {
        BackendSlot { child: None }
    }

    /// A slot that owns a running backend.
    pub fn holding(child: C) -> (slot: Self)
        ensures
            slot@ == Some(child),
    {
        BackendSlot { child: Some(child) }
    }

    /// Whether the slot holds a child.
    pub fn is_running(&self) -> (running: bool)
        ensures
            running == (self@ is Some),
    {
        self.child.is_some()
    }

    /// The shutdown transition: empties the slot and hands its child, if
    /// there was one, to the caller for termination. On an empty slot it
    /// changes nothing and asks for nothing.
    pub fn shutdown(&mut self) -> (action: ShutdownAction<C>)
        ensures
            (final(self)@, action) == shut(old(self)@),
    {
        match self.child.take() {
            Some(child) => ShutdownAction::Terminate(child),
            None => ShutdownAction::Nothing,
        }
    }
}

/// A second shutdown is a no-op. Whatever the slot held, two shutdowns in a
/// row hand out the action for that content and then nothing; and a
/// termination is asked for only of a slot that held a child, and then for
/// that child.
pub proof fn shutdown_is_idempotent<C>(content: Option<C>)
    ensures
        actions_of(content, 2) == seq![action_for(content), ShutdownAction::Nothing],
        shut(shut(content).0) == (None::<C>, ShutdownAction::<C>::Nothing),
        action_for(content) is Terminate <==> content is Some,
        content matches Some(child) ==> action_for(content) == ShutdownAction::Terminate(child),
{
    reveal_with_fuel(actions_of, 3);
}

/// Of any number of shutdowns the first alone can have anything to do: every
/// later one finds the slot empty and is handed nothing.
pub proof fn later_shutdowns_do_nothing<C>(content: Option<C>, n: nat, i: int)
    requires
        0 <= i < n,
    ensures
        actions_of(content, n).len() == n,
        actions_of(content, n)[i] == if i == 0 {
            action_for(content)
        } else {
            ShutdownAction::Nothing
        },
    decreases n,
{
    actions_have_length(content, n);
    if i > 0 {
        actions_have_length::<C>(None, (n - 1) as nat);
        later_shutdowns_do_nothing::<C>(None, (n - 1) as nat, i - 1);
    }
}

/// However many shutdown paths fire, and in whatever order they reach the
/// slot, the child is handed out for termination exactly once if the backend
/// was running and at least one path fired, and never otherwise.
pub proof fn child_is_terminated_once<C>(content: Option<C>, n: nat)
    ensures
        terminations(actions_of(content, n)) == if content is Some && n >= 1 {
            1nat
        } else {
            0nat
        },
    decreases n,
{
    if n > 0 {
        empty_slot_terminates_nothing::<C>((n - 1) as nat);
        terminations_after_first(action_for(content), actions_of::<C>(None, (n - 1) as nat));
    }
}

proof fn actions_have_length<C>(content: Option<C>, n: nat)
    ensures
        actions_of(content, n).len() == n,
    decreases n,
{
    if n > 0 {
        actions_have_length::<C>(None, (n - 1) as nat);
    }
}

proof fn empty_slot_terminates_nothing<C>(n: nat)
    ensures
        terminations(actions_of::<C>(None, n)) == 0,
    decreases n,
{
    if n > 0 {
        empty_slot_terminates_nothing::<C>((n - 1) as nat);
        terminations_after_first(action_for::<C>(None), actions_of::<C>(None, (n - 1) as nat));
    }
}

proof fn terminations_after_first<C>(first: ShutdownAction<C>, rest: Seq<ShutdownAction<C>>)
    ensures
        terminations(seq![first] + rest) == terminations(rest) + if first is Terminate {
            1nat
        } else {
            0nat
        },
    decreases rest.len(),
{
    let all = seq![first] + rest;
    if rest.len() == 0 {
        assert(all.drop_last() =~= Seq::<ShutdownAction<C>>::empty());
        assert(terminations(all.drop_last()) == 0);
    } else {
        assert(all.drop_last() =~= seq![first] + rest.drop_last());
        terminations_after_first(first, rest.drop_last());
    }
}

} // verus!
