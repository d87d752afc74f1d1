//! What one stage works with: the program under test and the stage's own
//! stack of teardown actions.

use vstd::prelude::*;

use crate::executable::Executable;

verus! {

/// The executable of the run together with the teardown actions that the
/// stage has registered so far, oldest first.
///
/// `A` is whatever the driver can invoke as a teardown action. The harness
/// orders the actions and hands each out once; it never invokes one.
pub struct Harness<P, A> {
    executable: Executable<P>,
    teardown_funcs: Vec<A>,
}

/// What a [`Harness`] holds.
pub struct HarnessView<P, A> {
    /// The executable that the harness was made with.
    pub executable: Executable<P>,
    /// The teardown actions that are registered, oldest first.
    pub teardowns: Seq<A>,
}

impl<P, A> View for Harness<P, A> {
    type V = HarnessView<P, A>;

    closed spec fn view(&self) -> HarnessView<P, A> {
        HarnessView { executable: self.executable, teardowns: self.teardown_funcs@ }
    }
}

impl<P, A> Harness<P, A> {
    /// A harness for `executable` with no teardown action registered.
    pub fn new(executable: Executable<P>) -> (harness: Harness<P, A>)
        ensures
            harness@.executable == executable,
            harness@.teardowns == Seq::<A>::empty(),
    {
        Harness { executable, teardown_funcs: Vec::new() }
    }

    /// Registers `teardown_func` to run once the stage has concluded, before
    /// every action registered earlier.
    pub fn register_teardown_func(&mut self, teardown_func: A)
        ensures
            final(self)@.teardowns == old(self)@.teardowns.push(teardown_func),
            final(self)@.executable == old(self)@.executable,
    {
        self.teardown_funcs.push(teardown_func);
    }

    /// Takes every registered teardown action off the stack and returns them
    /// in the order in which they are to run: newest first. Each action is
    /// handed out in exactly one call, since the stack is empty afterwards.
    pub fn run_teardown_funcs(&mut self) -> (schedule: Vec<A>)
        ensures
            schedule@ == teardown_schedule(old(self)@.teardowns),
            final(self)@.teardowns == Seq::<A>::empty(),
            final(self)@.executable == old(self)@.executable,
    {
        let ghost registered: Seq<A> = self.teardown_funcs@;
        let mut schedule: Vec<A> = Vec::new();
        while self.teardown_funcs.len() > 0
            invariant
                self.executable == old(self).executable,
                self.teardown_funcs@.len() + schedule@.len() == registered.len(),
                self.teardown_funcs@ == registered.take(self.teardown_funcs@.len() as int),
                forall|i: int|
                    0 <= i < schedule@.len() ==> #[trigger] schedule@[i] == registered[
                        registered.len() - 1 - i
                    ],
            decreases self.teardown_funcs@.len(),
        {
            let newest: Option<A> = self.teardown_funcs.pop();
            if let Some(action) = newest {
                schedule.push(action);
            }
        }
        schedule
    }

    /// The executable of the run.
    pub fn executable(&self) -> (executable: &Executable<P>)
        ensures
            *executable == self@.executable,
    {
        &self.executable
    }
}

impl<P: Clone, A> Harness<P, A> {
    /// A second value for the executable of the run, which shares its
    /// process.
    pub fn new_executable(&self) -> (copy: Executable<P>)
        ensures
            call_ensures(Executable::<P>::clone, (&self@.executable,), copy),
    {
        self.executable.clone()
    }
}

/// The order in which the actions of `stack` (oldest first) are to run:
/// newest first.
pub open spec fn teardown_schedule<A>(stack: Seq<A>) -> Seq<A> {
    stack.reverse()
}

/// Teardown is last in, first out: an empty stack schedules nothing, and the
/// action registered last runs first, followed by the schedule of the stack
/// as it was before.
pub proof fn law_teardown_is_last_in_first_out<A>(stack: Seq<A>, action: A)
    ensures
        teardown_schedule(Seq::<A>::empty()) == Seq::<A>::empty(),
        teardown_schedule(stack.push(action)) == seq![action] + teardown_schedule(stack),
{
}

/// Every registered action runs exactly once: the schedule holds each action
/// as often as it was registered, no more and no less.
pub proof fn law_teardown_runs_each_action_once<A>(stack: Seq<A>)
    ensures
        teardown_schedule(stack).len() == stack.len(),
        teardown_schedule(stack).to_multiset() == stack.to_multiset(),
{
    stack.lemma_reverse_to_multiset();
}

} // verus!
