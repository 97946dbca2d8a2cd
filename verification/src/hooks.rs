//! Hooks that a runtime calls around each poll of a task.

use crate::tier_manager::context::{PollResult, TaskContext, TaskId};
use crate::tier_manager::manager::TierManager;
use crate::tier_manager::model::Intervention;
use vstd::prelude::*;

verus! {

/// Preemption hook interface.
///
/// An implementation says when each hook may be called and what it does.
pub trait PreemptionHooks: Sized {
    /// Whether `before_poll` may be called.
    spec fn before_poll_ready(&self, task_id: TaskId, context: TaskContext) -> bool;

    /// What `before_poll` does.
    spec fn before_poll_effect(
        &self,
        after: &Self,
        task_id: TaskId,
        context: TaskContext,
    ) -> bool;

    /// Whether `after_poll` may be called.
    spec fn after_poll_ready(&self, task_id: TaskId) -> bool;

    /// What `after_poll` does and returns.
    spec fn after_poll_effect(
        &self,
        after: &Self,
        task_id: TaskId,
        result: PollResult,
        poll_ns: u128,
        outcome: Intervention,
    ) -> bool;

    /// Whether `on_yield` and `on_completion` may be called.
    spec fn ready(&self) -> bool;

    /// What `on_yield` does.
    spec fn on_yield_effect(&self, after: &Self, task_id: TaskId) -> bool;

    /// What `on_completion` does.
    spec fn on_completion_effect(&self, after: &Self, task_id: TaskId) -> bool;

    /// Called before polling a task.
    fn before_poll(&mut self, task_id: TaskId, context: &TaskContext)
        requires
            old(self).before_poll_ready(task_id, *context),
        ensures
            old(self).before_poll_effect(final(self), task_id, *context),
    ;

    /// Called after polling a task for `poll_ns` nanoseconds. Returns what is to be
    /// done about the task.
    fn after_poll(&mut self, task_id: TaskId, result: PollResult, poll_ns: u128) -> (outcome:
        Intervention)
        requires
            old(self).after_poll_ready(task_id),
        ensures
            old(self).after_poll_effect(final(self), task_id, result, poll_ns, outcome),
    ;

    /// Called when a task voluntarily yields.
    fn on_yield(&mut self, task_id: TaskId)
        requires
            old(self).ready(),
        ensures
            old(self).on_yield_effect(final(self), task_id),
    ;

    /// Called when a task completes.
    fn on_completion(&mut self, task_id: TaskId)
        requires
            old(self).ready(),
        ensures
            old(self).on_completion_effect(final(self), task_id),
    ;
}

/// Hooks that do nothing, for when preemption is disabled.
#[derive(Debug, Clone, Copy)]
pub struct NullHooks;

impl Default for NullHooks {
    fn default() -> (hooks: Self)
        ensures
            hooks == NullHooks,
    {
        NullHooks
    }
}

impl PreemptionHooks for NullHooks {
    open spec fn before_poll_ready(&self, task_id: TaskId, context: TaskContext) -> bool {
        true
    }

    open spec fn before_poll_effect(
        &self,
        after: &Self,
        task_id: TaskId,
        context: TaskContext,
    ) -> bool {
        *after == *self
    }

    open spec fn after_poll_ready(&self, task_id: TaskId) -> bool {
        true
    }

    open spec fn after_poll_effect(
        &self,
        after: &Self,
        task_id: TaskId,
        result: PollResult,
        poll_ns: u128,
        outcome: Intervention,
    ) -> bool {
        *after == *self && outcome == Intervention::Nothing
    }

    open spec fn ready(&self) -> bool {
        true
    }

    open spec fn on_yield_effect(&self, after: &Self, task_id: TaskId) -> bool {
        *after == *self
    }

    open spec fn on_completion_effect(&self, after: &Self, task_id: TaskId) -> bool {
        *after == *self
    }

    fn before_poll(&mut self, _task_id: TaskId, _context: &TaskContext) {
    }

    fn after_poll(&mut self, _task_id: TaskId, _result: PollResult, _poll_ns: u128) -> (outcome:
        Intervention) {
        Intervention::Nothing
    }

    fn on_yield(&mut self, _task_id: TaskId) {
    }

    fn on_completion(&mut self, _task_id: TaskId) {
    }
}

impl PreemptionHooks for TierManager {
    open spec fn before_poll_ready(&self, task_id: TaskId, context: TaskContext) -> bool {
        self.wf() && self@.can_begin(task_id, context)
    }

    open spec fn before_poll_effect(
        &self,
        after: &Self,
        task_id: TaskId,
        context: TaskContext,
    ) -> bool {
        after.wf() && exists|now: u128|
            self.clock_shows(now) && after@ == #[trigger] self@.before_poll(task_id, context, now)
    }

    open spec fn after_poll_ready(&self, task_id: TaskId) -> bool {
        self.wf() && self@.can_end(task_id)
    }

    open spec fn after_poll_effect(
        &self,
        after: &Self,
        task_id: TaskId,
        result: PollResult,
        poll_ns: u128,
        outcome: Intervention,
    ) -> bool {
        after.wf() && exists|now: u128|
            {
                &&& self.clock_shows(now)
                &&& after@ == #[trigger] self@.after_poll(task_id, result, poll_ns, now)
                &&& outcome == self@.intervention(task_id, result, poll_ns, now)
            }
    }

    open spec fn ready(&self) -> bool {
        self.wf()
    }

    open spec fn on_yield_effect(&self, after: &Self, task_id: TaskId) -> bool {
        after.wf() && exists|now: u128|
            self.clock_shows(now) && after@ == #[trigger] self@.on_yield(task_id, now)
    }

    open spec fn on_completion_effect(&self, after: &Self, task_id: TaskId) -> bool {
        after.wf() && after@ == self@.on_completion(task_id)
    }

    fn before_poll(&mut self, task_id: TaskId, context: &TaskContext) {
        TierManager::before_poll(self, task_id, context);
    }

    fn after_poll(&mut self, task_id: TaskId, result: PollResult, poll_ns: u128) -> (outcome:
        Intervention) {
        TierManager::after_poll(self, task_id, result, poll_ns)
    }

    fn on_yield(&mut self, task_id: TaskId) {
        TierManager::on_yield(self, task_id);
    }

    fn on_completion(&mut self, task_id: TaskId) {
        TierManager::on_completion(self, task_id);
    }
}

/// Registry for the hooks in force. Without hooks every call is passed over.
pub struct HookRegistry<H> {
    /// The hooks in force.
    pub hooks: Option<H>,
}

impl<H: PreemptionHooks> HookRegistry<H> {
    /// Creates a registry without hooks.
    #[must_use]
    pub fn new() -> (registry: Self)
        ensures
            registry.hooks is None,
    {
        HookRegistry { hooks: None }
    }

    /// Installs hooks. Returns those that were in force.
    pub fn set_hooks(&mut self, hooks: H) -> (previous: Option<H>)
        ensures
            previous == old(self).hooks,
            final(self).hooks == Some(hooks),
    {
        let previous = self.hooks.take();
        self.hooks = Some(hooks);
        previous
    }

    /// Removes the hooks and returns them.
    pub fn clear_hooks(&mut self) -> (previous: Option<H>)
        ensures
            previous == old(self).hooks,
            final(self).hooks is None,
    {
        self.hooks.take()
    }

    /// Calls `before_poll` of the hooks in force.
    pub fn before_poll(&mut self, task_id: TaskId, context: &TaskContext)
        requires
            old(self).hooks matches Some(hooks) ==> hooks.before_poll_ready(task_id, *context),
        ensures
            match old(self).hooks {
                Some(before) => final(self).hooks matches Some(after) && before.before_poll_effect(
                    &after,
                    task_id,
                    *context,
                ),
                None => final(self).hooks is None,
            },
    {
        if let Some(hooks) = &mut self.hooks {
            hooks.before_poll(task_id, context);
        }
    }

    /// Calls `after_poll` of the hooks in force.
    pub fn after_poll(&mut self, task_id: TaskId, result: PollResult, poll_ns: u128) -> (outcome:
        Intervention)
        requires
            old(self).hooks matches Some(hooks) ==> hooks.after_poll_ready(task_id),
        ensures
            match old(self).hooks {
                Some(before) => final(self).hooks matches Some(after) && before.after_poll_effect(
                    &after,
                    task_id,
                    result,
                    poll_ns,
                    outcome,
                ),
                None => final(self).hooks is None && outcome == Intervention::Nothing,
            },
    {
        match &mut self.hooks {
            Some(hooks) => hooks.after_poll(task_id, result, poll_ns),
            None => Intervention::Nothing,
        }
    }

    /// Calls `on_yield` of the hooks in force.
    pub fn on_yield(&mut self, task_id: TaskId)
        requires
            old(self).hooks matches Some(hooks) ==> hooks.ready(),
        ensures
            match old(self).hooks {
                Some(before) => final(self).hooks matches Some(after) && before.on_yield_effect(
                    &after,
                    task_id,
                ),
                None => final(self).hooks is None,
            },
    {
        if let Some(hooks) = &mut self.hooks {
            hooks.on_yield(task_id);
        }
    }

    /// Calls `on_completion` of the hooks in force.
    pub fn on_completion(&mut self, task_id: TaskId)
        requires
            old(self).hooks matches Some(hooks) ==> hooks.ready(),
        ensures
            match old(self).hooks {
                Some(before) => final(self).hooks matches Some(after)
                    && before.on_completion_effect(&after, task_id),
                None => final(self).hooks is None,
            },
    {
        if let Some(hooks) = &mut self.hooks {
            hooks.on_completion(task_id);
        }
    }

    /// Whether hooks are installed.
    pub fn has_hooks(&self) -> (installed: bool)
        ensures
            installed == (self.hooks is Some),
    {
        self.hooks.is_some()
    }
}

impl<H: PreemptionHooks> Default for HookRegistry<H> {
    fn default() -> (registry: Self)
        ensures
            registry.hooks is None,
    {
        HookRegistry::new()
    }
}

/// A call that a registry is given.
pub enum RegistryCall<H> {
    /// Hooks are installed.
    SetHooks(H),
    /// The hooks are removed.
    ClearHooks,
    /// The hooks in force are called, which leaves them in this state.
    Dispatch(H),
}

/// The hooks of a registry after these calls, each as the contract of its method
/// says, beginning with a new registry.
pub open spec fn hooks_after<H>(calls: Seq<RegistryCall<H>>) -> Option<H>
    decreases calls.len(),
{
    if calls.len() == 0 {
        None
    } else {
        let before = hooks_after(calls.drop_last());
        match calls.last() {
            RegistryCall::SetHooks(hooks) => Some(hooks),
            RegistryCall::ClearHooks => None,
            RegistryCall::Dispatch(hooks) => if before is Some {
                Some(hooks)
            } else {
                None
            },
        }
    }
}

/// Whether the last of these calls that installs or removes hooks installs them.
pub open spec fn last_installed<H>(calls: Seq<RegistryCall<H>>) -> bool {
    exists|i: int|
        {
            &&& 0 <= i < calls.len()
            &&& #[trigger] calls[i] is SetHooks
            &&& forall|j: int| i < j < calls.len() ==> !(#[trigger] calls[j] is ClearHooks)
        }
}

/// A registry has hooks exactly when they were installed and not removed since:
/// after any sequence of calls, if the last one that installs or removes hooks
/// installed them.
pub proof fn registry_has_what_was_installed_last<H>(calls: Seq<RegistryCall<H>>)
    ensures
        hooks_after(calls) is Some <==> last_installed(calls),
    decreases calls.len(),
{
    if calls.len() > 0 {
        let earlier = calls.drop_last();
        registry_has_what_was_installed_last(earlier);
        let end = calls.len() - 1;
        if calls[end] is SetHooks {
            assert(last_installed(calls));
        } else if calls[end] is ClearHooks {
            assert(!last_installed(calls));
        } else {
            if last_installed(earlier) {
                let i = choose|i: int|
                    {
                        &&& 0 <= i < earlier.len()
                        &&& #[trigger] earlier[i] is SetHooks
                        &&& forall|j: int|
                            i < j < earlier.len() ==> !(#[trigger] earlier[j] is ClearHooks)
                    };
                assert(calls[i] is SetHooks);
                assert forall|j: int| i < j < calls.len() implies !(
                #[trigger] calls[j] is ClearHooks) by {
                    if j < end {
                        assert(earlier[j] == calls[j]);
                    }
                }
            }
            if last_installed(calls) {
                let i = choose|i: int|
                    {
                        &&& 0 <= i < calls.len()
                        &&& #[trigger] calls[i] is SetHooks
                        &&& forall|j: int|
                            i < j < calls.len() ==> !(#[trigger] calls[j] is ClearHooks)
                    };
                assert(earlier[i] is SetHooks);
                assert forall|j: int| i < j < earlier.len() implies !(
                #[trigger] earlier[j] is ClearHooks) by {
                    assert(earlier[j] == calls[j]);
                }
            }
        }
    }
}

/// Hooks that do nothing change nothing and ask for nothing.
pub proof fn null_hooks_do_nothing(
    before: NullHooks,
    after: NullHooks,
    task_id: TaskId,
    result: PollResult,
    poll_ns: u128,
    outcome: Intervention,
)
    requires
        before.after_poll_effect(&after, task_id, result, poll_ns, outcome),
    ensures
        outcome == Intervention::Nothing,
        after == before,
{
}

/// A tier manager as hooks does what it does when it is called itself, at a time that
/// its own clock showed.
pub proof fn manager_hooks_are_the_manager(
    before: TierManager,
    after: TierManager,
    task_id: TaskId,
    context: TaskContext,
    result: PollResult,
    poll_ns: u128,
    outcome: Intervention,
)
    ensures
        before.before_poll_effect(&after, task_id, context) ==> exists|now: u128|
            before@.clock.shows(now) && after@ == #[trigger] before@.before_poll(
                task_id,
                context,
                now,
            ),
        before.after_poll_effect(&after, task_id, result, poll_ns, outcome) ==> exists|now: u128|
            {
                &&& before@.clock.shows(now)
                &&& after@ == #[trigger] before@.after_poll(task_id, result, poll_ns, now)
                &&& outcome == before@.intervention(task_id, result, poll_ns, now)
            },
        before.on_yield_effect(&after, task_id) ==> exists|now: u128|
            before@.clock.shows(now) && after@ == #[trigger] before@.on_yield(task_id, now),
        before.on_completion_effect(&after, task_id) ==> after@ == before@.on_completion(task_id),
{
}

} // verus!
