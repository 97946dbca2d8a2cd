use std::sync::atomic::{AtomicU64, Ordering};
use std::sync::Arc;
use tokio_pulse::hooks::{HookRegistry, NullHooks, PreemptionHooks};
use tokio_pulse::tier_manager::{Intervention, PollResult, TaskContext, TaskId};

struct CountingHooks {
    before_poll_calls: AtomicU64,
    after_poll_calls: AtomicU64,
    yield_calls: AtomicU64,
    completion_calls: AtomicU64,
}

impl CountingHooks {
    fn new() -> Self {
        Self {
            before_poll_calls: AtomicU64::new(0),
            after_poll_calls: AtomicU64::new(0),
            yield_calls: AtomicU64::new(0),
            completion_calls: AtomicU64::new(0),
        }
    }
}

struct SharedHooks(Arc<CountingHooks>);

impl PreemptionHooks for SharedHooks {
    fn before_poll_ready(&self, _task_id: TaskId, _context: TaskContext) -> bool {
        true
    }

    fn before_poll_effect(&self, _after: &Self, _task_id: TaskId, _context: TaskContext) -> bool {
        true
    }

    fn after_poll_ready(&self, _task_id: TaskId) -> bool {
        true
    }

    fn after_poll_effect(
        &self,
        _after: &Self,
        _task_id: TaskId,
        _result: PollResult,
        _poll_ns: u128,
        _outcome: Intervention,
    ) -> bool {
        true
    }

    fn ready(&self) -> bool {
        true
    }

    fn on_yield_effect(&self, _after: &Self, _task_id: TaskId) -> bool {
        true
    }

    fn on_completion_effect(&self, _after: &Self, _task_id: TaskId) -> bool {
        true
    }

    fn before_poll(&mut self, _task_id: TaskId, _context: &TaskContext) {
        self.0.before_poll_calls.fetch_add(1, Ordering::Relaxed);
    }

    fn after_poll(
        &mut self,
        _task_id: TaskId,
        _result: PollResult,
        _poll_ns: u128,
    ) -> Intervention {
        self.0.after_poll_calls.fetch_add(1, Ordering::Relaxed);
        Intervention::Warn
    }

    fn on_yield(&mut self, _task_id: TaskId) {
        self.0.yield_calls.fetch_add(1, Ordering::Relaxed);
    }

    fn on_completion(&mut self, _task_id: TaskId) {
        self.0.completion_calls.fetch_add(1, Ordering::Relaxed);
    }
}

#[test]
fn test_null_hooks() {
    let mut hooks = NullHooks;
    let task_id = TaskId(1);
    let context = TaskContext { worker_id: 0, priority: None };

    hooks.before_poll(task_id, &context);
    assert_eq!(hooks.after_poll(task_id, PollResult::Pending, 0), Intervention::Nothing);
    hooks.on_yield(task_id);
    hooks.on_completion(task_id);
}

#[test]
fn test_hook_registry_no_hooks() {
    let mut registry: HookRegistry<NullHooks> = HookRegistry::new();
    assert!(!registry.has_hooks());

    let task_id = TaskId(1);
    let context = TaskContext { worker_id: 0, priority: None };

    registry.before_poll(task_id, &context);
    assert_eq!(registry.after_poll(task_id, PollResult::Ready, 0), Intervention::Nothing);
    registry.on_yield(task_id);
    registry.on_completion(task_id);
    assert!(!registry.has_hooks());
}

#[test]
fn test_hook_registry_with_hooks() {
    let mut registry = HookRegistry::new();
    let hooks = Arc::new(CountingHooks::new());
    let hooks_clone = Arc::clone(&hooks);

    let old = registry.set_hooks(SharedHooks(hooks_clone));
    assert!(old.is_none());
    assert!(registry.has_hooks());

    let task_id = TaskId(1);
    let context = TaskContext { worker_id: 0, priority: None };

    registry.before_poll(task_id, &context);
    assert_eq!(registry.after_poll(task_id, PollResult::Pending, 0), Intervention::Warn);
    registry.on_yield(task_id);
    registry.on_completion(task_id);

    assert_eq!(hooks.before_poll_calls.load(Ordering::Relaxed), 1);
    assert_eq!(hooks.after_poll_calls.load(Ordering::Relaxed), 1);
    assert_eq!(hooks.yield_calls.load(Ordering::Relaxed), 1);
    assert_eq!(hooks.completion_calls.load(Ordering::Relaxed), 1);
}

#[test]
fn test_hook_registry_clear() {
    let mut registry = HookRegistry::new();
    let hooks = Arc::new(CountingHooks::new());

    registry.set_hooks(SharedHooks(hooks));
    assert!(registry.has_hooks());

    let old = registry.clear_hooks();
    assert!(old.is_some());
    assert!(!registry.has_hooks());

    let old2 = registry.clear_hooks();
    assert!(old2.is_none());
}

#[test]
fn test_hook_registry_replace() {
    let mut registry = HookRegistry::default();
    let hooks1 = Arc::new(CountingHooks::new());
    let hooks2 = Arc::new(CountingHooks::new());

    let old = registry.set_hooks(SharedHooks(hooks1.clone()));
    assert!(old.is_none());

    let old = registry.set_hooks(SharedHooks(hooks2.clone()));
    assert!(old.is_some());
    assert!(Arc::ptr_eq(&old.unwrap().0, &hooks1));

    let task_id = TaskId(1);
    let context = TaskContext { worker_id: 0, priority: None };

    registry.before_poll(task_id, &context);
    assert_eq!(hooks1.before_poll_calls.load(Ordering::Relaxed), 0);
    assert_eq!(hooks2.before_poll_calls.load(Ordering::Relaxed), 1);
}

#[test]
fn registry_has_hooks_since_they_were_installed_last() {
    let mut registry = HookRegistry::new();
    let context = TaskContext { worker_id: 0, priority: None };
    registry.clear_hooks();
    assert!(!registry.has_hooks());
    registry.set_hooks(NullHooks);
    registry.clear_hooks();
    registry.set_hooks(NullHooks);
    registry.set_hooks(NullHooks);
    registry.before_poll(TaskId(3), &context);
    registry.on_yield(TaskId(3));
    assert!(registry.has_hooks());
    registry.clear_hooks();
    registry.on_completion(TaskId(3));
    assert!(!registry.has_hooks());
}
