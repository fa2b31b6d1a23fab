use rcore_os::coroutine::{Runtime, State, TaskContext, DEFAULT_STACK_SIZE, MAX_TASKS};

#[test]
fn new_runtime_runs_base_task() {
    let rt = Runtime::new();
    assert_eq!(rt.num_tasks(), MAX_TASKS);
    assert_eq!(rt.current_task(), 0);
    assert_eq!(rt.task_state(0), State::Running);
    for i in 1..MAX_TASKS {
        assert_eq!(rt.task_state(i), State::Available);
        assert_eq!(rt.task_id(i), i);
        assert_eq!(rt.task_stack(i).len(), DEFAULT_STACK_SIZE);
        assert!(rt.task_stack(i).iter().all(|b| *b == 0));
        assert_eq!(*rt.context(i), TaskContext::default());
    }
}

#[test]
fn yield_without_ready_task_stays() {
    let mut rt = Runtime::new();
    assert_eq!(rt.t_yield(), None);
    assert_eq!(rt.current_task(), 0);
    assert_eq!(rt.task_state(0), State::Running);
}

#[test]
fn spawn_prepares_first_free_task() {
    let mut rt = Runtime::new();
    assert_eq!(rt.available_task(), Some(1));
    let id = rt.spawn(0xf00, 0x900, 0x10_0003);
    assert_eq!(id, 1);
    assert_eq!(rt.task_state(1), State::Ready);
    let ctx = *rt.context(1);
    assert_eq!(ctx.x1, 0x900);
    assert_eq!(ctx.nx1, 0xf00);
    // end of stack 0x10_1003, aligned down to 0x10_1000, less 32
    assert_eq!(ctx.x2, 0x10_0fe0);
    assert_eq!(rt.available_task(), Some(2));
}

#[test]
fn yield_is_round_robin() {
    let mut rt = Runtime::new();
    rt.spawn(1, 2, 0x1000);
    rt.spawn(1, 2, 0x3000);
    rt.spawn(1, 2, 0x5000);
    assert_eq!(rt.t_yield(), Some((0, 1)));
    assert_eq!(rt.task_state(0), State::Ready);
    assert_eq!(rt.task_state(1), State::Running);
    assert_eq!(rt.current_task(), 1);
    assert_eq!(rt.t_yield(), Some((1, 2)));
    assert_eq!(rt.t_yield(), Some((2, 3)));
    assert_eq!(rt.t_yield(), Some((3, 0)));
    assert_eq!(rt.current_task(), 0);
}

#[test]
fn finished_task_becomes_available() {
    let mut rt = Runtime::new();
    rt.spawn(1, 2, 0x1000);
    rt.spawn(1, 2, 0x3000);
    assert_eq!(rt.t_yield(), Some((0, 1)));
    assert_eq!(rt.t_return(), Some((1, 2)));
    assert_eq!(rt.task_state(1), State::Available);
    assert_eq!(rt.t_return(), Some((2, 0)));
    assert_eq!(rt.task_state(2), State::Available);
    assert_eq!(rt.task_state(0), State::Running);
    // the base task does not finish
    assert_eq!(rt.t_return(), None);
    assert_eq!(rt.t_yield(), None);
    assert_eq!(rt.available_task(), Some(1));
}

#[test]
fn context_mut_changes_only_that_context() {
    let mut rt = Runtime::new();
    rt.context_mut(2).x2 = 0x1234;
    assert_eq!(rt.context(2).x2, 0x1234);
    assert_eq!(*rt.context(1), TaskContext::default());
    assert_eq!(rt.task_state(2), State::Available);
}
