use rcore_os::timer::{combine_time_halves, get_time_ms, get_time_us, set_next_trigger, TimerCondVar, TimerQueue};

#[test]
fn time_conversions() {
    assert_eq!(get_time_ms(12_500_000), 1000);
    assert_eq!(get_time_ms(12_499), 0);
    assert_eq!(get_time_us(12), 0);
    assert_eq!(get_time_us(13), 1);
    assert_eq!(get_time_us(25), 2);
    assert_eq!(get_time_us(12_500_000), 1_000_000);
    assert_eq!(get_time_us(u64::MAX), (u64::MAX as u128 * 1_000_000 / 12_500_000) as u64);
    assert_eq!(set_next_trigger(0), 125_000);
    assert_eq!(set_next_trigger(1_000), 126_000);
}

fn contents(q: &TimerQueue) -> Vec<TimerCondVar> {
    (0..q.len()).map(|i| q.get(i)).collect()
}

#[test]
fn timers_are_kept_in_expiry_order() {
    let mut q = TimerQueue::new();
    q.add_timer(30, 1);
    q.add_timer(10, 2);
    q.add_timer(20, 3);
    q.add_timer(10, 4);
    let expires: Vec<usize> = contents(&q).iter().map(|t| t.expire_ms).collect();
    assert_eq!(expires, vec![10, 10, 20, 30]);
    let tasks: Vec<usize> = contents(&q).iter().map(|t| t.task).collect();
    assert_eq!(tasks, vec![2, 4, 3, 1]);
}

#[test]
fn check_wakes_expired_timers_only() {
    let mut q = TimerQueue::new();
    q.add_timer(30, 1);
    q.add_timer(10, 2);
    q.add_timer(20, 3);
    assert_eq!(q.check_timer(5), Vec::<usize>::new());
    assert_eq!(q.len(), 3);
    assert_eq!(q.check_timer(20), vec![2, 3]);
    assert_eq!(q.len(), 1);
    assert_eq!(q.check_timer(100), vec![1]);
    assert_eq!(q.len(), 0);
}

#[test]
fn remove_drops_every_timer_of_a_task() {
    let mut q = TimerQueue::new();
    q.add_timer(5, 7);
    q.add_timer(6, 8);
    q.add_timer(9, 7);
    q.remove_timer(7);
    let left: Vec<(usize, usize)> = contents(&q).iter().map(|t| (t.expire_ms, t.task)).collect();
    assert_eq!(left, vec![(6, 8)]);
    assert_eq!(q.check_timer(100), vec![8]);
    q.remove_timer(3);
    assert_eq!(q.len(), 0);
}

#[test]
fn timer_equality_is_by_expiry() {
    assert_eq!(TimerCondVar { expire_ms: 5, task: 1 }, TimerCondVar { expire_ms: 5, task: 2 });
    assert_ne!(TimerCondVar { expire_ms: 5, task: 1 }, TimerCondVar { expire_ms: 6, task: 1 });
}

#[test]
fn time_halves_combine_only_when_stable() {
    assert_eq!(combine_time_halves(1, 2, 1), Some(0x1_0000_0002));
    assert_eq!(combine_time_halves(0xffff_ffff, 0xffff_ffff, 0xffff_ffff), Some(u64::MAX));
    assert_eq!(combine_time_halves(1, 0xffff_ffff, 2), None);
}
