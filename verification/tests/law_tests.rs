use rcore_os::address::{PhysAddr, PhysPageNum, VirtAddr, VirtPageNum};
use rcore_os::console::print;
use rcore_os::msbi::{m_trap_handler, SbiAction, UART_BASE};
use rcore_os::timer::TimerQueue;
use rcore_os::coroutine::{Runtime, State, MAX_TASKS};

#[test]
fn conversions_are_idempotent() {
    for v in [0usize, 1, 0x1234_5678_9abc_def0, usize::MAX, 0xffff_ffc0_0000_1000] {
        let pa = PhysAddr::from(v);
        assert_eq!(PhysAddr::from(pa.0), pa);
        assert!(pa.0 < 1 << 56);
        let va = VirtAddr::from(v);
        assert_eq!(VirtAddr::from(va.0), va);
        assert!(va.0 < 1 << 39);
        let ppn = PhysPageNum::from(v);
        assert_eq!(PhysPageNum::from(ppn.0), ppn);
        let vpn = VirtPageNum::from(v);
        assert_eq!(VirtPageNum::from(vpn.0), vpn);
    }
}

#[test]
fn canonical_addresses_round_trip() {
    for v in [0usize, 0x3f_ffff_ffff, 0xffff_ffc0_0000_0000, usize::MAX, 0xffff_ffff_8020_0000] {
        assert_eq!(usize::from(VirtAddr::from(v)), v);
    }
    // a non-canonical address does not come back
    assert_ne!(usize::from(VirtAddr::from(0x40_0000_0000usize)), 0x40_0000_0000usize);
}

#[test]
fn indexes_rebuild_page_number() {
    for n in [0usize, 1, 511, 512, 0x80201, 0x7ff_ffff] {
        let i = VirtPageNum(n).indexes();
        assert!(i.iter().all(|x| *x < 512));
        assert_eq!(i[0] * 0x4_0000 + i[1] * 512 + i[2], n);
    }
}

#[test]
fn floor_plus_offset_is_address() {
    for a in [0usize, 1, 4095, 4096, 4097, 0x8020_1234] {
        let va = VirtAddr(a);
        assert_eq!(va.floor().0 * 4096 + va.page_offset(), a);
        assert_eq!(va.ceil() == va.floor(), va.aligned());
    }
}

#[test]
fn ascii_print_reaches_uart_byte_for_byte() {
    let s = "Hello, rCore!\n";
    let bytes: Vec<u8> = print(s)
        .iter()
        .map(|k| match m_trap_handler(k.arg0, k.arg1, k.arg2, 0, 0, 0, k.fid, k.eid) {
            SbiAction::PutChar { addr, byte, reply } => {
                assert_eq!(reply.error, 0);
                assert_eq!(addr, UART_BASE);
                byte
            }
            other => panic!("unexpected action {:?}", other),
        })
        .collect();
    assert_eq!(bytes, s.as_bytes());
}

#[test]
fn timers_lose_nothing_and_wake_added_ones() {
    let mut q = TimerQueue::new();
    for (e, t) in [(50usize, 1usize), (10, 2), (40, 3), (10, 4), (70, 5)] {
        q.add_timer(e, t);
    }
    let before = q.len();
    let woken = q.check_timer(40);
    assert_eq!(woken.len() + q.len(), before);
    assert_eq!(woken, vec![2, 4, 3]);
    q.add_timer(45, 6);
    q.remove_timer(1);
    assert_eq!(q.check_timer(60), vec![6]);
}

#[test]
fn at_most_one_task_runs() {
    let mut rt = Runtime::new();
    rt.spawn(1, 2, 0x1000);
    rt.spawn(1, 2, 0x3000);
    for _ in 0..7 {
        rt.t_yield();
        let running: Vec<usize> = (0..MAX_TASKS).filter(|i| rt.task_state(*i) == State::Running).collect();
        assert_eq!(running, vec![rt.current_task()]);
    }
}
