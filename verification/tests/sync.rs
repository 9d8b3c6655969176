use ksupport::basic_mutex::BasicMutex;
use ksupport::interrupts::CoreInterrupts;
use ksupport::kmutex::KSpinFairMutex;
use ksupport::kmutex::KSpinMutex;
use ksupport::spin_mutex::SpinFairMutex;
use ksupport::spin_mutex::SpinMutex;

#[test]
fn unfair_lock_round_trip() {
    let mut m = SpinMutex::new(5u64);
    let mut guard = m.lock();
    assert_eq!(*guard.get(), 5);
    *guard.get_mut() = 6;
    m.unlock(guard);
    let guard = m.lock();
    assert_eq!(*guard.get(), 6);
    m.unlock(guard);
}

#[test]
fn unfair_try_lock_reports_contention() {
    let mut m = SpinMutex::new(1u32);
    let first = m.try_lock();
    assert!(first.is_some());
    // While the guard is live, no second guard can be obtained.
    let second = m.try_lock();
    assert!(second.is_none());
    m.unlock(first.unwrap());
    // Released on the explicit-unlock path: observably free again.
    assert!(m.try_lock().is_some());
}

// A critical section that ends through an early exit still hands its
// guard back; the lock is observably free to the next `try_lock`.
fn add_until(m: &mut SpinMutex<u64>, limit: u64) {
    let mut guard = m.lock();
    if *guard.get() >= limit {
        m.unlock(guard);
        return;
    }
    *guard.get_mut() += 1;
    m.unlock(guard);
}

#[test]
fn release_on_all_paths_frees_the_lock() {
    let mut m = SpinMutex::new(9u64);
    add_until(&mut m, 10); // takes the increment path
    assert!(m.try_lock().is_some_and(|g| *g.get() == 10));
    let mut m = SpinMutex::new(10u64);
    add_until(&mut m, 10); // takes the early-return path
    let probe = m.try_lock();
    assert!(probe.is_some());
    assert_eq!(*probe.unwrap().get(), 10);
}

#[test]
fn fair_lock_round_trip() {
    let mut m = SpinFairMutex::new(7i64);
    assert_eq!(m.issued(), 0);
    assert_eq!(m.served(), 0);
    let guard = m.lock();
    assert_eq!(m.issued(), 1);
    assert_eq!(m.served(), 0);
    m.unlock(guard);
    assert_eq!(m.issued(), 1);
    assert_eq!(m.served(), 1);
}

#[test]
fn fair_try_lock_never_leaks_a_ticket() {
    let mut m = SpinFairMutex::new(0u8);
    let guard = m.try_lock().unwrap();
    let issued_while_held = m.issued();
    // A failed attempt must not advance the issued-ticket counter: a
    // drawn-but-never-served ticket would starve all later waiters.
    assert!(m.try_lock().is_none());
    assert_eq!(m.issued(), issued_while_held);
    assert!(m.try_lock().is_none());
    assert_eq!(m.issued(), issued_while_held);
    m.unlock(guard);
    // After any sequence of calls, the number of successful
    // acquisitions equals the serving counter.
    assert_eq!(m.served(), 1);
}

#[test]
fn fair_lock_two_cores_thousand_rounds() {
    // Two cores each take the lock 1000 times, incrementing a shared
    // counter once per critical section.  The sequential interleaving
    // alternates the cores; the entry order must match ticket order
    // exactly, and the counter must come out at exactly 2000.
    let mut m = SpinFairMutex::new(0u64);
    let mut entry_log: Vec<(usize, usize)> = Vec::new();
    for round in 0..1000usize {
        for core in 0..2usize {
            let expected_ticket = m.served();
            let mut guard = m.lock();
            *guard.get_mut() += 1;
            entry_log.push((core, expected_ticket));
            m.unlock(guard);
            assert_eq!(m.served(), round * 2 + core + 1);
        }
    }
    let final_guard = m.lock();
    assert_eq!(*final_guard.get(), 2000);
    m.unlock(final_guard);
    // Entry order strictly matches ticket order.
    for (i, (core, ticket)) in entry_log.iter().enumerate() {
        assert_eq!(*ticket, i);
        assert_eq!(*core, i % 2);
    }
}

#[test]
fn at_most_one_guard_is_ever_live() {
    // A live-guard counter incremented on acquire and decremented on
    // release never exceeds one.
    let mut m = SpinFairMutex::new(());
    let mut live: i32 = 0;
    for _ in 0..100 {
        let guard = m.lock();
        live += 1;
        assert!(live <= 1);
        // While a guard is live, no further guard can be obtained.
        assert!(m.try_lock().is_none());
        m.unlock(guard);
        live -= 1;
    }
    assert_eq!(live, 0);
}

#[test]
fn interrupt_safe_lock_suspends_and_restores() {
    let mut irq = CoreInterrupts::startup(true);
    let mut m = KSpinMutex::new(3u32);
    let guard = m.lock(&mut irq);
    // Interrupt delivery is suspended for the critical section.
    assert!(!irq.enabled());
    m.unlock(guard, &mut irq);
    // The state found on entry is reinstated on release.
    assert!(irq.enabled());
    let mut m2 = KSpinMutex::new(4u32);
    let g2 = m2.try_lock(&mut irq).unwrap();
    assert!(!irq.enabled());
    m2.unlock(g2, &mut irq);
    assert!(irq.enabled());
    // A failed attempt leaves the interrupt state untouched.
    let g3 = m2.lock(&mut irq);
    assert!(m2.try_lock(&mut irq).is_none());
    assert!(!irq.enabled());
    m2.unlock(g3, &mut irq);
    assert!(irq.enabled());
}

#[test]
fn interrupt_safe_fair_lock_round_trip() {
    let mut irq = CoreInterrupts::startup(true);
    let mut m = KSpinFairMutex::new(11u64);
    let mut guard = m.lock(&mut irq);
    *guard.get_mut() += 1;
    m.unlock(guard, &mut irq);
    let guard = m.try_lock(&mut irq).unwrap();
    assert_eq!(*guard.get(), 12);
    m.unlock(guard, &mut irq);
}

#[test]
fn interrupt_suspension_is_scoped() {
    let mut irq = CoreInterrupts::startup(false);
    // A lock taken with interrupts already suspended restores that
    // state, not an unconditional enable.
    let was = irq.suspend();
    assert!(!was);
    irq.restore(was);
    let mut m = KSpinMutex::new(0u8);
    let guard = m.lock(&mut irq);
    assert!(!irq.enabled());
    m.unlock(guard, &mut irq);
    assert!(!irq.enabled());
}
