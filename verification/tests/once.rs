use ksupport::interrupts::CoreInterrupts;
use ksupport::konce::KSpinOnceCell;
use ksupport::spin_once::SpinOnceCell;

#[test]
fn set_succeeds_once_then_rejects() {
    let mut cell = SpinOnceCell::uninit();
    assert_eq!(cell.set(5u32), Ok(()));
    // The second `set` returns the offered value unchanged and does not
    // alter the stored value.
    assert_eq!(cell.set(6u32), Err(6));
    assert_eq!(*cell.get(), 5);
    assert_eq!(cell.set(7u32), Err(7));
    assert_eq!(*cell.get(), 5);
}

#[test]
fn take_round_trip() {
    let mut cell = SpinOnceCell::uninit();
    assert_eq!(cell.set(7i64), Ok(()));
    // `take` after a successful `set(v)` yields `Some(v)`.
    assert_eq!(cell.take(), Some(7));
    // A subsequent `take` yields `None`.
    assert_eq!(cell.take(), None);
    // The cell is usable again after a following `set`.
    assert_eq!(cell.set(8i64), Ok(()));
    assert_eq!(*cell.get(), 8);
}

#[test]
fn get_or_init_runs_the_producer_exactly_once() {
    let mut cell = SpinOnceCell::uninit();
    let mut runs: u32 = 0;
    let first = *cell.get_or_init(|| {
        runs += 1;
        42u64
    });
    assert_eq!(first, 42);
    assert_eq!(runs, 1);
    // Against an initialized cell the producer does not run, and every
    // caller observes the same resulting value.
    let second = *cell.get_or_init(|| {
        runs += 1;
        99u64
    });
    assert_eq!(second, 42);
    assert_eq!(runs, 1);
    assert_eq!(*cell.get(), 42);
}

#[test]
fn get_or_init_after_set_keeps_the_first_value() {
    let mut cell = SpinOnceCell::uninit();
    assert_eq!(cell.set(3u8), Ok(()));
    let mut runs: u32 = 0;
    let seen = *cell.get_or_init(|| {
        runs += 1;
        4u8
    });
    assert_eq!(seen, 3);
    assert_eq!(runs, 0);
}

#[test]
fn get_mut_edits_in_place() {
    let mut cell = SpinOnceCell::uninit();
    assert_eq!(cell.set(10u16), Ok(()));
    *cell.get_mut() += 5;
    assert_eq!(*cell.get(), 15);
}

#[test]
fn into_inner_reports_the_state() {
    let mut full = SpinOnceCell::uninit();
    assert_eq!(full.set(1u8), Ok(()));
    assert_eq!(full.into_inner(), Some(1));
    let empty: SpinOnceCell<u8> = SpinOnceCell::uninit();
    assert_eq!(empty.into_inner(), None);
    let defaulted: SpinOnceCell<u8> = SpinOnceCell::default();
    assert_eq!(defaulted.into_inner(), None);
}

#[test]
fn interrupt_safe_cell_restores_interrupt_state() {
    let mut irq = CoreInterrupts::startup(true);
    let mut cell = KSpinOnceCell::uninit();
    assert_eq!(cell.set(5u32, &mut irq), Ok(()));
    assert!(irq.enabled());
    assert_eq!(cell.set(6u32, &mut irq), Err(6));
    assert!(irq.enabled());
    assert_eq!(*cell.get(&mut irq), 5);
    assert!(irq.enabled());
    *cell.get_mut(&mut irq) += 1;
    assert_eq!(*cell.get(&mut irq), 6);
    assert_eq!(cell.take(&mut irq), Some(6));
    assert_eq!(cell.take(&mut irq), None);
    assert!(irq.enabled());
    let mut runs: u32 = 0;
    let v = *cell.get_or_init(
        || {
            runs += 1;
            9u32
        },
        &mut irq,
    );
    assert_eq!(v, 9);
    assert_eq!(runs, 1);
    assert!(irq.enabled());
    assert_eq!(cell.into_inner(), Some(9));
}
