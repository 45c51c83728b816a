use std::cell::Cell;

use libryzenadj::curve::{coall_value, coper_value, CO_BASE};
use libryzenadj::{RyzenAdj, RyzenAdjError, RyzenFamily};

fn open(status: i32) -> RyzenAdj<u32> {
    RyzenAdj::new(|| Some(7u32), |_h: &u32| status).unwrap()
}

#[test]
fn new_records_failed_table_init() {
    let s = open(-3);
    assert_eq!(s.is_init_table(), Err(RyzenAdjError::InitTableError(-3)));
    let ok = open(0);
    assert_eq!(ok.is_init_table(), Ok(()));
}

#[test]
fn new_runs_table_init_on_the_acquired_handle() {
    let seen = Cell::new(0u32);
    let s = RyzenAdj::new(|| Some(42u32), |h: &u32| {
        seen.set(*h);
        0
    });
    assert!(s.is_ok());
    assert_eq!(seen.get(), 42);
}

#[test]
fn new_null_handle_is_init_error_without_table_init() {
    let called = Cell::new(false);
    let s = RyzenAdj::<u32>::new(|| None, |_h: &u32| {
        called.set(true);
        0
    });
    assert!(matches!(s, Err(RyzenAdjError::InitError { .. })));
    assert!(!called.get());
}

#[test]
fn close_releases_handle_once() {
    let released = Cell::new(0u32);
    let last = Cell::new(0u32);
    let s = open(0);
    s.close(|h: u32| {
        released.set(released.get() + 1);
        last.set(h);
    });
    assert_eq!(released.get(), 1);
    assert_eq!(last.get(), 7);
}

#[test]
fn close_releases_handle_after_failed_table_init() {
    let released = Cell::new(0u32);
    let s = open(-1);
    let _ = s.read_value(|_h: &u32| 0);
    s.close(|_h: u32| released.set(released.get() + 1));
    assert_eq!(released.get(), 1);
}

#[test]
fn blocked_session_refuses_reads_without_native_call() {
    let s = open(-7);
    let called = Cell::new(false);
    let r = s.read_value(|_h: &u32| {
        called.set(true);
        1.5f32.to_bits()
    });
    assert_eq!(r, Err(RyzenAdjError::InitTableError(-7)));
    let v = s.get_bios_if_ver(|_h: &u32| {
        called.set(true);
        3
    });
    assert_eq!(v, Err(RyzenAdjError::InitTableError(-7)));
    let f = s.get_cpu_family(|_h: &u32| {
        called.set(true);
        2
    });
    assert_eq!(f, Err(RyzenAdjError::InitTableError(-7)));
    assert!(!called.get());
}

#[test]
fn blocked_session_still_writes() {
    let s = open(-7);
    let calls = Cell::new(0u32);
    let w = s.write_value(|_h: &u32| {
        calls.set(calls.get() + 1);
        0
    });
    assert_eq!(w, Ok(()));
    let w = s.write_value(|_h: &u32| {
        calls.set(calls.get() + 1);
        -4
    });
    assert_eq!(w, Err(RyzenAdjError::AdjSmuRejected));
    let w = s.set_coall(-10, |_h: &u32, _v: u32| {
        calls.set(calls.get() + 1);
        0
    });
    assert_eq!(w, Ok(()));
    assert_eq!(calls.get(), 3);
}

#[test]
fn refresh_after_failed_init_keeps_reads_blocked() {
    let mut s = open(-2);
    let called = Cell::new(false);
    let r = s.refresh(|_h: &u32| {
        called.set(true);
        0
    });
    assert_eq!(r, Err(RyzenAdjError::InitTableError(-2)));
    assert!(!called.get());
    assert_eq!(s.read_value(|_h: &u32| 2.0f32.to_bits()), Err(RyzenAdjError::InitTableError(-2)));
}

#[test]
fn refresh_success_leaves_reads_available() {
    let mut s = open(0);
    assert_eq!(s.refresh(|_h: &u32| 0), Ok(()));
    let r = s.read_value(|_h: &u32| 12.5f32.to_bits());
    assert_eq!(r.map(f32::from_bits), Ok(12.5f32));
}

#[test]
fn refresh_failure_reports_status() {
    let mut s = open(0);
    assert_eq!(s.refresh(|_h: &u32| -9), Err(RyzenAdjError::InitTableError(-9)));
}

#[test]
fn read_passes_value_through_unchanged() {
    let s = open(0);
    let r = s.read_value(|h: &u32| (*h as f32 * 3.25f32).to_bits());
    assert_eq!(r.map(f32::from_bits), Ok(22.75f32));
    let neg = s.read_value(|_h: &u32| (-0.5f32).to_bits());
    assert_eq!(neg.map(f32::from_bits), Ok(-0.5f32));
    let inf = s.read_value(|_h: &u32| f32::INFINITY.to_bits());
    assert_eq!(inf.map(f32::from_bits), Ok(f32::INFINITY));
}

#[test]
fn nan_reading_is_refused() {
    let s = open(0);
    assert_eq!(s.read_value(|_h: &u32| f32::NAN.to_bits()), Err(RyzenAdjError::GetNaN));
    assert_eq!(s.read_value(|_h: &u32| 0xffc0_0001u32), Err(RyzenAdjError::GetNaN));
    assert_eq!(s.read_value(|_h: &u32| 0x7f80_0001u32), Err(RyzenAdjError::GetNaN));
}

#[test]
fn bios_version_is_returned_unchanged() {
    let s = open(0);
    assert_eq!(s.get_bios_if_ver(|_h: &u32| 0x41), Ok(0x41));
}

#[test]
fn known_family_is_mapped() {
    let s = open(0);
    assert_eq!(s.get_cpu_family(|_h: &u32| 0), Ok(RyzenFamily::Raven));
    assert_eq!(s.get_cpu_family(|_h: &u32| 2), Ok(RyzenFamily::Renoir));
    assert_eq!(s.get_cpu_family(|_h: &u32| 7), Ok(RyzenFamily::Rembrandt));
    assert_eq!(s.get_cpu_family(|_h: &u32| -1), Ok(RyzenFamily::Unknow));
}

#[test]
fn unknown_family_carries_raw_identifier() {
    let s = open(0);
    assert_eq!(s.get_cpu_family(|_h: &u32| 99), Err(RyzenAdjError::UnknowFamily(99)));
    assert_eq!(s.get_cpu_family(|_h: &u32| -2), Err(RyzenAdjError::UnknowFamily(-2)));
    assert_eq!(s.get_cpu_family(|_h: &u32| 8), Err(RyzenAdjError::UnknowFamily(8)));
}

#[test]
fn coall_bounds_are_inclusive() {
    let s = open(0);
    let sent = Cell::new(0u32);
    assert_eq!(s.set_coall(30, |_h: &u32, v: u32| {
        sent.set(v);
        0
    }), Ok(()));
    assert_eq!(sent.get(), 0x100000 - 30);
    assert_eq!(s.set_coall(-30, |_h: &u32, v: u32| {
        sent.set(v);
        0
    }), Ok(()));
    assert_eq!(sent.get(), 0x100000 + 30);
}

#[test]
fn coall_out_of_range_makes_no_call() {
    let s = open(0);
    let called = Cell::new(false);
    for value in [-31, 31, i32::MIN, i32::MAX] {
        let r = s.set_coall(value, |_h: &u32, _v: u32| {
            called.set(true);
            0
        });
        assert_eq!(r, Err(RyzenAdjError::AdjValueOutOfRange));
    }
    assert!(!called.get());
}

#[test]
fn coper_core_two_offset_minus_five() {
    let s = open(0);
    let sent = Cell::new(0u32);
    let r = s.set_coper(2, -5, |_h: &u32, v: u32| {
        sent.set(v);
        0
    });
    assert_eq!(r, Ok(()));
    assert_eq!(sent.get(), 2 * 0x100000 + (0x100000 + 5));
}

#[test]
fn coper_out_of_range_makes_no_call() {
    let s = open(0);
    let called = Cell::new(false);
    for value in [-31, 31] {
        let r = s.set_coper(1, value, |_h: &u32, _v: u32| {
            called.set(true);
            0
        });
        assert_eq!(r, Err(RyzenAdjError::AdjValueOutOfRange));
    }
    assert!(!called.get());
    assert_eq!(s.set_coper(0, 30, |_h: &u32, _v: u32| -5), Err(RyzenAdjError::AdjMemoryAccessError));
}

#[test]
fn curve_encodings() {
    assert_eq!(coall_value(0), Ok(CO_BASE));
    assert_eq!(coall_value(30), Ok(0x100000 - 30));
    assert_eq!(coall_value(-31), Err(RyzenAdjError::AdjValueOutOfRange));
    assert_eq!(coper_value(0, 5), Ok(0x100000 - 5));
    assert_eq!(coper_value(3, -10), Ok(3 * 0x100000 + 0x100000 + 10));
    assert_eq!(coper_value(4094, -30), Ok(4094 * 0x100000 + 0x100000 + 30));
    assert_eq!(coper_value(2, 31), Err(RyzenAdjError::AdjValueOutOfRange));
}
