use libmodem_bringup::{
    check_and_fix_calibration, NvmRegister, NvmcStep, Uicr, UICR_HFXOCNT, UICR_HFXOSRC,
};

fn uicr(src: u32, cnt: u32) -> Uicr {
    Uicr { hfxosrc: NvmRegister { word: src }, hfxocnt: NvmRegister { word: cnt } }
}

#[test]
fn bad_source_is_rewritten_to_zero() {
    let mut u = uicr(0xFFFF_FFFF, 0xFFFF_FF20);
    let r = check_and_fix_calibration(&mut u);
    assert!(r.needs_reset);
    assert_eq!(r.writes.len(), 1);
    assert_eq!(r.writes[0].address, UICR_HFXOSRC);
    assert_eq!(r.writes[0].steps[2], NvmcStep::Program(0));
    assert_eq!(u.hfxosrc.word, 0);
    assert_eq!(u.hfxocnt.word, 0xFFFF_FF20);
}

#[test]
fn good_fields_need_no_write() {
    let mut u = uicr(0, 32);
    let r = check_and_fix_calibration(&mut u);
    assert!(!r.needs_reset);
    assert!(r.writes.is_empty());
    assert_eq!(u.hfxosrc.word, 0);
    assert_eq!(u.hfxocnt.word, 32);
}

#[test]
fn bad_count_is_rewritten_to_32() {
    let mut u = uicr(0xFFFF_FFFE, 0xFFFF_FFFF);
    let r = check_and_fix_calibration(&mut u);
    assert!(r.needs_reset);
    assert_eq!(r.writes.len(), 1);
    assert_eq!(r.writes[0].address, UICR_HFXOCNT);
    assert_eq!(r.writes[0].steps[2], NvmcStep::Program(32));
    assert_eq!(u.hfxocnt.word, 32);
    assert_eq!(u.hfxosrc.word, 0xFFFF_FFFE);
}

#[test]
fn both_fields_bad() {
    let mut u = uicr(0xFFFF_FFFF, 0xFFFF_FFFF);
    let r = check_and_fix_calibration(&mut u);
    assert!(r.needs_reset);
    assert_eq!(r.writes.len(), 2);
    assert_eq!(r.writes[0].address, UICR_HFXOSRC);
    assert_eq!(r.writes[1].address, UICR_HFXOCNT);
    assert_eq!(r.writes[1].steps.len(), 7);
    assert_eq!((u.hfxosrc.word, u.hfxocnt.word), (0, 32));
}

#[test]
fn only_the_field_bits_are_compared() {
    // Count field 0x10 with other bits set, source field 0 with other bits set.
    let mut u = uicr(0xFFFF_FFFE, 0xFFFF_FF10);
    let r = check_and_fix_calibration(&mut u);
    assert!(!r.needs_reset);
    assert!(r.writes.is_empty());
    assert_eq!((u.hfxosrc.word, u.hfxocnt.word), (0xFFFF_FFFE, 0xFFFF_FF10));
}
