//! Cache maintenance by address.

use imxrt_usbh::cache::{
    clean_invalidate_dcache_by_address, invalidate_dcache_by_address, CacheOp, LINESIZE,
};
use imxrt_usbh::vcell::VCell;

#[test]
fn no_bytes_need_no_maintenance() {
    assert!(invalidate_dcache_by_address(0x2020_0000, 0).is_empty());
    assert!(clean_invalidate_dcache_by_address(0x2020_0000, 0).is_empty());
}

#[test]
fn one_line_between_barriers() {
    assert_eq!(LINESIZE, 32);
    assert_eq!(
        invalidate_dcache_by_address(0x2020_0005, 1),
        vec![CacheOp::Dsb, CacheOp::Dcimvac(0x2020_0000), CacheOp::Dsb, CacheOp::Isb]
    );
    assert_eq!(
        clean_invalidate_dcache_by_address(0x2020_0020, 32),
        vec![CacheOp::Dsb, CacheOp::Dccimvac(0x2020_0020), CacheOp::Dsb, CacheOp::Isb]
    );
}

#[test]
fn lines_follow_one_another() {
    assert_eq!(
        clean_invalidate_dcache_by_address(0x2020_0040, 65),
        vec![
            CacheOp::Dsb,
            CacheOp::Dccimvac(0x2020_0040),
            CacheOp::Dccimvac(0x2020_0060),
            CacheOp::Dccimvac(0x2020_0080),
            CacheOp::Dsb,
            CacheOp::Isb,
        ]
    );
}

#[test]
fn cells_hold_what_is_written() {
    let mut cell = VCell::new(3u32);
    assert_eq!(cell.read(), 3);
    cell.write(5);
    assert_eq!(cell.read(), 5);
}
