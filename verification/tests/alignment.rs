//! Tests for the address-alignment helpers.

use xmodem::util::{align_down, align_up};

#[test]
fn align_down_takes_the_floor_multiple() {
    assert_eq!(align_down(0, 1), 0);
    assert_eq!(align_down(13, 1), 13);
    assert_eq!(align_down(13, 8), 8);
    assert_eq!(align_down(16, 8), 16);
    assert_eq!(align_down(0x80123, 0x1000), 0x80000);
}

#[test]
fn align_up_takes_the_ceiling_multiple() {
    assert_eq!(align_up(0, 8), 0);
    assert_eq!(align_up(1, 8), 8);
    assert_eq!(align_up(8, 8), 8);
    assert_eq!(align_up(9, 16), 16);
    assert_eq!(align_up(0x80123, 0x1000), 0x81000);
}
