//! Register shadow store behavior: construction, bounds checking, and
//! read-after-write.

use wm8978::DriverError;
use wm8978::Wm8978Driver;

/// The chip's documented power-on-reset image, register 0 through 57.
const DEFAULT_IMAGE: [u16; 58] = [
    0x0000, 0x0000, 0x0000, 0x0000, 0x0050, 0x0000, 0x0140, 0x0000, 0x0000, 0x0000, 0x0000,
    0x00FF, 0x00FF, 0x0000, 0x0100, 0x00FF, 0x00FF, 0x0000, 0x012C, 0x002C, 0x002C, 0x002C,
    0x002C, 0x0000, 0x0032, 0x0000, 0x0000, 0x0000, 0x0000, 0x0000, 0x0000, 0x0000, 0x0038,
    0x000B, 0x0032, 0x0000, 0x0008, 0x000C, 0x0093, 0x00E9, 0x0000, 0x0000, 0x0000, 0x0000,
    0x0003, 0x0010, 0x0010, 0x0100, 0x0100, 0x0002, 0x0001, 0x0001, 0x0039, 0x0039, 0x0039,
    0x0039, 0x0001, 0x0001,
];

fn store_snapshot(d: &Wm8978Driver<()>) -> Vec<u16> {
    let mut words: Vec<u16> = Vec::new();
    for i in 0..58 {
        words.push(d.read_reg(i).unwrap());
    }
    words
}

#[test]
fn new_driver_holds_default_image() {
    let d: Wm8978Driver<()> = Wm8978Driver::new(());
    for i in 0..58 {
        assert_eq!(d.read_reg(i).unwrap(), DEFAULT_IMAGE[i]);
    }
}

#[test]
fn write_then_read_every_valid_index() {
    let mut d: Wm8978Driver<()> = Wm8978Driver::new(());
    for i in 0..58 {
        let v: u16 = 0x8000 | (i as u16);
        assert_eq!(d.write_reg(i, v), Ok(()));
        assert_eq!(d.read_reg(i).unwrap(), v);
    }
    // The written values all persist.
    for i in 0..58 {
        assert_eq!(d.read_reg(i).unwrap(), 0x8000 | (i as u16));
    }
}

#[test]
fn write_mutates_only_the_target_register() {
    let mut d: Wm8978Driver<()> = Wm8978Driver::new(());
    let before = store_snapshot(&d);
    d.write_reg(10, 0xABCD).unwrap();
    for i in 0..58 {
        if i == 10 {
            assert_eq!(d.read_reg(i).unwrap(), 0xABCD);
        } else {
            assert_eq!(d.read_reg(i).unwrap(), before[i]);
        }
    }
}

#[test]
fn read_out_of_bounds_fails() {
    let d: Wm8978Driver<()> = Wm8978Driver::new(());
    assert_eq!(d.read_reg(58), Err(DriverError::OutOfBounds));
    assert_eq!(d.read_reg(100), Err(DriverError::OutOfBounds));
    assert_eq!(d.read_reg(usize::MAX), Err(DriverError::OutOfBounds));
}

#[test]
fn write_out_of_bounds_fails_and_leaves_store_unmodified() {
    let mut d: Wm8978Driver<()> = Wm8978Driver::new(());
    let before = store_snapshot(&d);
    assert_eq!(d.write_reg(58, 0xFFFF), Err(DriverError::OutOfBounds));
    assert_eq!(d.write_reg(1000, 0x1234), Err(DriverError::OutOfBounds));
    assert_eq!(store_snapshot(&d), before);
}

#[test]
fn valid_boundary_index_is_writable() {
    let mut d: Wm8978Driver<()> = Wm8978Driver::new(());
    assert_eq!(d.write_reg(57, 0x7777), Ok(()));
    assert_eq!(d.read_reg(57).unwrap(), 0x7777);
}
