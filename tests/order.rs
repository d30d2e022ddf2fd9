use wrapseq::wrapping_lt;

#[test]
fn it_compares_two_numbers_as_if_they_were_signed() {
    let a: u32 = -10i32 as u32;
    let b: u32 = 10;
    let less = wrapping_lt(a, b, 0xFF_FF_FF_FF);

    assert!(less);
}

#[test]
fn wrapping_lt_of_minus_ten_and_ten() {
    assert!(wrapping_lt(4294967286, 10, 0xFFFF_FFFF));
    assert!(!wrapping_lt(10, 4294967286, 0xFFFF_FFFF));
}

#[test]
fn wrapping_lt_is_antisymmetric_off_the_half_circle() {
    let cases: [(u32, u32, u32); 5] = [
        (0, 1, 0xFFFF_FFFF),
        (5, 0x8000_0003, 0xFFFF_FFFF),
        (0xFFFF_FFFF, 0, 0xFFFF_FFFF),
        (250, 3, 0xFF),
        (0x1_0010, 0x7FF0, 0xFFFF),
    ];
    for (lhs, rhs, mask) in cases {
        assert_ne!(wrapping_lt(lhs, rhs, mask), wrapping_lt(rhs, lhs, mask));
    }
}

#[test]
fn wrapping_lt_at_the_half_circle_is_false_both_ways() {
    assert!(!wrapping_lt(0, 0x8000_0000, 0xFFFF_FFFF));
    assert!(!wrapping_lt(0x8000_0000, 0, 0xFFFF_FFFF));
    assert!(!wrapping_lt(3, 3 + 128, 0xFF));
}

#[test]
fn wrapping_lt_of_equal_values_is_false() {
    assert!(!wrapping_lt(7, 7, 0xFFFF_FFFF));
    assert!(!wrapping_lt(7, 7 + 256, 0xFF));
}

#[test]
fn wrapping_lt_with_narrow_mask_ignores_high_bits() {
    // On a circle of 256 points, 0x1FF is 255 and 0x100 is 0.
    assert!(wrapping_lt(0x1FF, 0x100, 0xFF));
    assert!(!wrapping_lt(0x100, 0x1FF, 0xFF));
}

#[test]
fn wrapping_lt_with_zero_mask_is_always_false() {
    assert!(!wrapping_lt(0, 1, 0));
}
