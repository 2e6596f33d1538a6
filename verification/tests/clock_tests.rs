use subspace_client::clock::{LocalTick, ServerTick};

#[test]
fn local_tick_is_reduced_to_31_bits() {
    assert_eq!(LocalTick::new(0x8000_0005).value(), 5);
    assert_eq!(LocalTick::new(0x7FFF_FFFF).value(), 0x7FFF_FFFF);
    assert_eq!(LocalTick::new(0xFFFF_FFFF).value(), 0x7FFF_FFFF);
}

#[test]
fn local_tick_from_millis_divides_by_ten() {
    assert_eq!(LocalTick::from_millis(123_456).value(), 12_345);
    assert_eq!(LocalTick::from_millis(9).value(), 0);
    // 2^31 ticks wrap to zero
    assert_eq!(LocalTick::from_millis(21_474_836_480).value(), 0);
    assert_eq!(LocalTick::from_millis(21_474_836_490).value(), 1);
}

#[test]
fn now_gives_a_valid_tick() {
    assert!(LocalTick::now().value() < 0x8000_0000);
    assert!(ServerTick::now(-5).value() < 0x8000_0000);
}

#[test]
fn diff_is_signed_distance() {
    let a = LocalTick::new(100);
    let b = LocalTick::new(400);
    assert_eq!(a.diff(&b), -300);
    assert_eq!(b.diff(&a), 300);
    assert_eq!(a.diff(&a), 0);
}

#[test]
fn diff_across_the_wrap() {
    let before = LocalTick::new(0x7FFF_FFF0);
    let after = LocalTick::new(0x10);
    assert_eq!(after.diff(&before), 0x20);
    assert_eq!(before.diff(&after), -0x20);
    assert!(before < after);
    assert!(after > before);
}

#[test]
fn diff_at_half_the_circle() {
    let a = LocalTick::new(0);
    let b = LocalTick::new(0x4000_0000);
    assert_eq!(a.diff(&b), -0x4000_0000);
    assert_eq!(b.diff(&a), -0x4000_0000);
    let c = LocalTick::new(0x3FFF_FFFF);
    assert_eq!(c.diff(&a), 0x3FFF_FFFF);
    assert_eq!(a.diff(&c), -0x3FFF_FFFF);
}

#[test]
fn order_follows_the_sign_of_diff() {
    let ticks = [0u32, 1, 299, 300, 0x3FFF_FFFF, 0x4000_0001, 0x7FFF_FFFF];
    for &x in ticks.iter() {
        for &y in ticks.iter() {
            let a = ServerTick::new(x, 0);
            let b = ServerTick::new(y, 0);
            assert_eq!(a < b, a.diff(&b) < 0);
            assert_eq!(a <= b, a.diff(&b) <= 0);
            assert_eq!(a > b, a.diff(&b) > 0);
            assert_eq!(a >= b, a.diff(&b) >= 0);
            assert_eq!(a == b, x == y);
        }
    }
}

#[test]
fn add_and_sub_wrap() {
    assert_eq!((LocalTick::new(10) + 5).value(), 15);
    assert_eq!((LocalTick::new(10) - 11).value(), 0x7FFF_FFFF);
    assert_eq!((LocalTick::new(0x7FFF_FFFF) + 1).value(), 0);
    assert_eq!((LocalTick::new(5) + (-6)).value(), 0x7FFF_FFFF);
    assert_eq!((ServerTick::new(0, 0) - i32::MIN).value(), 0);
    assert_eq!((ServerTick::new(7, 0) + i32::MAX).value(), 6);
}

#[test]
fn max_min_clamp_go_by_diff() {
    let early = LocalTick::new(0x7FFF_FFF0);
    let late = LocalTick::new(4);
    assert!(early.max(late) == late);
    assert!(early.min(late) == early);
    assert!(late.max(early) == late);
    let mid = LocalTick::new(0x7FFF_FFFF);
    assert!(mid.clamp(early, late) == mid);
    assert!(LocalTick::new(0x7FFF_FF00).clamp(early, late) == early);
    assert!(LocalTick::new(100).clamp(early, late) == late);
}

#[test]
fn from_u32_reduces() {
    let t: LocalTick = LocalTick::from(0x8000_0001);
    assert_eq!(t.value(), 1);
    let s: ServerTick = 0xFFFF_FFFEu32.into();
    assert_eq!(s.value(), 0x7FFF_FFFE);
}

#[test]
fn server_tick_applies_offset() {
    assert_eq!(ServerTick::new(10_000, 39_992).value(), 49_992);
    assert_eq!(ServerTick::new(5, -10).value(), 0x7FFF_FFFB);
    assert_eq!(ServerTick::new(0xFFFF_FFFF, 1).value(), 0);
    assert_eq!(ServerTick::empty().value(), 0);
    assert_eq!(ServerTick::from_millis(100_200, 39_992).value(), 50_012);
}

#[test]
fn from_mini_of_own_low_bits_is_identity() {
    for &v in [0u32, 1, 0xFFFF, 0x10000, 0x1234_5678, 0x7FFF_FFFF].iter() {
        let now = ServerTick::new(v, 0);
        assert!(ServerTick::from_mini(now, (v & 0xFFFF) as u16) == now);
    }
}

#[test]
fn from_mini_rebuilds_a_recent_tick() {
    let now = ServerTick::new(0x0001_0005, 0);
    // sent ten ticks ago, across a 16-bit boundary
    assert_eq!(ServerTick::from_mini(now, 0xFFFB).value(), 0x0000_FFFB);
    // sent three ticks in the future
    assert_eq!(ServerTick::from_mini(now, 0x0008).value(), 0x0001_0008);
    // wraps below zero
    assert_eq!(ServerTick::from_mini(ServerTick::new(2, 0), 0xFFFF).value(), 0x7FFF_FFFF);
}

#[test]
fn from_batched_of_own_low_bits_is_identity() {
    for &v in [0u32, 1, 0x3FF, 0x400, 0x1234_5678, 0x7FFF_FFFF].iter() {
        let now = ServerTick::new(v, 0);
        assert!(ServerTick::from_batched(now, (v & 0x3FF) as u16) == now);
        // bits above the tenth are not read
        assert!(ServerTick::from_batched(now, ((v & 0x3FF) as u16) | 0xFC00) == now);
    }
}

#[test]
fn from_batched_takes_the_plain_difference() {
    let now = ServerTick::new(0x405, 0);
    assert_eq!(ServerTick::from_batched(now, 0x001).value(), 0x401);
    // no wrap at ten bits: 5 - 0x3FC = -1015, so the tick moves forward
    assert_eq!(ServerTick::from_batched(now, 0x3FC).value(), 0x405 + 1015);
}
