use mathdrill::text::{render, render_unsigned};

#[test]
fn render_single_digits() {
    let digits = ["0", "1", "2", "3", "4", "5", "6", "7", "8", "9"];
    for n in 0u64..10 {
        assert_eq!(render_unsigned(n), digits[n as usize]);
    }
}

#[test]
fn render_unsigned_matches_std() {
    for n in 0u64..2000 {
        assert_eq!(render_unsigned(n), n.to_string());
    }
    for n in [9_999u64, 10_000, 4_294_967_295, 4_294_967_296, u64::MAX - 1, u64::MAX] {
        assert_eq!(render_unsigned(n), n.to_string());
    }
    assert_eq!(render_unsigned(18_446_744_073_709_551_615), "18446744073709551615");
}

#[test]
fn render_signed_matches_std() {
    for n in -1200i64..1200 {
        assert_eq!(render(n), n.to_string());
    }
    for n in [i64::MIN, i64::MIN + 1, -2_147_483_648, 2_147_483_647, i64::MAX] {
        assert_eq!(render(n), n.to_string());
    }
    assert_eq!(render(-9_223_372_036_854_775_808), "-9223372036854775808");
    assert_eq!(render(-10), "-10");
    assert_eq!(render(0), "0");
}
