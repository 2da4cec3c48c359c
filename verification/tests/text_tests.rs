use tapmute::text::{push_decimal, text_eq};

#[test]
fn text_eq_compares_characters() {
    assert!(text_eq("", ""));
    assert!(text_eq("F13", "F13"));
    assert!(text_eq("Заряд", "Заряд"));
    assert!(!text_eq("F13", "F14"));
    assert!(!text_eq("F1", "F13"));
    assert!(!text_eq("F13", ""));
}

#[test]
fn decimal_forms() {
    for (n, expected) in [(0u8, "0"), (7, "7"), (10, "10"), (42, "42"), (99, "99"), (100, "100"), (205, "205"), (255, "255")] {
        let mut s = String::from("x");
        push_decimal(&mut s, n);
        assert_eq!(s, format!("x{}", expected));
    }
}

#[test]
fn decimal_matches_display_for_every_byte() {
    for n in 0..=255u8 {
        let mut s = String::new();
        push_decimal(&mut s, n);
        assert_eq!(s, n.to_string());
    }
}
