use getters::text::{str_eq, usize_dec};

#[test]
fn str_eq_agrees_on_equal_strings() {
    assert!(str_eq("", ""));
    assert!(str_eq("a", "a"));
    assert!(str_eq("use_deref", "use_deref"));
}

#[test]
fn str_eq_rejects_different_strings() {
    assert!(!str_eq("a", "b"));
    assert!(!str_eq("use_deref", "use_as_ref"));
    assert!(!str_eq("copy", "copycat"));
    assert!(!str_eq("copycat", "copy"));
    assert!(!str_eq("", "x"));
}

#[test]
fn decimal_rendering_of_indexes() {
    assert_eq!(usize_dec(0), "0");
    assert_eq!(usize_dec(7), "7");
    assert_eq!(usize_dec(10), "10");
    assert_eq!(usize_dec(42), "42");
    assert_eq!(usize_dec(100), "100");
    assert_eq!(usize_dec(9876), "9876");
}
