use revolt_core::database::{if_false, if_option_false};

#[test]
fn if_false_skips_only_false() {
    assert!(if_false(&false));
    assert!(!if_false(&true));
}

#[test]
fn if_option_false_skips_all_but_explicit_true() {
    assert!(if_option_false(&None));
    assert!(if_option_false(&Some(false)));
    assert!(!if_option_false(&Some(true)));
}

#[test]
fn optional_flag_agrees_with_flag() {
    for b in [false, true] {
        assert_eq!(if_option_false(&Some(b)), if_false(&b));
    }
}
