use rpg_battle::text::{first_segment_of, push_int_text, push_nat_text, str_eq};

#[test]
fn decimal_text_of_integers() {
    let mut s = String::new();
    push_int_text(&mut s, 0);
    assert_eq!(s, "0");
    let mut s = String::from("x");
    push_int_text(&mut s, -45);
    assert_eq!(s, "x-45");
    let mut s = String::new();
    push_int_text(&mut s, i32::MAX);
    assert_eq!(s, "2147483647");
    let mut s = String::new();
    push_int_text(&mut s, i32::MIN);
    assert_eq!(s, "-2147483648");
    let mut s = String::new();
    push_nat_text(&mut s, u32::MAX);
    assert_eq!(s, "4294967295");
    let mut s = String::new();
    push_nat_text(&mut s, 100);
    assert_eq!(s, "100");
}

#[test]
fn string_equality() {
    assert!(str_eq("Burn", "Burn"));
    assert!(!str_eq("Burn", "Bur"));
    assert!(!str_eq("Burn", "burn"));
    assert!(str_eq("", ""));
    assert!(str_eq("héllo", "héllo"));
}

#[test]
fn first_segment_before_bar() {
    assert_eq!(first_segment_of("Heal|-1"), "Heal");
    assert_eq!(first_segment_of("Heal"), "Heal");
    assert_eq!(first_segment_of("|x"), "");
    assert_eq!(first_segment_of(""), "");
    assert_eq!(first_segment_of("a|b|c"), "a");
}
