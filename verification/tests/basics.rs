use common_concepts::arrays::give_me_ten_zeros;
use common_concepts::declaring_vars::{
    declare_ints, declare_mutable_string_vec, declare_string_types, to_decimal_string,
};
use common_concepts::integers::{signed_ints, unsigned_ints};

#[test]
fn test_give_me_ten_zeros() {
    give_me_ten_zeros().iter().for_each(|ele| {
        assert_eq!(*ele, 0);
    });
}

#[test]
fn declare_ints_test() {
    let ret_ints = declare_ints();

    assert_eq!(ret_ints, (42i64, 32i32))
}

#[test]
fn declare_string_types_test() {
    let ret_strs: (&str, String) = declare_string_types();

    assert_eq!(("This is the &str", String::from("This is the string")), ret_strs);
}

#[test]
fn declare_mutable_string_vec_test() {
    let mut input = vec!["String 1".to_string(), "String 2".to_string()];

    assert_eq!(input[0], "String 1".to_string());
    assert_eq!(input[1], "String 2".to_string());

    declare_mutable_string_vec(&mut input);

    assert_eq!(input[0], "0".to_string());
    assert_eq!(input[1], "1".to_string());
}

#[test]
fn renumber_reaches_two_digit_indices() {
    let mut input: Vec<String> = vec![String::new(); 12];

    declare_mutable_string_vec(&mut input);

    assert_eq!(input[9], "9".to_string());
    assert_eq!(input[10], "10".to_string());
    assert_eq!(input[11], "11".to_string());
}

#[test]
fn decimal_rendering_exact() {
    assert_eq!(to_decimal_string(0), "0".to_string());
    assert_eq!(to_decimal_string(10), "10".to_string());
    assert_eq!(to_decimal_string(1234567890), "1234567890".to_string());
    assert_eq!(to_decimal_string(u64::MAX), "18446744073709551615".to_string());
}

#[test]
fn signed_ints_test() {
    assert_eq!(signed_ints(), (i8::MAX, i16::MAX, i32::MAX, i64::MAX, i128::MAX));
}

#[test]
fn unsigned_ints_test() {
    assert_eq!(unsigned_ints(), (u8::MAX, u16::MAX, u32::MAX, u64::MAX, u128::MAX));
}

#[test]
fn gravity_law_test() {
    let gravity_law = || String::from("What goes \u{2191} must come \u{2193}!");

    assert_eq!(gravity_law(), "What goes ↑ must come ↓!".to_string());
}

fn return_tuple() -> (&'static str, String, f32) {
    let the_answer = ("The ", "answer is:".to_string(), 42.0);

    the_answer
}

#[test]
fn return_tuple_test() {
    let (the, answer_is, fourty_2) = return_tuple();
    assert!(the == "The ");
    assert!(answer_is == String::from("answer is:"));
    assert!(fourty_2 == 42.0);
}
