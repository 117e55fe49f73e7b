use tosubcommand::names::{flag_key, flag_keys, kebab_case, push_kebab};
use tosubcommand::text::{bool_to_text, push_decimal, signed_text, unsigned_text};
use tosubcommand::traits::ToFlags;
use tosubcommand::value::{
    classify, encode, join_firsts, join_pair, push_first, single, Capability, Field, Value,
};

fn boxed(v: Value) -> Box<Value> {
    Box::new(v)
}

fn strings(items: &[&str]) -> Vec<String> {
    items.iter().map(|s| s.to_string()).collect()
}

#[test]
fn kebab_case_of_pascal_and_camel_names() {
    assert_eq!(kebab_case("GenSomething"), "gen-something");
    assert_eq!(kebab_case("GenWitness"), "gen-witness");
    assert_eq!(kebab_case("genWitness"), "gen-witness");
    assert_eq!(kebab_case("Mock"), "mock");
    assert_eq!(kebab_case("ABC"), "a-b-c");
    assert_eq!(kebab_case("A"), "a");
    assert_eq!(kebab_case(""), "");
    assert_eq!(kebab_case("V2Beta"), "v2-beta");
}

#[test]
fn kebab_case_keeps_a_kebab_name() {
    assert_eq!(kebab_case("gen-something"), "gen-something");
    assert_eq!(kebab_case("already-kebab-cased"), "already-kebab-cased");
    assert_eq!(kebab_case("snake_name"), "snake_name");
    assert_eq!(kebab_case(&kebab_case("GenSomething")), "gen-something");
}

#[test]
fn kebab_case_beyond_ascii() {
    assert_eq!(kebab_case("\u{c9}t\u{c9}"), "\u{e9}t-\u{e9}");
    assert_eq!(kebab_case("a\u{df}"), "a\u{df}");
}

#[test]
fn push_kebab_steps() {
    let mut acc = String::new();
    push_kebab(&mut acc, 'G', true, 'g');
    assert_eq!(acc, "g");
    push_kebab(&mut acc, 'e', false, 'e');
    assert_eq!(acc, "ge");
    push_kebab(&mut acc, 'S', true, 's');
    assert_eq!(acc, "ge-s");
    push_kebab(&mut acc, '-', false, '-');
    assert_eq!(acc, "ge-s-");
}

#[test]
fn flag_key_turns_underscores_into_hyphens() {
    assert_eq!(flag_key("something_to_gen"), "something-to-gen");
    assert_eq!(flag_key("or_not"), "or-not");
    assert_eq!(flag_key("__"), "--");
    assert_eq!(flag_key("plain"), "plain");
    assert_eq!(flag_key("KeepCase_Here"), "KeepCase-Here");
    assert_eq!(flag_key(""), "");
    assert_eq!(flag_key(&flag_key("a_b_c")), "a-b-c");
}

#[test]
fn decimal_text_of_integers() {
    assert_eq!(unsigned_text(0), "0");
    assert_eq!(unsigned_text(9), "9");
    assert_eq!(unsigned_text(10), "10");
    assert_eq!(unsigned_text(1234567890), "1234567890");
    assert_eq!(unsigned_text(u128::MAX), "340282366920938463463374607431768211455");
    assert_eq!(signed_text(0), "0");
    assert_eq!(signed_text(-1), "-1");
    assert_eq!(signed_text(-120), "-120");
    assert_eq!(signed_text(i128::MAX), "170141183460469231731687303715884105727");
    assert_eq!(signed_text(i128::MIN), "-170141183460469231731687303715884105728");
    assert_eq!(signed_text(i128::MIN), format!("{:?}", i128::MIN));
}

#[test]
fn decimal_digits_are_appended() {
    let mut out = "n=".to_string();
    push_decimal(&mut out, 405);
    assert_eq!(out, "n=405");
    let mut digits = String::new();
    push_decimal(&mut digits, 1234567890);
    assert_eq!(digits, "1234567890");
}

#[test]
fn boolean_text() {
    assert_eq!(bool_to_text(true), "true");
    assert_eq!(bool_to_text(false), "false");
    assert_eq!(encode(&Value::Bool(true)), vec!["true"]);
}

#[test]
fn scalars_encode_to_one_token() {
    assert_eq!(encode(&Value::Signed(-42)), vec!["-42"]);
    assert_eq!(encode(&Value::Unsigned(42)), vec!["42"]);
    assert_eq!(encode(&Value::Text("some text".to_string())), vec!["some text"]);
    assert_eq!(encode(&Value::Text(String::new())), vec![""]);
    assert_eq!(encode(&Value::Path("foo/bar/file.text".to_string())), vec!["foo/bar/file.text"]);
    assert_eq!(encode(&Value::Other("Custom { x: 1 }".to_string())), vec!["Custom { x: 1 }"]);
    assert_eq!(encode(&Value::Other(format!("{:?}", 1.5f64))), vec!["1.5"]);
}

#[test]
fn character_encodes_as_its_literal() {
    assert_eq!(encode(&Value::Char('a')), vec!["'a'"]);
    assert_eq!(encode(&Value::Char('\n')), vec!["'\\n'"]);
    assert_eq!(encode(&Value::Char('\'')), vec!["'\\''"]);
    assert_eq!('x'.to_flags(), vec!["'x'"]);
}

#[test]
fn optional_encoding() {
    let empty: Vec<String> = Vec::new();
    assert_eq!(encode(&Value::Optional(None)), empty);
    assert_eq!(encode(&Value::Optional(Some(boxed(Value::Signed(5))))), vec!["5"]);
    assert_eq!(
        encode(&Value::Optional(Some(boxed(Value::Optional(Some(boxed(Value::Bool(false)))))))),
        vec!["false"]
    );
}

#[test]
fn sequence_is_one_comma_joined_token() {
    let seq = Value::Sequence(vec![Value::Signed(1), Value::Signed(2), Value::Signed(3)]);
    let tokens = encode(&seq);
    assert_eq!(tokens, vec!["1,2,3"]);
    let parts: Vec<&str> = tokens[0].split(',').collect();
    assert_eq!(parts, vec!["1", "2", "3"]);
    assert_eq!(encode(&Value::Sequence(vec![Value::Signed(7)])), vec!["7"]);
    assert_eq!(encode(&Value::Sequence(vec![])), vec![""]);
}

#[test]
fn sequence_item_without_tokens_is_an_empty_part() {
    let seq = Value::Sequence(vec![
        Value::Optional(None),
        Value::Signed(1),
        Value::Optional(None),
    ]);
    assert_eq!(encode(&seq), vec![",1,"]);
    assert_eq!(join_firsts(&vec![Value::Optional(None), Value::Optional(None)]), ",");
}

#[test]
fn sequence_takes_the_first_token_of_each_item() {
    let record = |n: i128| {
        Value::Record(vec![
            Field { name: "a".to_string(), value: Value::Signed(n) },
            Field { name: "b".to_string(), value: Value::Signed(n + 1) },
        ])
    };
    assert_eq!(encode(&Value::Sequence(vec![record(1), record(3)])), vec!["--a,--a"]);
}

#[test]
fn pair_is_left_arrow_right() {
    let ab = Value::Pair(boxed(Value::Signed(1)), boxed(Value::Signed(2)));
    let ba = Value::Pair(boxed(Value::Signed(2)), boxed(Value::Signed(1)));
    assert_eq!(encode(&ab), vec!["1->2"]);
    assert_eq!(encode(&ba), vec!["2->1"]);
    assert_ne!(encode(&ab), encode(&ba));
    let mixed = Value::Pair(boxed(Value::Text("x".to_string())), boxed(Value::Bool(true)));
    assert_eq!(encode(&mixed), vec!["x->true"]);
}

#[test]
fn pair_side_without_tokens_is_empty() {
    let p = Value::Pair(boxed(Value::Optional(None)), boxed(Value::Signed(2)));
    assert_eq!(encode(&p), vec!["->2"]);
    assert_eq!(join_pair(&vec![], &vec![]), "->");
    assert_eq!(join_pair(&strings(&["l", "x"]), &strings(&["r", "y"])), "l->r");
}

#[test]
fn pair_of_arrow_texts_can_read_the_same_both_ways() {
    let ab = Value::Pair(boxed(Value::Text(String::new())), boxed(Value::Text("->".to_string())));
    let ba = Value::Pair(boxed(Value::Text("->".to_string())), boxed(Value::Text(String::new())));
    assert_eq!(encode(&ab), vec!["->->"]);
    assert_eq!(encode(&ab), encode(&ba));
}

#[test]
fn push_first_takes_one_token_or_none() {
    let mut out = "x".to_string();
    push_first(&mut out, &strings(&["ab", "cd"]));
    assert_eq!(out, "xab");
    push_first(&mut out, &vec![]);
    assert_eq!(out, "xab");
}

#[test]
fn single_holds_its_token() {
    assert_eq!(single("tok".to_string()), vec!["tok"]);
}

#[test]
fn classification_by_kind() {
    let plain = Capability { is_flag: false, is_optional: false };
    assert_eq!(classify(&Value::Bool(true)), plain);
    assert_eq!(classify(&Value::Signed(1)), plain);
    assert_eq!(classify(&Value::Unsigned(1)), plain);
    assert_eq!(classify(&Value::Char('c')), plain);
    assert_eq!(classify(&Value::Text("t".to_string())), plain);
    assert_eq!(classify(&Value::Path("p".to_string())), plain);
    assert_eq!(classify(&Value::Other("o".to_string())), plain);
    assert_eq!(classify(&Value::Sequence(vec![])), plain);
    assert_eq!(classify(&Value::Pair(boxed(Value::Signed(1)), boxed(Value::Signed(2)))), plain);
    assert_eq!(
        classify(&Value::Record(vec![])),
        Capability { is_flag: true, is_optional: false }
    );
    assert_eq!(
        classify(&Value::Optional(None)),
        Capability { is_flag: false, is_optional: true }
    );
    assert_eq!(
        classify(&Value::Optional(Some(boxed(Value::Signed(1))))),
        Capability { is_flag: false, is_optional: true }
    );
    assert_eq!(
        classify(&Value::Optional(Some(boxed(Value::Record(vec![]))))),
        Capability { is_flag: true, is_optional: true }
    );
}

#[test]
fn value_answers_as_the_trait_asks() {
    let v = Value::Optional(Some(boxed(Value::Signed(3))));
    assert_eq!(v.to_flags(), vec!["3"]);
    assert!(v.is_optional());
    assert!(!v.is_flag());
    assert!(v.is_value());
    let r = Value::Record(vec![]);
    assert!(r.is_flag());
    assert!(!r.is_value());
    assert!(!r.is_optional());
}

#[test]
fn built_in_kinds_through_the_trait() {
    assert_eq!("text".to_string().to_flags(), vec!["text"]);
    assert_eq!((-5i8).to_flags(), vec!["-5"]);
    assert_eq!(i16::MIN.to_flags(), vec!["-32768"]);
    assert_eq!(7i32.to_flags(), vec!["7"]);
    assert_eq!(i64::MAX.to_flags(), vec!["9223372036854775807"]);
    assert_eq!(1i128.to_flags(), vec!["1"]);
    assert_eq!(255u8.to_flags(), vec!["255"]);
    assert_eq!(65535u16.to_flags(), vec!["65535"]);
    assert_eq!(0u32.to_flags(), vec!["0"]);
    assert_eq!(u64::MAX.to_flags(), vec!["18446744073709551615"]);
    assert_eq!(3u128.to_flags(), vec!["3"]);
    assert_eq!(2usize.to_flags(), vec!["2"]);
    assert_eq!(true.to_flags(), vec!["true"]);
    assert!(!7i32.is_flag());
    assert!(7i32.is_value());
    assert!(!7i32.is_optional());
}

#[test]
fn collections_through_the_trait() {
    assert_eq!(vec![1i32, 2, 3].to_flags(), vec!["1,2,3"]);
    assert_eq!(Vec::<i32>::new().to_flags(), vec![""]);
    assert_eq!(vec![None, Some(4u8)].to_flags(), vec![",4"]);
    assert_eq!((1i32, 2i32).to_flags(), vec!["1->2"]);
    assert_eq!(vec![(1i32, 2i32), (3, 4)].to_flags(), vec!["1->2,3->4"]);
    assert_eq!(Some(9u64).to_flags(), vec!["9"]);
    let empty: Vec<String> = Vec::new();
    assert_eq!(None::<u64>.to_flags(), empty);
    assert!(Some(9u64).is_optional());
    assert!(None::<u64>.is_optional());
    assert!(!Some(9u64).is_flag());
    assert!(Some(9u64).is_value());
}

#[test]
fn flag_keys_keep_declared_order() {
    let names = strings(&["something_to_gen", "tuple", "with_not"]);
    assert_eq!(flag_keys(&names), vec!["something-to-gen", "tuple", "with-not"]);
    let empty: Vec<String> = Vec::new();
    assert_eq!(flag_keys(&vec![]), empty);
}
