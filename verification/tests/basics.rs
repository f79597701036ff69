use agent_orchestrator::hash::{absorb, absorb_all, absorb_number, BASIS};
use agent_orchestrator::json::{Json, Member};
use agent_orchestrator::paths::path_below;
use agent_orchestrator::table::Table;
use agent_orchestrator::text::{
    chars_of, describe_exit, equal_ignoring_case, find, has, is_blank, join, place, to_decimal,
    to_hex, to_signed_decimal, trimmed, Place,
};

#[test]
fn the_hash_is_fnv() {
    assert_eq!(BASIS, 0xcbf29ce484222325);
    assert_eq!(absorb_all(BASIS, b""), BASIS);
    assert_eq!(absorb(BASIS, b'a'), 0xaf63dc4c8601ec8c);
    assert_eq!(absorb_all(BASIS, b"foobar"), 0x85944171f73967e8);
    assert_eq!(
        absorb_number(BASIS, 0x0201, 4),
        absorb_all(BASIS, &[1, 2, 0, 0])
    );
}

#[test]
fn numerals_are_written_in_full() {
    assert_eq!(to_decimal(0), "0");
    assert_eq!(to_decimal(u64::MAX), "18446744073709551615");
    assert_eq!(to_signed_decimal(-7), "-7");
    assert_eq!(to_signed_decimal(i32::MIN), "-2147483648");
    assert_eq!(to_hex(0xbeef, 8), "0000beef");
    assert_eq!(describe_exit(Some(-1)), "-1");
    assert_eq!(describe_exit(None), "signal");
}

#[test]
fn white_space_is_trimmed_as_unicode_has_it() {
    assert_eq!(trimmed(" \u{3000}a b\u{85}\n"), "a b");
    assert_eq!(trimmed(" \t"), "");
    assert!(is_blank(" \u{a0}\t"));
    assert!(!is_blank(" x "));
    assert!(is_blank(""));
}

#[test]
fn exactly_these_characters_are_white_space() {
    let listed = [
        9, 10, 11, 12, 13, 0x20, 0x85, 0xa0, 0x1680, 0x2000, 0x2001, 0x2002, 0x2003, 0x2004, 0x2005,
        0x2006, 0x2007, 0x2008, 0x2009, 0x200a, 0x2028, 0x2029, 0x202f, 0x205f, 0x3000,
    ];
    let found: Vec<u32> = ('\0'..=char::MAX)
        .filter(|c| is_blank(&c.to_string()))
        .map(u32::from)
        .collect();
    assert_eq!(found, listed);
}

#[test]
fn texts_are_searched_joined_and_placed() {
    let text = chars_of("a\u{e9}bab");
    assert_eq!(find(&text, &chars_of("b"), 0), Some(2));
    assert_eq!(find(&text, &chars_of("b"), 3), Some(4));
    assert_eq!(find(&text, &chars_of("bb"), 0), None);
    assert!(has(&text, &chars_of("\u{e9}ba")));
    assert!(equal_ignoring_case(&chars_of("FroM"), &chars_of("from")));
    assert!(!equal_ignoring_case(&chars_of("\u{c9}"), &chars_of("\u{e9}")));
    assert_eq!(join(&vec!["a".to_owned(), "b".to_owned()], ", "), "a, b");
    assert_eq!(join(&Vec::new(), ", "), "");
    assert_eq!(place("a", "b"), Place::Before);
    assert_eq!(place("a", "a"), Place::Same);
    assert_eq!(place("ab", "a"), Place::After);
    assert_eq!(place("Z", "a"), Place::Before);
    assert_eq!(path_below("/a", "b"), "/a/b");
    assert_eq!(path_below("/a/", "b"), "/a/b");
    assert_eq!(path_below("", "b"), "b");
}

#[test]
fn tables_keep_their_keys_in_order() {
    let mut table: Table<u32> = Table::new();
    for (key, value) in [("m", 1), ("a", 2), ("z", 3), ("m", 4)] {
        table.insert(key.to_owned(), value);
    }
    assert_eq!(table.len(), 3);
    assert_eq!(table.key_list(), ["a", "m", "z"]);
    assert_eq!(table.get("m"), Some(&4));
    assert_eq!(table.get("b"), None);
    assert!(table.has("z"));
    assert_eq!(table.row(0).key, "a");
    assert_eq!(table.row(0).value, 2);
}

#[test]
fn json_values_are_compared_by_what_they_say() {
    let member = |name: &str, value: Json| Member {
        name: name.to_owned(),
        value,
    };
    let number = |text: &str| Json::Number(text.to_owned());
    assert!(number("-0.0").same_as(&number("0.0")));
    assert!(!number("1").same_as(&number("1.0")));
    let one = Json::Object(vec![
        member("a", Json::Array(vec![Json::Null, Json::Bool(true)])),
        member("b", Json::Text("x".to_owned())),
    ]);
    let copy = one.clone();
    assert!(one.same_as(&copy));
    assert_eq!(copy.field("b").unwrap().text(), Some("x"));
    assert!(copy.field("c").is_none());
    assert!(copy.text().is_none());
    let other = Json::Object(vec![member("a", Json::Array(vec![Json::Null]))]);
    assert!(!one.same_as(&other));
}
