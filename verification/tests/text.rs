use supabase_migrate::text::{concat2, concat3, constant_time_eq, count_to_string, parse_u32, str_eq, str_lt};

#[test]
fn strings_are_ordered_by_code_point() {
    assert!(str_lt("a", "b"));
    assert!(!str_lt("b", "a"));
    assert!(!str_lt("a", "a"));
    assert!(str_lt("", "a"));
    assert!(!str_lt("a", ""));
    assert!(!str_lt("", ""));
    assert!(str_lt("ab", "abc"));
    assert!(str_lt("abc", "abd"));
    assert!(str_lt("Z", "a"));
    assert!(str_lt("z", "é"));
    assert!(str_lt("jwt_exp", "site_url"));
}

#[test]
fn order_agrees_with_the_order_of_std() {
    let words = ["", "a", "ab", "b", "é", "z", "external_apple", "external_azure", "日本", "~"];
    for a in words {
        for b in words {
            assert_eq!(str_lt(a, b), a < b, "{a:?} {b:?}");
        }
    }
}

#[test]
fn constant_time_eq_is_equality() {
    assert!(constant_time_eq("", ""));
    assert!(constant_time_eq("state", "state"));
    assert!(!constant_time_eq("state", "stata"));
    assert!(!constant_time_eq("xtate", "state"));
    assert!(!constant_time_eq("state", "states"));
    assert!(!constant_time_eq("", "a"));
    assert!(constant_time_eq("é", "é"));
    assert!(str_eq("a", "a"));
    assert!(!str_eq("a", "b"));
}

#[test]
fn counts_are_written_in_decimal() {
    assert_eq!(count_to_string(0), "0");
    assert_eq!(count_to_string(7), "7");
    assert_eq!(count_to_string(10), "10");
    assert_eq!(count_to_string(3600), "3600");
    assert_eq!(count_to_string(4294967295), "4294967295");
}

#[test]
fn counts_are_read_from_decimal() {
    assert_eq!(parse_u32("0"), Some(0));
    assert_eq!(parse_u32("3600"), Some(3600));
    assert_eq!(parse_u32("4294967295"), Some(4294967295));
    assert_eq!(parse_u32("4294967296"), None);
    assert_eq!(parse_u32("99999999999999999999999"), None);
    assert_eq!(parse_u32(""), None);
    assert_eq!(parse_u32("-1"), None);
    assert_eq!(parse_u32("1.0"), None);
    assert_eq!(parse_u32("01"), None);
    assert_eq!(parse_u32("1e3"), None);
    assert_eq!(parse_u32("١"), None);
}

#[test]
fn reading_undoes_writing() {
    for n in [0u32, 1, 9, 10, 99, 100, 65535, 4294967295] {
        assert_eq!(parse_u32(&count_to_string(n)), Some(n));
    }
}

#[test]
fn texts_are_joined_in_order() {
    assert_eq!(concat2("ab", "cd"), "abcd");
    assert_eq!(concat3("a", "", "c"), "ac");
}
