use axum_service_errors::text::{
    chars_of, digit_char, format_template, matches_at, push_decimal, push_signed_decimal,
    replace_all,
};

fn decimal(n: u64) -> String {
    let mut out = String::from(">");
    push_decimal(&mut out, n);
    out
}

fn signed(i: i64) -> String {
    let mut out = String::new();
    push_signed_decimal(&mut out, i);
    out
}

fn args(items: &[&str]) -> Vec<String> {
    items.iter().map(|s| s.to_string()).collect()
}

#[test]
fn decimal_numerals() {
    assert_eq!(decimal(0), ">0");
    assert_eq!(decimal(7), ">7");
    assert_eq!(decimal(10), ">10");
    assert_eq!(decimal(1001), ">1001");
    assert_eq!(decimal(u64::MAX), ">18446744073709551615");
    assert_eq!(digit_char(0), '0');
    assert_eq!(digit_char(9), '9');
}

#[test]
fn signed_numerals() {
    assert_eq!(signed(0), "0");
    assert_eq!(signed(-1), "-1");
    assert_eq!(signed(42), "42");
    assert_eq!(signed(i64::MAX), "9223372036854775807");
    assert_eq!(signed(i64::MIN), "-9223372036854775808");
}

#[test]
fn characters_of_a_slice() {
    assert_eq!(chars_of(""), Vec::<char>::new());
    assert_eq!(chars_of("aé✓"), vec!['a', 'é', '✓']);
}

#[test]
fn pattern_at_a_place() {
    let s = chars_of("abcab");
    let p = chars_of("ab");
    assert!(matches_at(&s, 0, &p));
    assert!(!matches_at(&s, 1, &p));
    assert!(matches_at(&s, 3, &p));
    assert!(!matches_at(&s, 4, &p));
    assert!(!matches_at(&s, 5, &p));
    assert!(!matches_at(&s, 6, &p));
    assert!(matches_at(&s, 5, &chars_of("")));
}

#[test]
fn replaces_every_occurrence() {
    assert_eq!(replace_all("a-b-c", "-", "+"), "a+b+c");
    assert_eq!(replace_all("{0}{0}", "{0}", "x"), "xx");
    assert_eq!(replace_all("abc", "abc", ""), "");
    assert_eq!(replace_all("abc", "abcd", "x"), "abc");
    assert_eq!(replace_all("", "a", "x"), "");
    assert_eq!(replace_all("héllo wörld", "ö", "oe"), "héllo woerld");
}

#[test]
fn replaces_leftmost_first_without_overlap() {
    assert_eq!(replace_all("aaa", "aa", "b"), "ba");
    assert_eq!(replace_all("aaaa", "aa", "b"), "bb");
    assert_eq!(replace_all("ababa", "aba", "x"), "xba");
    assert_eq!(replace_all("aa", "a", "aa"), "aaaa");
}

#[test]
fn replace_agrees_with_the_standard_library() {
    let texts = ["", "a", "aaa", "ababab", "x{0}y{1}z{0}", "{{0}}", "{0", "0}", "ünï{0}cödé"];
    let patterns = ["a", "ab", "aba", "{0}", "{1}", "{", "}", "ï"];
    let replacements = ["", "b", "{0}", "longer text"];
    for text in texts {
        for pattern in patterns {
            for replacement in replacements {
                assert_eq!(
                    replace_all(text, pattern, replacement),
                    text.replace(pattern, replacement)
                );
            }
        }
    }
}

#[test]
fn empty_pattern_changes_nothing() {
    assert_eq!(replace_all("abc", "", "x"), "abc");
    assert_eq!(replace_all("", "", "x"), "");
}

#[test]
fn fills_in_one_argument() {
    assert_eq!(
        format_template("Invalid input for field {0}", &args(&["email"])),
        "Invalid input for field email"
    );
}

#[test]
fn template_without_arguments_is_unchanged() {
    assert_eq!(
        format_template("Invalid input for field {0}", &Vec::new()),
        "Invalid input for field {0}"
    );
}

#[test]
fn fills_in_several_arguments() {
    assert_eq!(format_template("Invalid {0} for {1}", &args(&["value", "field"])), "Invalid value for field");
    assert_eq!(format_template("{1}{0}{1}", &args(&["a", "b"])), "bab");
    let eleven = args(&["0", "1", "2", "3", "4", "5", "6", "7", "8", "9", "ten"]);
    assert_eq!(format_template("{10}-{1}-{0}", &eleven), "ten-1-0");
}

#[test]
fn placeholder_without_argument_stays() {
    assert_eq!(format_template("{0} and {1}", &args(&["a"])), "a and {1}");
    assert_eq!(format_template("{2}", &args(&["a", "b"])), "{2}");
}

#[test]
fn surplus_arguments_are_unused() {
    assert_eq!(format_template("nothing here", &args(&["a", "b", "c"])), "nothing here");
    assert_eq!(format_template("{0}", &args(&["a", "b"])), "a");
}

#[test]
fn arguments_are_filled_in_one_index_after_the_other() {
    assert_eq!(format_template("{0}", &args(&["{1}", "x"])), "x");
    assert_eq!(format_template("{1}", &args(&["x", "{0}"])), "{0}");
}
