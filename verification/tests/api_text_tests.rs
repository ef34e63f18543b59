use gi_gen::api::{join_names, list_url, parse_template_names, template_url};
use gi_gen::matching::filter_names;
use gi_gen::text::{str_lt, str_to_chars, to_ascii_lower};

fn strings(names: &[&str]) -> Vec<String> {
    names.iter().map(|n| n.to_string()).collect()
}

#[test]
fn listing_splits_on_newlines_and_commas() {
    assert_eq!(parse_template_names("a,b\nc"), strings(&["a", "b", "c"]));
    assert_eq!(parse_template_names("go"), strings(&["go"]));
    assert_eq!(parse_template_names(""), strings(&[""]));
    assert_eq!(parse_template_names("a\n"), strings(&["a", ""]));
    assert_eq!(parse_template_names("a,,b"), strings(&["a", "", "b"]));
}

#[test]
fn join_names_puts_separator_between() {
    assert_eq!(join_names(&strings(&["go", "node"]), ","), "go,node");
    assert_eq!(join_names(&strings(&["go"]), ","), "go");
    assert_eq!(join_names(&strings(&[]), ","), "");
    assert_eq!(join_names(&strings(&["a", "b", "c"]), " "), "a b c");
}

#[test]
fn urls_follow_the_api_shape() {
    assert_eq!(list_url(), "https://www.toptal.com/developers/gitignore/api/list");
    assert_eq!(
        template_url(&strings(&["go", "node"])),
        "https://www.toptal.com/developers/gitignore/api/go,node",
    );
}

#[test]
fn literal_match_is_substring_search() {
    let names = strings(&["c++", "xc++y", "cpp", "anything"]);
    assert_eq!(filter_names(&names, &vec!['c', '+', '+']), strings(&["c++", "xc++y"]));
    assert_eq!(filter_names(&names, &vec![]), names);
    assert_eq!(filter_names(&strings(&["go", "c"]), &vec!['o']), strings(&["go"]));
}

#[test]
fn filter_names_keeps_matches_in_order() {
    let names = strings(&["python", "go", "node"]);
    assert_eq!(filter_names(&names, &vec!['o']), strings(&["python", "go", "node"]));
    assert_eq!(filter_names(&names, &vec!['n']), strings(&["python", "node"]));
    assert_eq!(filter_names(&names, &vec!['z']), strings(&[]));
}

#[test]
fn str_lt_orders_lexicographically() {
    assert!(str_lt("abc", "abd"));
    assert!(str_lt("", "a"));
    assert!(str_lt("ab", "abc"));
    assert!(!str_lt("abc", "abc"));
    assert!(!str_lt("b", "a"));
    assert!(str_lt("Z", "a"));
}

#[test]
fn str_to_chars_collects_every_char() {
    assert_eq!(str_to_chars("go"), vec!['g', 'o']);
    assert_eq!(str_to_chars(""), Vec::<char>::new());
}

#[test]
fn lowercasing_touches_only_ascii_uppercase() {
    assert_eq!(to_ascii_lower('A'), 'a');
    assert_eq!(to_ascii_lower('Z'), 'z');
    assert_eq!(to_ascii_lower('a'), 'a');
    assert_eq!(to_ascii_lower('+'), '+');
    assert_eq!(to_ascii_lower('3'), '3');
}
