use gi_gen::catalog::Catalog;

fn chars(s: &str) -> Vec<char> {
    let mut v = Vec::new();
    for c in s.chars() {
        v.push(c);
    }
    v
}

fn make_catalog(names: &[&str]) -> Catalog {
    let mut c = Catalog::new();
    for n in names {
        c.insert_name(n.to_string());
    }
    c
}

#[test]
fn derived_lists_are_sorted() {
    let c = make_catalog(&["python", "go", "node"]);
    assert_eq!(c.available_templates(), vec!["go", "node", "python"]);
    assert_eq!(c.selected_templates(), Vec::<String>::new());
}

#[test]
fn insert_ignores_duplicates() {
    let mut c = make_catalog(&["go", "go", "go"]);
    assert_eq!(c.len(), 1);
    c.insert_name("go".to_string());
    assert_eq!(c.len(), 1);
}

#[test]
fn toggle_moves_between_lists() {
    let mut c = make_catalog(&["python", "go", "node"]);
    c.toggle("go".to_string());
    assert_eq!(c.available_templates(), vec!["node", "python"]);
    assert_eq!(c.selected_templates(), vec!["go"]);
}

#[test]
fn toggle_twice_restores_membership() {
    let mut c = make_catalog(&["python", "go", "node"]);
    c.toggle("go".to_string());
    c.toggle("go".to_string());
    assert_eq!(c.available_templates(), vec!["go", "node", "python"]);
    assert_eq!(c.selected_templates(), Vec::<String>::new());
}

#[test]
fn toggle_of_unknown_name_registers_it_selected() {
    let mut c = make_catalog(&["go"]);
    c.toggle("zig".to_string());
    assert_eq!(c.selected_templates(), vec!["zig"]);
    assert_eq!(c.available_templates(), vec!["go"]);
}

#[test]
fn filter_hides_non_matching_names() {
    let mut c = make_catalog(&["python", "go", "node"]);
    c.apply_filter(&chars("d"));
    assert_eq!(c.available_templates(), vec!["node"]);
    c.apply_filter(&chars("o"));
    assert_eq!(c.available_templates(), vec!["go", "node", "python"]);
    c.apply_filter(&chars(""));
    assert_eq!(c.available_templates(), vec!["go", "node", "python"]);
}

#[test]
fn filter_does_not_drop_selected_names() {
    let mut c = make_catalog(&["python", "go"]);
    c.toggle("python".to_string());
    c.apply_filter(&chars("go"));
    assert_eq!(c.available_templates(), vec!["go"]);
    assert_eq!(c.selected_templates(), vec!["python"]);
}

#[test]
fn filter_matches_cpp_literally() {
    let mut c = make_catalog(&["c++", "c", "cpp"]);
    c.apply_filter(&chars("c++"));
    assert_eq!(c.available_templates(), vec!["c++"]);
}

#[test]
fn filter_treats_metacharacters_literally() {
    let mut c = make_catalog(&["a(b", "a[b", "a*b", "plain"]);
    c.apply_filter(&chars("a(b"));
    assert_eq!(c.available_templates(), vec!["a(b"]);
    c.apply_filter(&chars("a[b"));
    assert_eq!(c.available_templates(), vec!["a[b"]);
    c.apply_filter(&chars("a*b"));
    assert_eq!(c.available_templates(), vec!["a*b"]);
    c.apply_filter(&chars("\\^$.|?*+()[]{}"));
    assert_eq!(c.available_templates(), Vec::<String>::new());
}

#[test]
fn has_name_reports_membership() {
    let c = make_catalog(&["go", "node"]);
    assert!(c.has_name(&"go".to_string()));
    assert!(!c.has_name(&"rust".to_string()));
}

#[test]
fn insert_names_registers_a_listing() {
    let mut c = Catalog::new();
    c.insert_names(&vec!["python".to_string(), "go".to_string(), "node".to_string()]);
    assert_eq!(c.len(), 3);
    assert_eq!(c.available_templates(), vec!["go", "node", "python"]);
}
