use makeclean::path::{is_valid_component, CanonicalPath};
use makeclean::text::{
    clone_strings, decimal_string, extension_is, join_strings, push_decimal, str_is,
};

fn strings(items: &[&str]) -> Vec<String> {
    items.iter().map(|s| s.to_string()).collect()
}

fn path(steps: &[&str]) -> CanonicalPath {
    CanonicalPath::new(strings(steps)).unwrap()
}

#[test]
fn a_canonical_path_has_no_empty_or_relative_steps() {
    assert!(CanonicalPath::new(strings(&["home", "me"])).is_some());
    assert!(CanonicalPath::new(strings(&[])).is_some());
    assert!(CanonicalPath::new(strings(&["..."])).is_some());
    assert!(CanonicalPath::new(strings(&[".hidden", "a b", "~"])).is_some());
    assert_eq!(CanonicalPath::new(strings(&["home", ""])), None);
    assert_eq!(CanonicalPath::new(strings(&[".", "home"])), None);
    assert_eq!(CanonicalPath::new(strings(&["home", "..", "me"])), None);
    assert_eq!(CanonicalPath::new(strings(&["home/me"])), None);
    assert_eq!(CanonicalPath::new(strings(&["/"])), None);
    assert!(is_valid_component(&"a".to_string()));
    assert!(!is_valid_component(&"a/".to_string()));
}

#[test]
fn a_path_is_written_with_a_separator_before_each_step() {
    assert_eq!(CanonicalPath::root().display(), "/");
    assert_eq!(path(&["home"]).display(), "/home");
    assert_eq!(path(&["home", "me", ".config"]).display(), "/home/me/.config");
}

#[test]
fn a_path_knows_its_parent_and_its_last_step() {
    let p = path(&["home", "me", "demo"]);
    assert_eq!(p.parent(), Some(path(&["home", "me"])));
    assert_eq!(p.file_name(), Some("demo".to_string()));
    assert_eq!(path(&["home"]).parent(), Some(CanonicalPath::root()));
    assert_eq!(CanonicalPath::root().parent(), None);
    assert_eq!(CanonicalPath::root().file_name(), None);
    assert_eq!(p.duplicate(), p);
}

#[test]
fn a_path_is_extended_by_steps() {
    let p = path(&["home"]);
    assert_eq!(p.join("me"), path(&["home", "me"]));
    assert_eq!(p.extend(&strings(&["me", "demo"])), path(&["home", "me", "demo"]));
    assert_eq!(p.extend(&strings(&[])), p);
    assert_eq!(CanonicalPath::root().join("x"), path(&["x"]));
}

#[test]
fn paths_are_compared_step_by_step() {
    let p = path(&["home", "me", "demo"]);
    assert!(p.same_as(&path(&["home", "me", "demo"])));
    assert!(!p.same_as(&path(&["home", "me"])));
    assert!(!p.same_as(&path(&["home", "me", "demo2"])));
    assert!(p.starts_with(&path(&["home", "me"])));
    assert!(p.starts_with(&p));
    assert!(p.starts_with(&CanonicalPath::root()));
    assert!(!p.starts_with(&path(&["home", "m"])));
    assert!(!p.starts_with(&path(&["home", "me", "demo", "src"])));
    assert!(p.has_component("me"));
    assert!(!p.has_component("m"));
    assert!(!CanonicalPath::root().has_component(""));
}

#[test]
fn numbers_are_written_in_decimal() {
    assert_eq!(decimal_string(0), "0");
    assert_eq!(decimal_string(7), "7");
    assert_eq!(decimal_string(10), "10");
    assert_eq!(decimal_string(1234567890), "1234567890");
    assert_eq!(decimal_string(u64::MAX), "18446744073709551615");
    let mut s = "n=".to_string();
    push_decimal(&mut s, 405);
    assert_eq!(s, "n=405");
}

#[test]
fn strings_are_joined_and_compared() {
    assert_eq!(join_strings(&strings(&[]), ", "), "");
    assert_eq!(join_strings(&strings(&["a"]), ", "), "a");
    assert_eq!(join_strings(&strings(&["a", "b", "c"]), ", "), "a, b, c");
    assert_eq!(join_strings(&strings(&["", ""]), "/"), "/");
    assert_eq!(clone_strings(&strings(&["x", "y"])), strings(&["x", "y"]));
    assert!(str_is(&"abc".to_string(), "abc"));
    assert!(!str_is(&"abc".to_string(), "abd"));
    assert!(!str_is(&"abc".to_string(), "ab"));
}

#[test]
fn an_extension_needs_a_name_before_the_dot() {
    assert!(extension_is(&"app.csproj".to_string(), "csproj"));
    assert!(extension_is(&"a.b.csproj".to_string(), "csproj"));
    assert!(extension_is(&"ä.csproj".to_string(), "csproj"));
    assert!(!extension_is(&".csproj".to_string(), "csproj"));
    assert!(!extension_is(&"appcsproj".to_string(), "csproj"));
    assert!(!extension_is(&"app.csproj".to_string(), "proj"));
    assert!(!extension_is(&"app.CSPROJ".to_string(), "csproj"));
    assert!(!extension_is(&"".to_string(), "csproj"));
    assert!(extension_is(&"a.".to_string(), ""));
    assert!(!extension_is(&".".to_string(), ""));
}
