use flakeup::paths::join;
use std::path::Path;

fn std_join(base: &str, rel: &str) -> String {
    Path::new(base).join(rel).to_str().unwrap().to_string()
}

#[test]
fn join_relative() {
    assert_eq!(join("/home/u", "dofi"), "/home/u/dofi");
    assert_eq!(join("/home/u/", "dofi"), "/home/u/dofi");
    assert_eq!(join("", "dofi"), "dofi");
    assert_eq!(join("/", "etc"), "/etc");
    assert_eq!(join("/home/u", "a/b"), "/home/u/a/b");
}

#[test]
fn join_absolute_replaces() {
    assert_eq!(join("/home/u", "/etc/nixos"), "/etc/nixos");
    assert_eq!(join("", "/x"), "/x");
}

#[test]
fn join_empty_relative_adds_separator() {
    assert_eq!(join("/home/u", ""), "/home/u/");
}

#[test]
fn join_agrees_with_std() {
    let bases = ["/home/u", "/home/u/", "", "/", "rel", "ü/ñ"];
    let rels = ["willow", "/etc", "", "a/b/", "./x", "..", "é"];
    for b in bases.iter() {
        for r in rels.iter() {
            assert_eq!(join(b, r), std_join(b, r), "base {:?} rel {:?}", b, r);
        }
    }
}
