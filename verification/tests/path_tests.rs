use crame::{normalize_path, ProjectPath};

fn rel_path(segs: &[&str]) -> ProjectPath {
    let mut p = ProjectPath::new_relative();
    for s in segs {
        p.push((*s).to_string());
    }
    p
}

fn abs_path(segs: &[&str]) -> ProjectPath {
    let mut p = ProjectPath::new_absolute();
    for s in segs {
        p.push((*s).to_string());
    }
    p
}

#[test]
fn push_pop_depth() {
    let mut p = rel_path(&["a"]);
    assert_eq!(1, p.depth());
    p.push("b".to_string());
    assert_eq!(2, p.depth());
    assert_eq!("a/b", p.display());
    p.pop();
    assert_eq!(1, p.depth());
    assert_eq!("a", p.display());
}

#[test]
fn display_absolute() {
    assert_eq!("/tmp/x", abs_path(&["tmp", "x"]).display());
    assert_eq!("/", abs_path(&[]).display());
    assert_eq!("", rel_path(&[]).display());
}

#[test]
fn normalize_resolves_dots() {
    let p = abs_path(&["a", ".", "b", "..", "c"]);
    let q = normalize_path(&p).expect("normalizes");
    assert_eq!("/a/c", q.display());
}

#[test]
fn normalize_keeps_leading_parents_on_relative() {
    let p = rel_path(&["..", "a"]);
    let q = normalize_path(&p).expect("normalizes");
    assert_eq!("../a", q.display());
}

#[test]
fn normalize_rejects_escape_above_root() {
    let p = abs_path(&[".."]);
    let err = normalize_path(&p).expect_err("cannot go above the root");
    assert_eq!("unable to normalize path: `/..`", err.message());
}
