use nats_bridge::subject::{qualify, unqualify};

#[test]
fn qualify_puts_root_and_dot_in_front() {
    assert_eq!(qualify("root", "x"), "root.x");
    assert_eq!(qualify("subjects", "demo"), "subjects.demo");
    assert_eq!(qualify("a.b", "c.d"), "a.b.c.d");
}

#[test]
fn qualify_without_root_is_the_subject() {
    assert_eq!(qualify("", "demo"), "demo");
    assert_eq!(qualify("", ""), "");
}

#[test]
fn qualify_keeps_an_empty_subject_behind_the_dot() {
    assert_eq!(qualify("root", ""), "root.");
}

#[test]
fn unqualify_removes_root_and_dot() {
    assert_eq!(unqualify("root", "root.x"), "x");
    assert_eq!(unqualify("a.b", "a.b.c.d"), "c.d");
}

#[test]
fn unqualify_without_root_is_the_wire_subject() {
    assert_eq!(unqualify("", "demo"), "demo");
    assert_eq!(unqualify("", "root.x"), "root.x");
}

#[test]
fn unqualify_measures_the_prefix() {
    assert_eq!(unqualify("root", "rest-of-it"), "of-it");
    assert_eq!(unqualify("root", "root."), "");
    assert_eq!(unqualify("root", "root"), "");
    assert_eq!(unqualify("root", "ro"), "");
    assert_eq!(unqualify("root", ""), "");
}

#[test]
fn unqualify_counts_characters() {
    assert_eq!(unqualify("wörld", "wörld.größe"), "größe");
}

#[test]
fn qualify_then_unqualify_is_identity() {
    let roots = ["", "root", "a.b", "wörld", " ", "."];
    let subjects = ["", "x", "demo", "a.b.c", "größe", "root", "root.x"];
    for root in roots {
        for subject in subjects {
            assert_eq!(unqualify(root, &qualify(root, subject)), subject, "{:?} {:?}", root, subject);
        }
    }
}
