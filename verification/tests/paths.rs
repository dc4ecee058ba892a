use neworder::paths::{join, model_path};

#[test]
fn model_paths_are_appended() {
    let paths = vec!["examples/people".to_string(), "lib".to_string()];
    assert_eq!(model_path(None, &paths), "examples/people:lib");
    assert_eq!(model_path(Some("/usr/lib/py"), &paths), "/usr/lib/py:examples/people:lib");
    assert_eq!(model_path(Some("a"), &vec![]), "a:");
    assert_eq!(model_path(None, &vec![]), "");
}

#[test]
fn join_matches_std() {
    let v = vec!["a".to_string(), "".to_string(), "bc".to_string()];
    assert_eq!(join(&v, ":"), v.join(":"));
    assert_eq!(join(&vec![], ", "), "");
    assert_eq!(join(&vec!["x".to_string()], ", "), "x");
}
