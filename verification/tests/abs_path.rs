use tig::abs_path::AbsPath;

#[test]
fn root_has_no_components_and_no_parent() {
    let root = AbsPath::root();
    assert_eq!(root.depth(), 0);
    assert!(!root.has_parent());
    assert_eq!(root.components(), &Vec::<String>::new());
}

#[test]
fn push_appends_and_pop_steps_to_the_parent() {
    let mut p = AbsPath::from_components(vec!["home".to_string()]);
    p.push("user".to_string());
    assert_eq!(p.depth(), 2);
    assert!(p.has_parent());
    assert_eq!(p.components(), &vec!["home".to_string(), "user".to_string()]);
    p.pop();
    assert_eq!(p.components(), &vec!["home".to_string()]);
    p.pop();
    assert_eq!(p.depth(), 0);
    assert!(!p.has_parent());
}

#[test]
fn clone_denotes_the_same_path() {
    let p = AbsPath::from_components(vec!["tmp".to_string(), "empty".to_string()]);
    let q = p.clone();
    assert_eq!(p, q);
    assert_eq!(q.components(), &vec!["tmp".to_string(), "empty".to_string()]);
}
