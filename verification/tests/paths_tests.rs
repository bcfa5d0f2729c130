use collab::paths::{
    concat_exec, is_absolute_exec, join_exec, node_name_exec, parent_exec, starts_with_exec, strip_prefix_exec, tilde_path,
};

#[test]
fn joins_names() {
    assert_eq!(join_exec("/a", "b"), "/a/b");
    assert_eq!(join_exec("/", "b"), "/b");
    assert_eq!(join_exec("/a/", "b"), "/a/b");
}

#[test]
fn parents_and_names() {
    assert_eq!(parent_exec("/a/b"), Some("/a".to_string()));
    assert_eq!(parent_exec("/a"), Some("/".to_string()));
    assert_eq!(parent_exec("/"), None);
    assert_eq!(node_name_exec("/a/b.rs"), Some("b.rs".to_string()));
    assert_eq!(node_name_exec("/"), None);
}

#[test]
fn join_then_parent_gives_back_the_directory() {
    let joined = join_exec("/home/u", "proj");
    assert_eq!(parent_exec(&joined), Some("/home/u".to_string()));
    assert_eq!(node_name_exec(&joined), Some("proj".to_string()));
}

#[test]
fn absolute_paths() {
    assert!(is_absolute_exec("/x"));
    assert!(!is_absolute_exec("x/y"));
    assert!(!is_absolute_exec(""));
}

#[test]
fn starts_with_compares_components() {
    assert!(starts_with_exec("/a/b", "/a"));
    assert!(starts_with_exec("/a", "/a"));
    assert!(starts_with_exec("/a/b", "/"));
    assert!(!starts_with_exec("/ab", "/a"));
    assert!(!starts_with_exec("/a", "/a/b"));
}

#[test]
fn tilde_shortens_paths_under_home() {
    assert_eq!(tilde_path("/home/u/proj", Some("/home/u")), "~/proj");
    assert_eq!(tilde_path("/home/u", Some("/home/u")), "/home/u");
    assert_eq!(tilde_path("/home/user2", Some("/home/u")), "/home/user2");
    assert_eq!(tilde_path("/x", None), "/x");
}

#[test]
fn strip_prefix_then_concat_gives_back_the_path() {
    assert_eq!(strip_prefix_exec("/home/u/p/src/a.rs", "/home/u/p"), Some("/src/a.rs".to_string()));
    assert_eq!(strip_prefix_exec("/home/u/p", "/home/u/p"), Some("/".to_string()));
    assert_eq!(strip_prefix_exec("/a/b", "/"), Some("/a/b".to_string()));
    assert_eq!(strip_prefix_exec("/home/u/q", "/home/u/p"), None);
    for (p, base) in [("/home/u/p/src/a.rs", "/home/u/p"), ("/home/u/p", "/home/u/p"), ("/a/b", "/")] {
        let rel = strip_prefix_exec(p, base).unwrap();
        assert_eq!(concat_exec(base, &rel), p);
    }
}

#[test]
fn concat_of_root_path() {
    assert_eq!(concat_exec("/p", "/"), "/p");
    assert_eq!(concat_exec("/", "/a"), "/a");
    assert_eq!(concat_exec("/p", "/a/b"), "/p/a/b");
}
