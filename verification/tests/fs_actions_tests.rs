use collab::fs_actions::{binary_edit_target, binary_file_change, file_node_contents, BinaryEditTargetError, FsNodeContents, ProjectFileContents};
use collab::event_filter::NodeKind;
use collab::fs_actions::{creation_site, move_target_parent};
use collab::fs_actions::{
    binary_change, project_write_plan, push_node_creation, push_resolved_actions, retarget_exec, FileContents, NamedNode,
    ProjectNode, Renames, ResolvedFsAction, SyncAction,
};

fn describe(a: &ResolvedFsAction) -> String {
    match a {
        ResolvedFsAction::CreateDirectory(p) => format!("mkdir {p}"),
        ResolvedFsAction::CreateFile(p, FileContents::Text(t)) => format!("text {p} {t}"),
        ResolvedFsAction::CreateFile(p, FileContents::Binary(b)) => format!("bin {p} {b:?}"),
        ResolvedFsAction::CreateFile(p, FileContents::Symlink(t)) => format!("link {p} {t}"),
        ResolvedFsAction::DeleteNode(p) => format!("rm {p}"),
        ResolvedFsAction::MoveNode(a, b) => format!("mv {a} {b}"),
    }
}

fn tree() -> ProjectNode {
    ProjectNode::Directory(
        "/p/src".to_string(),
        vec![
            ProjectNode::File("/p/src/lib.rs".to_string(), FileContents::Text("fn f() {}".to_string())),
            ProjectNode::Directory(
                "/p/src/bin".to_string(),
                vec![ProjectNode::File("/p/src/bin/x".to_string(), FileContents::Binary(vec![1, 2]))],
            ),
            ProjectNode::File("/p/src/l".to_string(), FileContents::Symlink("/p/src/lib.rs".to_string())),
        ],
    )
}

#[test]
fn creation_lists_directories_before_children() {
    let mut actions = Vec::new();
    push_node_creation(&tree(), &mut actions);
    let got: Vec<String> = actions.iter().map(describe).collect();
    assert_eq!(
        got,
        vec![
            "mkdir /p/src",
            "text /p/src/lib.rs fn f() {}",
            "mkdir /p/src/bin",
            "bin /p/src/bin/x [1, 2]",
            "link /p/src/l /p/src/lib.rs",
        ]
    );
}

#[test]
fn creation_appends_after_existing_actions() {
    let mut actions = vec![ResolvedFsAction::DeleteNode("/p/old".to_string())];
    push_node_creation(&ProjectNode::File("/p/a".to_string(), FileContents::Text(String::new())), &mut actions);
    let got: Vec<String> = actions.iter().map(describe).collect();
    assert_eq!(got, vec!["rm /p/old", "text /p/a "]);
}

#[test]
fn plain_actions_map_one_to_one() {
    let mut actions = Vec::new();
    assert!(push_resolved_actions(SyncAction::Delete("/p/a".to_string()), &mut actions).is_none());
    assert!(push_resolved_actions(SyncAction::Move("/p/a".to_string(), "/p/b/a".to_string()), &mut actions).is_none());
    assert!(push_resolved_actions(SyncAction::Rename("/p/b".to_string(), "/p/c".to_string()), &mut actions).is_none());
    let got: Vec<String> = actions.iter().map(describe).collect();
    assert_eq!(got, vec!["rm /p/a", "mv /p/a /p/b/a", "mv /p/b /p/c"]);
}

#[test]
fn create_and_resolve_moves_existing_then_creates_renamed() {
    let mut actions = Vec::new();
    let node = ProjectNode::File("/p/lib.rs".to_string(), FileContents::Text("new".to_string()));
    let renames = Renames { conflicting: "lib.rs-alice".to_string(), existing: "lib.rs-bob".to_string() };
    let r = push_resolved_actions(SyncAction::CreateAndResolve(node, renames), &mut actions).unwrap();
    assert_eq!(r.conflicting, "lib.rs-alice");
    assert_eq!(r.existing, "lib.rs-bob");
    let got: Vec<String> = actions.iter().map(describe).collect();
    assert_eq!(got, vec!["mv /p/lib.rs /p/lib.rs-bob", "text /p/lib.rs-alice new"]);
}

#[test]
fn create_and_resolve_directory_moves_its_children_along() {
    let mut actions = Vec::new();
    let node = ProjectNode::Directory(
        "/p/d".to_string(),
        vec![
            ProjectNode::File("/p/d/f".to_string(), FileContents::Text("x".to_string())),
            ProjectNode::Directory(
                "/p/d/e".to_string(),
                vec![ProjectNode::File("/p/d/e/g".to_string(), FileContents::Text("y".to_string()))],
            ),
        ],
    );
    let renames = Renames { conflicting: "d-1".to_string(), existing: "d-2".to_string() };
    push_resolved_actions(SyncAction::CreateAndResolve(node, renames), &mut actions);
    let got: Vec<String> = actions.iter().map(describe).collect();
    assert_eq!(
        got,
        vec!["mv /p/d /p/d-2", "mkdir /p/d-1", "text /p/d-1/f x", "mkdir /p/d-1/e", "text /p/d-1/e/g y"]
    );
}

#[test]
fn move_and_resolve_renames_both_in_destination_directory() {
    let mut actions = Vec::new();
    let renames = Renames { conflicting: "a-xyz".to_string(), existing: "a-abc".to_string() };
    let r = push_resolved_actions(
        SyncAction::MoveAndResolve("/p/src/a".to_string(), "/p/dst/a".to_string(), renames),
        &mut actions,
    );
    assert!(r.is_some());
    let got: Vec<String> = actions.iter().map(describe).collect();
    assert_eq!(got, vec!["mv /p/dst/a /p/dst/a-abc", "mv /p/src/a /p/dst/a-xyz"]);
}

#[test]
fn rename_and_resolve_renames_both() {
    let mut actions = Vec::new();
    let renames = Renames { conflicting: "b-1".to_string(), existing: "b-2".to_string() };
    push_resolved_actions(SyncAction::RenameAndResolve("/p/a".to_string(), "/p/b".to_string(), renames), &mut actions);
    let got: Vec<String> = actions.iter().map(describe).collect();
    assert_eq!(got, vec!["mv /p/b /p/b-2", "mv /p/a /p/b-1"]);
}

#[test]
fn retarget_replaces_last_component() {
    assert_eq!(retarget_exec("/a/b/c", "d"), "/a/b/d");
    assert_eq!(retarget_exec("/a", "b"), "/b");
    assert_eq!(retarget_exec("/", "b"), "/b");
}

#[test]
fn write_plan_joins_names_under_root() {
    let children = vec![
        NamedNode::Directory(
            "src".to_string(),
            vec![NamedNode::File("main.rs".to_string(), FileContents::Text("fn main() {}".to_string()))],
        ),
        NamedNode::File("README".to_string(), FileContents::Binary(vec![0xff])),
    ];
    let plan = project_write_plan("/home/u/proj", &children);
    let got: Vec<String> = plan.iter().map(describe).collect();
    assert_eq!(
        got,
        vec![
            "mkdir /home/u/proj/src",
            "text /home/u/proj/src/main.rs fn main() {}",
            "bin /home/u/proj/README [255]",
        ]
    );
}

#[test]
fn write_plan_of_empty_project_is_empty() {
    assert!(project_write_plan("/x", &Vec::new()).is_empty());
}

#[test]
fn binary_change_only_when_contents_differ() {
    assert_eq!(binary_change(&vec![1, 2, 3], vec![1, 2, 3]), None);
    assert_eq!(binary_change(&vec![1, 2, 3], vec![1, 2, 4]), Some(vec![1, 2, 4]));
    assert_eq!(binary_change(&vec![1, 2], vec![1, 2, 3]), Some(vec![1, 2, 3]));
    assert_eq!(binary_change(&vec![], vec![]), None);
}

#[test]
fn creation_and_move_sites() {
    assert_eq!(creation_site("/home/u/p/src/a.rs", "/home/u/p"), ("a.rs".to_string(), "/src".to_string()));
    assert_eq!(creation_site("/home/u/p/a.rs", "/home/u/p"), ("a.rs".to_string(), "/".to_string()));
    assert_eq!(move_target_parent("/home/u/p/d/e", "/home/u/p"), "/d");
}

#[test]
fn file_contents_are_text_when_utf8() {
    assert!(matches!(file_node_contents("héllo".as_bytes().to_vec()), FsNodeContents::Text(s) if s == "héllo"));
    assert!(matches!(file_node_contents(vec![0xff, 0x00]), FsNodeContents::Binary(b) if b == vec![0xff, 0x00]));
    assert!(matches!(file_node_contents(Vec::new()), FsNodeContents::Text(s) if s.is_empty()));
}

#[test]
fn binary_file_changes() {
    let before = ProjectFileContents::Binary(vec![1, 2]);
    assert_eq!(binary_file_change(&before, FsNodeContents::Binary(vec![1, 3])), Some(vec![1, 3]));
    assert_eq!(binary_file_change(&before, FsNodeContents::Binary(vec![1, 2])), None);
    assert_eq!(binary_file_change(&before, FsNodeContents::Text("x".to_string())), None);
    assert_eq!(binary_file_change(&ProjectFileContents::Text("x".to_string()), FsNodeContents::Binary(vec![1])), None);
}

#[test]
fn binary_edits_need_a_file() {
    assert!(binary_edit_target("/p/a".to_string(), Some(NodeKind::File)).is_ok());
    assert!(matches!(binary_edit_target("/p/a".to_string(), None), Err(BinaryEditTargetError::NoNodeAtPath(p)) if p == "/p/a"));
    assert!(matches!(
        binary_edit_target("/p/a".to_string(), Some(NodeKind::Directory)),
        Err(BinaryEditTargetError::DirectoryAtPath(_))
    ));
    assert!(matches!(
        binary_edit_target("/p/a".to_string(), Some(NodeKind::Symlink)),
        Err(BinaryEditTargetError::SymlinkAtPath(_))
    ));
}
