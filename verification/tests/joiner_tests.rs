use collab::joiner::{ConfirmStartError, ConnectToServer, FindProjectRoot, FindProjectRootError, Joiner, Starter};

#[test]
fn joins_start_by_connecting() {
    assert_eq!(Joiner::new().status, ConnectToServer);
}

#[test]
fn start_needs_a_focused_file() {
    let r = Starter::new().after_root_search::<()>(None, Ok(Some("/p".to_string())));
    assert!(matches!(r, Err(FindProjectRootError::NotInFile)));
}

#[test]
fn start_with_root_found_asks_the_user() {
    assert_eq!(Starter::new().status, FindProjectRoot);
    let s = Starter::new().after_root_search::<()>(Some("/p/src/a.rs".to_string()), Ok(Some("/p".to_string()))).unwrap();
    assert_eq!(s.prompt(), "found root of project at '/p'. Start session?");
    assert_eq!(s.after_answer(Some(true)).unwrap(), "/p");
}

#[test]
fn start_without_root_fails() {
    let r = Starter::new().after_root_search::<()>(Some("/p/a.rs".to_string()), Ok(None));
    assert!(matches!(r, Err(FindProjectRootError::CouldntFindRoot(p)) if p == "/p/a.rs"));
    let r = Starter::new().after_root_search::<u8>(Some("/p/a.rs".to_string()), Err(7));
    assert!(matches!(r, Err(FindProjectRootError::FailedLookingForRoot(7))));
}

#[test]
fn user_can_decline_or_dismiss() {
    let s = Starter::new().after_root_search::<()>(Some("/p/a".to_string()), Ok(Some("/p".to_string()))).unwrap();
    assert_eq!(s.after_answer(Some(false)).unwrap_err(), ConfirmStartError::UserCancelled);
    let s = Starter::new().after_root_search::<()>(Some("/p/a".to_string()), Ok(Some("/p".to_string()))).unwrap();
    assert_eq!(s.after_answer(None).unwrap_err(), ConfirmStartError::UserDismissed);
}
