use collab::join_flow::{project_request_id, project_request_target, FragmentInfo, MessageId, ProjectReception, ReceptionStep};
use collab::peers::Peer;

#[test]
fn request_goes_to_first_other_peer() {
    let peers = vec![Peer { id: 4, handle: "d".to_string() }, Peer { id: 2, handle: "b".to_string() }];
    assert_eq!(project_request_target(&peers), 4);
    assert_eq!(project_request_id(9), MessageId { sender_id: 9, message_seq: 0 });
}

#[test]
fn unrelated_fragments_are_buffered() {
    let mut rx = ProjectReception::new(project_request_id(1));
    let other = FragmentInfo { response_to: None, payload_len: 10, message_len: 10, completes_project: false };
    assert_eq!(rx.on_fragment(other), ReceptionStep::Buffer);
    let other_request = FragmentInfo {
        response_to: Some(MessageId { sender_id: 1, message_seq: 1 }),
        payload_len: 10,
        message_len: 10,
        completes_project: true,
    };
    assert_eq!(rx.on_fragment(other_request), ReceptionStep::Buffer);
    assert_eq!(rx.bytes_received(), 0);
}

#[test]
fn answer_fragments_accumulate_until_done() {
    let id = project_request_id(1);
    let mut rx = ProjectReception::new(id);
    let part = |len, done| FragmentInfo { response_to: Some(id), payload_len: len, message_len: 100, completes_project: done };
    assert_eq!(rx.on_fragment(part(40, false)), ReceptionStep::Progress(40, 100));
    assert_eq!(rx.on_fragment(part(35, false)), ReceptionStep::Progress(75, 100));
    assert_eq!(rx.on_fragment(part(25, true)), ReceptionStep::Done(100, 100));
    assert_eq!(rx.bytes_received(), 100);
}
