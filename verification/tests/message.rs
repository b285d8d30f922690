use arzmq::message::{Message, MultipartMessage};
use arzmq::ZmqError;

fn three_parts() -> MultipartMessage {
    vec!["asdf".into(), vec![].into(), "qwertz".into()].into()
}

#[test]
fn with_size_creates_message_with_correct_size() {
    let msg = Message::with_size(42).unwrap();
    assert_eq!(msg.len(), 42);
}

#[test]
fn bytes_returns_correct_bytes() {
    let msg: Message = "asdf".into();
    assert_eq!(msg.bytes(), "asdf".as_bytes());
}

#[test]
fn message_is_empty_for_empty_message() {
    let msg = Message::new();
    assert!(msg.is_empty());
}

#[test]
fn is_empty_for_message_with_data() {
    let msg: Message = "asdf".into();
    assert!(!msg.is_empty());
}

#[test]
fn get_more_for_single_message() {
    let msg = Message::new();
    assert!(!msg.get_more());
}

#[test]
fn message_set_routing_id_sets_routing_id() -> Result<(), ZmqError> {
    let mut msg = Message::new();
    msg.set_routing_id(123)?;
    assert_eq!(msg.routing_id(), Some(123));
    Ok(())
}

#[test]
fn routing_id_defaults_to_none() {
    let msg = Message::new();
    assert_eq!(msg.routing_id(), None);
}

#[test]
fn set_group_sets_group() -> Result<(), ZmqError> {
    let mut msg = Message::new();
    msg.set_group("asdf")?;
    assert_eq!(msg.group(), Some("asdf".to_string()));
    Ok(())
}

#[test]
fn group_defaults_to_none() {
    let msg = Message::new();
    assert_eq!(msg.group(), None);
}

#[test]
fn message_can_be_cloned() {
    let msg: Message = "asdf".into();
    assert_eq!(msg.clone().to_string(), "asdf");
}

#[test]
fn message_can_be_cloned_with_routing_id_and_group() -> Result<(), ZmqError> {
    let mut msg: Message = "asdf".into();
    msg.set_routing_id(123)?;
    msg.set_group("asdf")?;

    let cloned_msg = msg.clone();
    assert_eq!(cloned_msg.to_string(), "asdf");
    assert_eq!(cloned_msg.routing_id(), Some(123));
    assert_eq!(cloned_msg.group(), Some("asdf".into()));
    Ok(())
}

#[test]
fn set_routing_id_rejects_zero() {
    let mut msg = Message::new();
    assert_eq!(msg.set_routing_id(0), Err(ZmqError::InvalidArgument));
    assert_eq!(msg.routing_id(), None);
}

#[test]
fn set_group_rejects_too_long_group() {
    let mut msg = Message::new();
    let long = "a".repeat(256);
    assert_eq!(msg.set_group(&long), Err(ZmqError::InvalidArgument));
    assert_eq!(msg.group(), None);
    let longest = "a".repeat(255);
    assert_eq!(msg.set_group(&longest), Ok(()));
    assert_eq!(msg.group(), Some(longest));
}

#[test]
fn set_more_sets_more() {
    let mut msg = Message::new();
    msg.set_more(true);
    assert!(msg.get_more());
    msg.set_more(false);
    assert!(!msg.get_more());
}

#[test]
fn from_parts_keeps_properties() {
    let msg = Message::from_parts(b"data".to_vec(), true, 7, "grp");
    assert_eq!(msg.bytes(), b"data".to_vec());
    assert!(msg.get_more());
    assert_eq!(msg.routing_id(), Some(7));
    assert_eq!(msg.group(), Some("grp".to_string()));
}

#[test]
fn with_size_zero_fills() {
    let msg = Message::with_size(3).unwrap();
    assert_eq!(msg.bytes(), vec![0u8, 0, 0]);
}

#[test]
fn empty_multipart_message_is_empty() {
    let msg = MultipartMessage::new();
    assert!(msg.is_empty());
}

#[test]
fn get_for_empty_messahge() {
    let msg = MultipartMessage::new();
    assert!(msg.get(0).is_none());
}

#[test]
fn get_for_non_empty_message() {
    let msg = three_parts();
    assert_eq!(msg.get(0).unwrap().to_string(), "asdf");
    assert_eq!(msg.get(2).unwrap().to_string(), "qwertz");
}

#[test]
fn pop_front_for_empty_message() {
    let mut msg = MultipartMessage::new();
    assert!(msg.pop_front().is_none());
}

#[test]
fn pop_front_for_non_empty_message() {
    let mut msg = three_parts();
    assert!(msg.pop_front().is_some_and(|message| message.to_string() == "asdf"));
}

#[test]
fn pop_back_for_empty_message() {
    let mut msg = MultipartMessage::new();
    assert!(msg.pop_back().is_none());
}

#[test]
fn pop_back_for_non_empty_message() {
    let mut msg = three_parts();
    assert!(msg.pop_back().is_some_and(|message| message.to_string() == "qwertz"));
}

#[test]
fn push_front_for_empty_message() {
    let mut msg = MultipartMessage::new();
    msg.push_front("asdf".into());
    assert!(msg.get(0).is_some_and(|message| message.to_string() == "asdf"));
}

#[test]
fn push_front_for_non_empty_message() {
    let mut msg: MultipartMessage = vec!["qwertz".into()].into();
    msg.push_front("asdf".into());
    assert!(msg.get(0).is_some_and(|message| message.to_string() == "asdf"));
    assert!(msg.get(1).is_some_and(|message| message.to_string() == "qwertz"));
}

#[test]
fn push_back_for_empty_message() {
    let mut msg = MultipartMessage::new();
    msg.push_back("asdf".into());
    assert!(msg.get(0).is_some_and(|message| message.to_string() == "asdf"));
}

#[test]
fn push_back_for_non_empty_message() {
    let mut msg: MultipartMessage = vec!["asdf".into()].into();
    msg.push_back("qwertz".into());
    assert!(msg.get(0).is_some_and(|message| message.to_string() == "asdf"));
    assert!(msg.get(1).is_some_and(|message| message.to_string() == "qwertz"));
}

#[test]
fn is_empty_for_empty_message() {
    let msg = MultipartMessage::new();
    assert!(msg.is_empty());
}

#[test]
fn is_empty_for_non_empty_message() {
    let msg = three_parts();
    assert!(!msg.is_empty());
}

#[test]
fn iter_for_empty_message() {
    let msg = MultipartMessage::new();
    assert!(msg.iter().next().is_none());
}

#[test]
fn iter_for_non_empty_message() {
    let msg = three_parts();
    assert_eq!(
        msg.iter().map(|message| message.to_string()).collect::<Vec<_>>(),
        vec!["asdf", "", "qwertz"]
    );
}

#[test]
fn len_for_empty_message() {
    let msg = MultipartMessage::new();
    assert_eq!(msg.len(), 0);
}

#[test]
fn len_for_non_empty_message() {
    let msg = three_parts();
    assert_eq!(msg.len(), 3);
}

#[test]
fn drain_for_empty_message() {
    let mut msg = MultipartMessage::new();
    let len = msg.len();
    assert!(msg.drain(0, len).is_empty());
}

#[test]
fn drain_for_non_empty_message() {
    let mut msg = three_parts();
    let len = msg.len();
    assert_eq!(
        msg.drain(0, len).iter().map(|message| message.to_string()).collect::<Vec<_>>(),
        vec!["asdf", "", "qwertz"]
    );
    assert!(msg.is_empty());
}

#[test]
fn drain_of_a_middle_range_keeps_the_rest() {
    let mut msg = three_parts();
    let drained = msg.drain(1, 2);
    assert_eq!(drained.len(), 1);
    assert!(drained[0].is_empty());
    assert_eq!(msg.len(), 2);
    assert_eq!(msg.get(0).unwrap().to_string(), "asdf");
    assert_eq!(msg.get(1).unwrap().to_string(), "qwertz");
}

#[test]
fn multipart_can_be_constructed_from_single_message() {
    let msg: Message = "asdf".into();
    let multipart: MultipartMessage = msg.into();
    assert_eq!(multipart.len(), 1);
    assert!(multipart.get(0).is_some_and(|message| message.to_string() == "asdf"));
}

#[test]
fn multipart_can_be_constructed_from_multiple_messages() {
    let msg: Message = "asdf".into();
    let msg2: Message = vec![].into();
    let msg3: Message = "qwertz".into();
    let multipart: MultipartMessage = vec![msg, msg2, msg3].into();
    assert_eq!(multipart.len(), 3);
    assert!(multipart.get(0).is_some_and(|message| message.to_string() == "asdf"));
    assert!(multipart.get(1).is_some_and(|message| message.is_empty()));
    assert!(multipart.get(2).is_some_and(|message| message.to_string() == "qwertz"));
}

#[test]
fn multipart_into_iter_for_references_returns_correct_values() {
    let multipart = three_parts();
    assert_eq!(
        (&multipart).into_iter().map(|message| message.to_string()).collect::<Vec<_>>(),
        vec!["asdf", "", "qwertz"]
    )
}

#[test]
fn multipart_into_iter_returns_correct_values() {
    let multipart = three_parts();
    assert_eq!(
        multipart.into_iter().map(|message| message.to_string()).collect::<Vec<_>>(),
        vec!["asdf", "", "qwertz"]
    )
}

#[test]
fn receive_part_reports_whether_more_follow() {
    let mut multipart = MultipartMessage::new();
    let mut first: Message = "a".into();
    first.set_more(true);
    assert!(multipart.receive_part(first));
    let last: Message = "b".into();
    assert!(!multipart.receive_part(last));
    assert_eq!(multipart.len(), 2);
}

#[test]
fn to_string_replaces_invalid_sequences() {
    let msg: Message = vec![b'a', 0xff, b'b'].into();
    assert_eq!(msg.to_string(), "a\u{FFFD}b");
}

#[test]
fn replace_swaps_a_part() {
    let mut msg = three_parts();
    let old = msg.replace(1, "middle".into());
    assert!(old.is_some_and(|m| m.is_empty()));
    assert_eq!(
        msg.iter().map(|message| message.to_string()).collect::<Vec<_>>(),
        vec!["asdf", "middle", "qwertz"]
    );
    assert!(msg.replace(3, "none".into()).is_none());
    assert_eq!(msg.len(), 3);
}

#[test]
fn receiving_stops_at_the_last_part() {
    let mut incoming: Vec<Message> = vec!["a".into(), "b".into(), "c".into(), "next".into()];
    incoming[0].set_more(true);
    incoming[1].set_more(true);
    let mut multipart = MultipartMessage::new();
    for part in incoming {
        if !multipart.receive_part(part) {
            break;
        }
    }
    assert_eq!(
        multipart.iter().map(|message| message.to_string()).collect::<Vec<_>>(),
        vec!["a", "b", "c"]
    );
}
