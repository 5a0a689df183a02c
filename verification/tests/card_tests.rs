use packet::widgets::transfer_card::CardButton;
use packet::objects::file_transfer::{FileTransferObject, TransferKind as FileTransferKind};
use packet::objects::{ChannelMessage as EventMessage, DataTransferObject, TransferKind};
use packet::protocol::{ChannelAction, ChannelMessage, DeviceInfo, EndpointInfo, OutboundPayload, State, TransferMetadata};
use packet::widgets::file_card::{create_file_card, FileRemoval};
use packet::widgets::recipient_card::{
    create_recipient_card, endpoint_name_or, handle_recipient_card_clicked, send_info_for, set_row_activatable,
    update_recipient, RecipientStatus,
};
use packet::widgets::transfer_card::{
    can_send_to, card_button_request, initial_caption, BadgeChange, CaptionKind, CardCaption, CardResult,
    TransferCard,
};

fn meta(files: Option<&[&str]>, description: Option<&str>, total: u64, acked: u64) -> TransferMetadata {
    TransferMetadata {
        source: Some(DeviceInfo { name: "Phone".to_string() }),
        pin_code: None,
        files: files.map(|f| f.iter().map(|s| s.to_string()).collect()),
        text_description: description.map(|d| d.to_string()),
        text_payload: None,
        text_type: None,
        total_bytes: total,
        ack_bytes: acked,
    }
}

fn message(state: Option<State>, m: Option<TransferMetadata>) -> ChannelMessage {
    ChannelMessage { id: "c1".to_string(), action: None, rtype: None, state, meta: m }
}

fn device(present: bool, name: Option<&str>) -> EndpointInfo {
    EndpointInfo {
        fullname: "full".to_string(),
        id: "dev-1".to_string(),
        name: name.map(|n| n.to_string()),
        ip: Some("10.0.0.2".to_string()),
        port: Some("5200".to_string()),
        present: if present { Some(true) } else { None },
    }
}

#[test]
fn a_receiving_card_follows_its_transfer() {
    let card = TransferCard::new(FileTransferKind::Receive);
    let files = ["a", "b"];
    let u = card.update(&message(Some(State::ReceivingFiles), Some(meta(Some(&files), None, 200, 50))));
    assert_eq!(u.show_accept_decline, Some(false));
    assert_eq!(u.show_cancel, Some(true));
    assert_eq!(u.progress, Some((50, 200)));
    assert_eq!(u.caption, Some(CaptionKind::Receiving));
    assert!(u.lower_badge);
    let u = card.update(&message(Some(State::Rejected), None));
    assert_eq!(u.result, Some(CardResult::Rejected));
    assert_eq!(u.show_clear, Some(true));
    assert!(u.lower_badge);
    let u = card.update(&message(Some(State::Finished), None));
    assert_eq!(u.result, Some(CardResult::Finished));
    assert_eq!(u.caption, Some(CaptionKind::Received));
    assert!(!u.lower_badge);
    let u = card.update(&message(None, None));
    assert_eq!(u.result, None);
    assert_eq!(u.caption, None);
}

#[test]
fn a_sending_card_offers_a_retry_after_failing() {
    let card = TransferCard::new(FileTransferKind::Send);
    let u = card.update(&message(Some(State::SentIntroduction), Some(meta(Some(&["a"]), None, 0, 0))));
    assert_eq!(u.show_send, Some(false));
    assert_eq!(u.progress, None);
    assert_eq!(u.caption, Some(CaptionKind::Sending));
    let u = card.update(&message(Some(State::Disconnected), None));
    assert_eq!(u.result, Some(CardResult::UnexpectedDisconnection));
    assert!(u.send_is_retry);
    assert_eq!(u.show_send, Some(true));
    let u = card.update(&message(Some(State::Finished), None));
    assert_eq!(u.caption, Some(CaptionKind::Sent));
}

#[test]
fn card_captions() {
    let card = TransferCard::new(FileTransferKind::Receive);
    let files = message(Some(State::ReceivingFiles), Some(meta(Some(&["a", "b", "c"]), None, 1, 0)));
    assert!(matches!(card.caption(CaptionKind::Receiving, &files), CardCaption::ReceivingFiles { count: 3 }));
    assert!(matches!(card.caption(CaptionKind::Received, &files), CardCaption::ReceivedFiles { count: 3 }));
    let text = message(Some(State::ReceivingFiles), Some(meta(None, Some("a note"), 1, 0)));
    match card.caption(CaptionKind::Received, &text) {
        CardCaption::ReceivedText { description } => assert_eq!(description, "a note"),
        other => panic!("unexpected caption {:?}", other),
    }
    match initial_caption(FileTransferKind::Receive, &text, 0) {
        CardCaption::WantsToShareText { description } => assert_eq!(description, "a note"),
        other => panic!("unexpected caption {:?}", other),
    }
    assert!(matches!(initial_caption(FileTransferKind::Receive, &files, 0), CardCaption::WantsToShareFiles { count: 3 }));
    assert!(matches!(initial_caption(FileTransferKind::Send, &message(None, None), 4), CardCaption::ReadyToShare { count: 4 }));
    let sender = TransferCard::new(FileTransferKind::Send);
    assert!(matches!(sender.caption(CaptionKind::Sent, &files), CardCaption::SentFiles { count: 3 }));
}

#[test]
fn the_badge_is_lowered_once() {
    let mut card = TransferCard::new(FileTransferKind::Receive);
    assert_eq!(card.lower_notification_count(2), BadgeChange { new_count: Some(1), clear_attention: false });
    assert_eq!(card.lower_notification_count(1), BadgeChange { new_count: None, clear_attention: false });
    let mut other = TransferCard::new(FileTransferKind::Receive);
    assert_eq!(other.lower_notification_count(1), BadgeChange { new_count: Some(0), clear_attention: true });
    let mut empty = TransferCard::new(FileTransferKind::Receive);
    assert_eq!(empty.lower_notification_count(0), BadgeChange { new_count: None, clear_attention: false });
    assert!(empty.is_badge_removed);
}

#[test]
fn card_buttons_and_sending() {
    let req = card_button_request("c9", ChannelAction::AcceptTransfer);
    assert_eq!(req.id, "c9");
    assert_eq!(req.action, Some(ChannelAction::AcceptTransfer));
    assert!(can_send_to(&device(true, None)));
    assert!(!can_send_to(&device(false, None)));
}

#[test]
fn send_requests_go_to_ip_and_port() {
    let info = send_info_for(&device(true, Some("Tab")), "Tab".to_string(), vec!["f".to_string()]);
    assert_eq!(info.id, "dev-1");
    assert_eq!(info.name, "Tab");
    assert_eq!(info.addr, "10.0.0.2:5200");
    match info.ob {
        OutboundPayload::Files(f) => assert_eq!(f, vec!["f".to_string()]),
    }
    let mut unknown = device(true, None);
    unknown.ip = None;
    unknown.port = None;
    let info = send_info_for(&unknown, "x".to_string(), vec![]);
    assert_eq!(info.addr, ":");
    assert_eq!(endpoint_name_or(&unknown, "fallback".to_string()), "fallback");
    assert_eq!(endpoint_name_or(&device(true, Some("n")), "fallback".to_string()), "n");
}

#[test]
fn clicking_a_recipient_sends_its_files() {
    let mut item = DataTransferObject::new(TransferKind::Send);
    item.endpoint_info.0 = device(true, Some("Tab"));
    item.files_to_send = vec!["/tmp/a".to_string(), "/tmp/b".to_string()];
    let info = handle_recipient_card_clicked(&item);
    assert_eq!(info.name, "Tab");
    assert_eq!(info.addr, "10.0.0.2:5200");
    match info.ob {
        OutboundPayload::Files(f) => assert_eq!(f, item.files_to_send),
    }
    assert!(set_row_activatable(&item, true));
    assert!(!set_row_activatable(&item, false));
    item.endpoint_info.0.present = None;
    assert!(!set_row_activatable(&item, true));
}

#[test]
fn a_new_recipient_card_sizes_its_estimate() {
    let mut item = DataTransferObject::new(TransferKind::Send);
    item.endpoint_info.0 = device(true, Some("Tab"));
    create_recipient_card(&mut item, vec!["a".to_string(), "b".to_string()], &vec![100, 23]);
    assert_eq!(item.device_name, "Tab");
    assert_eq!(item.eta_estimator.total_len(), 123);
    assert_eq!(item.files_to_send.len(), 2);
    // A second card for the same item keeps the estimate it has.
    create_recipient_card(&mut item, vec!["c".to_string()], &vec![5]);
    assert_eq!(item.eta_estimator.total_len(), 123);
    // An absent device keeps the name the item had.
    let mut absent = DataTransferObject::new(TransferKind::Send);
    absent.endpoint_info.0 = device(false, Some("Gone"));
    create_recipient_card(&mut absent, vec![], &vec![]);
    assert_eq!(absent.device_name, "");
}

#[test]
fn a_recipient_card_follows_its_transfer() {
    let mut item = DataTransferObject::new(TransferKind::Send);
    item.endpoint_info.0 = device(true, None);
    item.files_to_send = vec!["a".to_string(), "b".to_string(), "c".to_string()];
    item.channel_message = EventMessage(message(Some(State::SentUkeyClientInit), None));
    let u = update_recipient(&mut item);
    assert_eq!(u.result, Some(RecipientStatus::Requested));
    assert_eq!(u.row_activatable, Some(false));
    assert_eq!(u.show_cancel, Some(true));

    item.channel_message = EventMessage(message(Some(State::SendingFiles), Some(meta(None, None, 90, 30))));
    let u = update_recipient(&mut item);
    assert_eq!(u.progress, Some((30, 90)));
    assert!(u.update_eta);

    item.channel_message = EventMessage(message(Some(State::Finished), None));
    let u = update_recipient(&mut item);
    assert_eq!(u.result, Some(RecipientStatus::Sent { count: 3 }));

    item.channel_message = EventMessage(message(Some(State::Disconnected), None));
    let u = update_recipient(&mut item);
    assert_eq!(u.result, Some(RecipientStatus::Failed));
    assert_eq!(u.row_activatable, Some(true));

    item.channel_message = EventMessage(message(Some(State::Cancelled), None));
    let u = update_recipient(&mut item);
    assert_eq!(u.show_result, Some(false));
    // A cancelled transfer forgets its message.
    assert_eq!(item.channel_message.0.id, "");
    assert!(item.channel_message.0.state.is_none());
}

#[test]
fn removing_a_file_card() {
    let mut files = vec!["a".to_string(), "b".to_string(), "a".to_string()];
    assert_eq!(create_file_card(&mut files, "a"), FileRemoval { count: 2, leave_page: false });
    assert_eq!(files, vec!["b".to_string(), "a".to_string()]);
    assert_eq!(create_file_card(&mut files, "zzz"), FileRemoval { count: 2, leave_page: false });
    create_file_card(&mut files, "b");
    assert_eq!(create_file_card(&mut files, "a"), FileRemoval { count: 0, leave_page: true });
}

#[test]
fn a_new_file_transfer_object() {
    let f = FileTransferObject::new(FileTransferKind::Send);
    assert_eq!(f.transfer_kind, FileTransferKind::Send);
}

#[test]
fn card_buttons_name_the_right_transfer() {
    let msg = message(Some(State::WaitingForUserConsent), None);
    let dev = device(true, None);
    let incoming = TransferCard::new(FileTransferKind::Receive);
    let p = incoming.press(CardButton::Accept, &msg, &dev).unwrap();
    assert_eq!(p.request.id, "c1");
    assert_eq!(p.request.action, Some(ChannelAction::AcceptTransfer));
    assert!(!p.disable_button);
    let p = incoming.press(CardButton::Cancel, &msg, &dev).unwrap();
    assert_eq!(p.request.action, Some(ChannelAction::CancelTransfer));
    assert!(p.disable_button);
    let outgoing = TransferCard::new(FileTransferKind::Send);
    assert!(outgoing.press(CardButton::Decline, &msg, &dev).is_none());
    let p = outgoing.press(CardButton::Cancel, &msg, &dev).unwrap();
    assert_eq!(p.request.id, "dev-1");
}
