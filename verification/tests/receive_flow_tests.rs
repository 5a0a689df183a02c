use packet::objects::{ChannelMessage as EventMessage, ReceiveTransferState, UserAction};
use packet::protocol::{ChannelAction, ChannelMessage, DeviceInfo, State, TextPayloadType, TransferMetadata, TransferType};
use packet::widgets::receive_transfer::{ConsentResponse, ReceiveTransferFlow, ReceiveUiAction, TransferSummary};

fn files_meta(files: &[&str], total: u64, acked: u64) -> TransferMetadata {
    TransferMetadata {
        source: Some(DeviceInfo { name: "Pixel".to_string() }),
        pin_code: Some("1234".to_string()),
        files: Some(files.iter().map(|f| f.to_string()).collect()),
        text_description: None,
        text_payload: None,
        text_type: None,
        total_bytes: total,
        ack_bytes: acked,
    }
}

fn text_meta(description: &str, payload: Option<&str>, kind: Option<TextPayloadType>) -> TransferMetadata {
    TransferMetadata {
        source: None,
        pin_code: None,
        files: None,
        text_description: Some(description.to_string()),
        text_payload: payload.map(|p| p.to_string()),
        text_type: kind,
        total_bytes: 10,
        ack_bytes: 0,
    }
}

fn message(id: &str, state: State, meta: Option<TransferMetadata>) -> ChannelMessage {
    ChannelMessage {
        id: id.to_string(),
        action: None,
        rtype: Some(TransferType::Inbound),
        state: Some(state),
        meta,
    }
}

fn consent_files() -> ChannelMessage {
    message("t1", State::WaitingForUserConsent, Some(files_meta(&["a.txt", "b.png"], 100, 0)))
}

fn flow_for(msg: &ChannelMessage) -> ReceiveTransferFlow {
    let state = ReceiveTransferState::new(&EventMessage(msg.duplicate()));
    let mut flow = ReceiveTransferFlow::new(state);
    assert!(flow.accepts_message(msg));
    let shown = flow.set_event(msg.duplicate());
    assert_eq!(shown[0], ReceiveUiAction::RequestConsent);
    flow
}

#[test]
fn consent_request_shows_the_files_and_the_pin() {
    let msg = consent_files();
    let flow = flow_for(&msg);
    assert_eq!(flow.init_id, "t1");
    assert!(flow.auto_decline_pending);
    assert_eq!(flow.state.eta.total_len(), 100);
    let info = flow.consent_info();
    assert_eq!(info.device_name, "Pixel");
    assert_eq!(info.total_bytes, 100);
    assert_eq!(info.pin_code, "1234");
    assert!(matches!(info.summary, TransferSummary::Files { count: 2 }));
}

#[test]
fn accepting_then_receiving_then_finishing() {
    let msg = consent_files();
    let mut flow = flow_for(&msg);
    let acts = flow.consent_response(ConsentResponse::Accept);
    assert_eq!(
        acts,
        vec![
            ReceiveUiAction::CancelAutoDecline,
            ReceiveUiAction::CloseConsentDialog,
            ReceiveUiAction::Send(ChannelAction::AcceptTransfer),
            ReceiveUiAction::NotifyReceiving,
            ReceiveUiAction::PresentProgressDialog,
        ]
    );
    assert_eq!(flow.state.user_action, Some(UserAction::ConsentAccept));
    // The timer was stopped: when it fires, nothing happens.
    assert_eq!(flow.auto_decline_elapsed(), vec![]);

    let receiving = message("t1", State::ReceivingFiles, Some(files_meta(&["a.txt", "b.png"], 100, 50)));
    assert!(flow.accepts_message(&receiving));
    assert_eq!(
        flow.set_event(receiving),
        vec![ReceiveUiAction::SetProgressFraction { acked: 50, total: 100 }, ReceiveUiAction::UpdateEtaLabel]
    );
    // Bytes never go back.
    let back = message("t1", State::ReceivingFiles, Some(files_meta(&["a.txt", "b.png"], 100, 40)));
    assert!(!flow.accepts_message(&back));

    let finished = message("t1", State::Finished, Some(files_meta(&["a.txt", "b.png"], 100, 100)));
    assert_eq!(
        flow.set_event(finished),
        vec![
            ReceiveUiAction::AllowProgressClose,
            ReceiveUiAction::CloseProgressDialog,
            ReceiveUiAction::NotifyFilesReceived,
        ]
    );
    assert_eq!(flow.received_file_count(), 2);
}

#[test]
fn the_timer_declines_an_unanswered_request() {
    let msg = consent_files();
    let mut flow = flow_for(&msg);
    assert_eq!(
        flow.auto_decline_elapsed(),
        vec![
            ReceiveUiAction::CancelAutoDecline,
            ReceiveUiAction::CloseConsentDialog,
            ReceiveUiAction::RemoveNotification,
            ReceiveUiAction::Send(ChannelAction::RejectTransfer),
            ReceiveUiAction::ToastTimedOut,
        ]
    );
    assert_eq!(flow.state.user_action, Some(UserAction::ConsentDecline));
    // The dialog closing afterwards sends nothing more.
    assert_eq!(flow.consent_response(ConsentResponse::Close), vec![]);
}

#[test]
fn closing_the_consent_dialog_declines() {
    let msg = consent_files();
    let mut flow = flow_for(&msg);
    assert_eq!(
        flow.consent_response(ConsentResponse::Close),
        vec![
            ReceiveUiAction::CancelAutoDecline,
            ReceiveUiAction::CloseConsentDialog,
            ReceiveUiAction::RemoveNotification,
            ReceiveUiAction::Send(ChannelAction::RejectTransfer),
        ]
    );
    assert_eq!(flow.auto_decline_elapsed(), vec![]);
}

#[test]
fn a_cancel_by_the_user_is_not_blamed_on_the_sender() {
    let msg = consent_files();
    let mut flow = flow_for(&msg);
    flow.consent_response(ConsentResponse::Accept);
    assert_eq!(
        flow.progress_cancel(),
        vec![
            ReceiveUiAction::DisableProgressCancel,
            ReceiveUiAction::AllowProgressClose,
            ReceiveUiAction::CloseProgressDialog,
            ReceiveUiAction::RemoveNotification,
            ReceiveUiAction::Send(ChannelAction::CancelTransfer),
        ]
    );
    assert!(flow.is_user_cancelled);
    let cancelled = message("t1", State::Cancelled, Some(files_meta(&["a.txt"], 100, 10)));
    assert_eq!(
        flow.set_event(cancelled),
        vec![ReceiveUiAction::AllowProgressClose, ReceiveUiAction::CloseConsentDialog]
    );
}

#[test]
fn a_cancel_by_the_sender_is_reported() {
    let msg = consent_files();
    let mut flow = flow_for(&msg);
    let cancelled = message("t1", State::Cancelled, None);
    assert_eq!(
        flow.set_event(cancelled),
        vec![
            ReceiveUiAction::AllowProgressClose,
            ReceiveUiAction::CloseConsentDialog,
            ReceiveUiAction::NotifyCancelledBySender,
        ]
    );
}

#[test]
fn only_the_announced_transfer_disconnecting_is_reported() {
    let msg = consent_files();
    let mut flow = flow_for(&msg);
    flow.consent_response(ConsentResponse::Accept);
    assert_eq!(flow.set_event(message("other", State::Disconnected, None)), vec![]);
    assert_eq!(
        flow.set_event(message("t1", State::Disconnected, None)),
        vec![
            ReceiveUiAction::AllowProgressClose,
            ReceiveUiAction::CloseProgressDialog,
            ReceiveUiAction::NotifyDisconnected,
        ]
    );
}

#[test]
fn a_text_transfer_shows_its_preview_and_text() {
    let consent = message(
        "t2",
        State::WaitingForUserConsent,
        Some(text_meta("\"Hello\nworld\"\n", Some("\"Hello\"\n"), Some(TextPayloadType::Text))),
    );
    let state = ReceiveTransferState::new(&EventMessage(consent.duplicate()));
    let mut flow = ReceiveTransferFlow::new(state);
    assert_eq!(
        flow.set_event(consent.duplicate()),
        vec![ReceiveUiAction::RequestConsent, ReceiveUiAction::ShowTextProgress]
    );
    let info = flow.consent_info();
    match info.summary {
        TransferSummary::Text { preview } => assert_eq!(preview, "Hello"),
        other => panic!("unexpected summary {:?}", other),
    }
    flow.consent_response(ConsentResponse::Accept);
    let receiving = message("t2", State::ReceivingFiles, Some(text_meta("d", None, Some(TextPayloadType::Text))));
    assert_eq!(flow.set_event(receiving), vec![]);
    let finished = message(
        "t2",
        State::Finished,
        Some(text_meta("d", Some("\"Hello\"\n"), Some(TextPayloadType::Text))),
    );
    assert!(flow.accepts_message(&finished));
    assert_eq!(
        flow.set_event(finished),
        vec![
            ReceiveUiAction::AllowProgressClose,
            ReceiveUiAction::CloseProgressDialog,
            ReceiveUiAction::ShowReceivedText,
        ]
    );
    let text = flow.received_text();
    assert_eq!(text.kind, TextPayloadType::Text);
    assert_eq!(text.text, "Hello");
    assert_eq!(text.notification_text, "Hello");
    assert!(text.can_save);
    assert!(!text.can_open);
}

#[test]
fn a_received_link_is_shown_as_is_and_cut_for_the_notification() {
    let link = format!("https://example.com/{}", "x".repeat(40));
    let consent = message("t3", State::WaitingForUserConsent, Some(text_meta("link", None, Some(TextPayloadType::Url))));
    let state = ReceiveTransferState::new(&EventMessage(consent.duplicate()));
    let mut flow = ReceiveTransferFlow::new(state);
    flow.set_event(consent);
    let finished = message("t3", State::Finished, Some(text_meta("link", Some(&link), Some(TextPayloadType::Url))));
    assert!(flow.accepts_message(&finished));
    flow.set_event(finished);
    let text = flow.received_text();
    assert_eq!(text.kind, TextPayloadType::Url);
    assert_eq!(text.text, link);
    assert_eq!(text.notification_text, format!("{}...", &link[..48]));
    assert!(text.can_open);
    assert!(!text.can_save);
}

#[test]
fn messages_the_flow_cannot_show_are_refused() {
    let msg = consent_files();
    let flow = flow_for(&msg);
    // A consent request without metadata.
    assert!(!flow.accepts_message(&message("t1", State::WaitingForUserConsent, None)));
    // A text whose preview cannot be made.
    let bad = message("t1", State::WaitingForUserConsent, Some(text_meta("\"\n", None, None)));
    assert!(!flow.accepts_message(&bad));
    // A finished text of no kind.
    let no_kind = message("t1", State::Finished, Some(text_meta("d", Some("x"), None)));
    assert!(!flow.accepts_message(&no_kind));
    // Anything else goes.
    assert!(flow.accepts_message(&message("t1", State::SentIntroduction, None)));
}

#[test]
fn requests_name_the_transfer() {
    let msg = consent_files();
    let flow = flow_for(&msg);
    let req = flow.request(ChannelAction::RejectTransfer);
    assert_eq!(req.id, "t1");
    assert_eq!(req.action, Some(ChannelAction::RejectTransfer));
    assert!(req.state.is_none() && req.rtype.is_none() && req.meta.is_none());
}

#[test]
fn a_message_from_the_service_stops_the_timer_first() {
    let msg = consent_files();
    let mut flow = flow_for(&msg);
    let receiving = message("t1", State::ReceivingFiles, Some(files_meta(&["a.txt", "b.png"], 100, 0)));
    assert_eq!(
        flow.on_inbound_message(receiving),
        vec![
            ReceiveUiAction::CancelAutoDecline,
            ReceiveUiAction::SetProgressFraction { acked: 0, total: 100 },
            ReceiveUiAction::UpdateEtaLabel,
        ]
    );
    assert!(!flow.auto_decline_pending);
    assert_eq!(flow.auto_decline_elapsed(), vec![]);
    let again = message("t1", State::ReceivingFiles, Some(files_meta(&["a.txt", "b.png"], 100, 10)));
    assert_eq!(
        flow.on_inbound_message(again),
        vec![ReceiveUiAction::SetProgressFraction { acked: 10, total: 100 }, ReceiveUiAction::UpdateEtaLabel]
    );
}

#[test]
fn a_disconnection_without_direction_is_matched_by_id() {
    let msg = consent_files();
    let mut flow = flow_for(&msg);
    assert_eq!(flow.on_disconnection(message("zz", State::Disconnected, None)), vec![]);
    assert_eq!(flow.state.event.0.id, "t1");
    assert_eq!(
        flow.on_disconnection(message("t1", State::Disconnected, None)),
        vec![
            ReceiveUiAction::AllowProgressClose,
            ReceiveUiAction::CloseConsentDialog,
            ReceiveUiAction::NotifyDisconnected,
        ]
    );
    // The timer is left to the user's choice.
    assert!(flow.auto_decline_pending);
}
