use packet::objects::{ChannelMessage as EventMessage, ShareRequestState, TransferState};
use packet::protocol::{ChannelAction, ChannelMessage, DeviceInfo, State, TextPayloadType, TransferMetadata, TransferType};
use packet::widgets::receive_transfer::TransferSummary;
use packet::widgets::request_dialog::{
    button_outcome, create_receive_request_dialog, ButtonOutcome, DialogButton, DialogContent, ReceiveRequestState,
    RequestCaption,
};
use packet::widgets::share_request::{ShareConsentResponse, ShareRequestFlow, ShareUiAction};
use packet::widgets::share_request_dialog::ShareRequestDialog;

fn files_meta(files: &[&str], total: u64, acked: u64) -> TransferMetadata {
    TransferMetadata {
        source: Some(DeviceInfo { name: "Tablet".to_string() }),
        pin_code: None,
        files: Some(files.iter().map(|f| f.to_string()).collect()),
        text_description: None,
        text_payload: None,
        text_type: None,
        total_bytes: total,
        ack_bytes: acked,
    }
}

fn text_meta(description: &str, payload: &str, kind: TextPayloadType) -> TransferMetadata {
    TransferMetadata {
        source: None,
        pin_code: Some("0042".to_string()),
        files: None,
        text_description: Some(description.to_string()),
        text_payload: Some(payload.to_string()),
        text_type: Some(kind),
        total_bytes: 5,
        ack_bytes: 0,
    }
}

fn message(id: &str, state: State, meta: Option<TransferMetadata>) -> ChannelMessage {
    ChannelMessage { id: id.to_string(), action: None, rtype: Some(TransferType::Inbound), state: Some(state), meta }
}

#[test]
fn a_request_without_files_or_text_opens_no_dialog() {
    let state = ReceiveRequestState::new(message("r1", State::WaitingForUserConsent, None));
    match create_receive_request_dialog(state) {
        Ok(_) => panic!("opened a dialog for a request without metadata"),
        Err(back) => assert_eq!(back.msg.0.id, "r1"),
    }
}

#[test]
fn the_request_dialog_follows_a_file_transfer() {
    let msg = message("r1", State::WaitingForUserConsent, Some(files_meta(&["a", "b", "c"], 300, 0)));
    let mut dialog = match create_receive_request_dialog(ReceiveRequestState::new(msg)) {
        Ok(d) => d,
        Err(_) => panic!("the dialog did not open"),
    };
    assert_eq!(dialog.state.eta.total_len(), 300);
    match dialog.caption() {
        RequestCaption::Files { device_name, count, total_bytes } => {
            assert_eq!(device_name, "Tablet");
            assert_eq!(count, 3);
            assert_eq!(total_bytes, 300);
        },
        other => panic!("unexpected caption {:?}", other),
    }
    assert_eq!(dialog.close_attempt(), (true, Some(ChannelAction::RejectTransfer)));

    let receiving = message("r1", State::ReceivingFiles, Some(files_meta(&["a", "b", "c"], 300, 150)));
    assert!(dialog.accepts_message(&receiving));
    let step = dialog.on_message(receiving);
    assert_eq!(step.content, Some(DialogContent::Receiving));
    assert_eq!(step.progress, Some((150, 300)));
    assert!(step.update_eta);
    assert!(!step.stop);
    assert_eq!(dialog.close_attempt(), (false, None));

    let finished = message("r1", State::Finished, Some(files_meta(&["a", "b", "c"], 300, 300)));
    let step = dialog.on_message(finished);
    assert_eq!(step.content, Some(DialogContent::ReceivedFiles { count: 3 }));
    assert!(step.stop);
    assert_eq!(dialog.close_attempt(), (true, None));
}

#[test]
fn the_request_dialog_shows_a_text_description_on_one_line() {
    let msg = message("r2", State::WaitingForUserConsent, Some(text_meta("two\nlines", "\"hi\"", TextPayloadType::Text)));
    let dialog = match create_receive_request_dialog(ReceiveRequestState::new(msg)) {
        Ok(d) => d,
        Err(_) => panic!("the dialog did not open"),
    };
    match dialog.caption() {
        RequestCaption::Text { description, .. } => assert_eq!(description, "twolines"),
        other => panic!("unexpected caption {:?}", other),
    }
}

#[test]
fn the_request_dialog_ends_on_failures() {
    let msg = message("r3", State::WaitingForUserConsent, Some(files_meta(&["a"], 10, 0)));
    let open = |m: &ChannelMessage| create_receive_request_dialog(ReceiveRequestState::new(m.duplicate())).ok().unwrap();
    let mut dialog = open(&msg);
    let step = dialog.on_message(message("r3", State::SentIntroduction, None));
    assert_eq!(step.content, None);
    assert!(!step.stop);
    let step = dialog.on_message(message("r3", State::Rejected, None));
    assert_eq!(step.content, None);
    assert!(step.stop);
    assert!(dialog.stopped);
    // A stopped dialog ignores what follows.
    let step = dialog.on_message(message("r3", State::Cancelled, None));
    assert_eq!(step.content, None);
    assert!(!step.stop);
    assert_eq!(dialog.state.msg.0.state, Some(State::Rejected));
    let step = open(&msg).on_message(message("r3", State::Cancelled, None));
    assert_eq!(step.content, Some(DialogContent::Failed));
    let step = open(&msg).on_message(message("r3", State::Disconnected, None));
    assert_eq!(step.content, Some(DialogContent::Disconnected));
}

#[test]
fn a_stopped_share_dialog_ignores_later_messages() {
    let msg = message("s9", State::WaitingForUserConsent, Some(files_meta(&["a"], 1, 0)));
    let mut dialog = ShareRequestDialog::new(msg);
    let step = dialog.on_message(message("s9", State::Finished, Some(files_meta(&["a"], 1, 1))));
    assert!(step.stop);
    assert!(dialog.stopped);
    assert_eq!(dialog.transfer_state, TransferState::Done);
    let step = dialog.on_message(message("s9", State::Cancelled, None));
    assert_eq!(step.transfer_state, None);
    assert_eq!(step.content, None);
    assert_eq!(dialog.transfer_state, TransferState::Done);
}

#[test]
fn the_request_dialog_unquotes_received_text() {
    let msg = message("r4", State::WaitingForUserConsent, Some(text_meta("t", "x", TextPayloadType::Text)));
    let fresh = create_receive_request_dialog(ReceiveRequestState::new(msg.duplicate())).ok().unwrap();
    let mut dialog = create_receive_request_dialog(ReceiveRequestState::new(msg)).ok().unwrap();
    let finished = message("r4", State::Finished, Some(text_meta("t", " \"some text\" ", TextPayloadType::Text)));
    assert!(dialog.accepts_message(&finished));
    let step = dialog.on_message(finished);
    assert_eq!(step.content, Some(DialogContent::ReceivedText { kind: TextPayloadType::Text }));
    let text = dialog.received_text();
    assert_eq!(text.text, "some text");
    assert!(text.can_save && !text.can_open && !text.unimplemented);
    // Plain text too short to carry its quotes cannot be shown.
    let short = message("r4", State::Finished, Some(text_meta("t", "x", TextPayloadType::Text)));
    assert!(!fresh.accepts_message(&short));
    // Once stopped, the dialog takes any message and ignores it.
    assert!(dialog.accepts_message(&short));
}

#[test]
fn dialog_buttons() {
    assert_eq!(
        button_outcome(DialogButton::Accept),
        ButtonOutcome { close_dialog: false, disable_button: true, send: ChannelAction::AcceptTransfer }
    );
    assert_eq!(
        button_outcome(DialogButton::Decline),
        ButtonOutcome { close_dialog: true, disable_button: false, send: ChannelAction::RejectTransfer }
    );
    assert_eq!(
        button_outcome(DialogButton::Cancel),
        ButtonOutcome { close_dialog: false, disable_button: true, send: ChannelAction::CancelTransfer }
    );
}

#[test]
fn the_share_dialog_keeps_the_request_state() {
    let msg = message("s1", State::WaitingForUserConsent, Some(files_meta(&["a", "b"], 20, 0)));
    let mut dialog = ShareRequestDialog::new(msg);
    assert_eq!(dialog.init_id, "s1");
    assert_eq!(dialog.transfer_state, TransferState::AwaitingConsentOrIdle);
    assert_eq!(dialog.closed(), Some(ChannelAction::RejectTransfer));

    let step = dialog.on_message(message("s1", State::ReceivingFiles, Some(files_meta(&["a", "b"], 20, 5))));
    assert_eq!(step.can_close, Some(false));
    assert_eq!(step.progress, Some((5, 20)));
    assert_eq!(dialog.transfer_state, TransferState::OngoingTransfer);
    assert_eq!(dialog.closed(), None);

    // Another transfer disconnecting fails this one but does not stop the dialog.
    let step = dialog.on_message(message("other", State::Disconnected, None));
    assert_eq!(step.transfer_state, Some(TransferState::Failed));
    assert_eq!(step.can_close, Some(true));
    assert!(!step.stop);
    assert_eq!(step.content, None);

    let step = dialog.on_message(message("s1", State::Finished, Some(files_meta(&["a", "b"], 20, 20))));
    assert_eq!(step.content, Some(DialogContent::ReceivedFiles { count: 2 }));
    assert_eq!(dialog.transfer_state, TransferState::Done);
    assert!(step.stop);
    let req = dialog.request(ChannelAction::CancelTransfer);
    assert_eq!(req.id, "s1");
    assert_eq!(req.action, Some(ChannelAction::CancelTransfer));
}

#[test]
fn the_share_dialog_stops_when_its_own_transfer_disconnects() {
    let msg = message("s2", State::WaitingForUserConsent, Some(files_meta(&["a"], 1, 0)));
    let mut dialog = ShareRequestDialog::new(msg);
    let step = dialog.on_message(message("s2", State::Disconnected, None));
    assert_eq!(step.content, Some(DialogContent::Disconnected));
    assert!(step.stop);
    assert_eq!(dialog.transfer_state, TransferState::Failed);
    assert_eq!(dialog.closed(), None);
}

#[test]
fn the_share_flow_from_consent_to_text() {
    let consent = message("s3", State::WaitingForUserConsent, Some(text_meta("  \"A note\nmore\"  ", "x", TextPayloadType::Text)));
    let state = ShareRequestState::new(&EventMessage(consent.duplicate()));
    let mut flow = ShareRequestFlow::new(state);
    assert!(flow.accepts_message(&consent));
    assert_eq!(
        flow.set_event(consent),
        vec![ShareUiAction::RequestConsent, ShareUiAction::ShowTextProgress]
    );
    let info = flow.consent_info();
    assert_eq!(info.pin_code, "0042");
    assert_eq!(info.total_bytes, 5);
    match info.summary {
        TransferSummary::Text { preview } => assert_eq!(preview, "A note"),
        other => panic!("unexpected summary {:?}", other),
    }
    assert_eq!(
        flow.consent_response(ShareConsentResponse::Accept),
        vec![ShareUiAction::Send(ChannelAction::AcceptTransfer), ShareUiAction::PresentProgressDialog]
    );
    assert!(flow.is_request_accepted);
    let finished = message("s3", State::Finished, Some(text_meta("d", "\"Hi\"", TextPayloadType::Text)));
    assert!(flow.accepts_message(&finished));
    assert_eq!(
        flow.set_event(finished),
        vec![ShareUiAction::AllowProgressClose, ShareUiAction::CloseProgressDialog, ShareUiAction::ShowReceivedText]
    );
    let text = flow.received_text();
    assert_eq!(text.text, "Hi");
}

#[test]
fn the_share_flow_reports_a_cancel_and_a_decline() {
    let consent = message("s4", State::WaitingForUserConsent, Some(files_meta(&["a", "b"], 10, 0)));
    let state = ShareRequestState::new(&EventMessage(consent.duplicate()));
    let mut flow = ShareRequestFlow::new(state);
    flow.set_event(consent);
    assert_eq!(
        flow.consent_response(ShareConsentResponse::Decline),
        vec![ShareUiAction::Send(ChannelAction::RejectTransfer)]
    );
    assert!(!flow.is_request_accepted);
    assert_eq!(
        flow.progress_cancel(),
        vec![ShareUiAction::DisableProgressCancel, ShareUiAction::Send(ChannelAction::CancelTransfer)]
    );
    assert_eq!(
        flow.set_event(message("s4", State::Cancelled, None)),
        vec![
            ShareUiAction::AllowProgressClose,
            ShareUiAction::CloseConsentDialog,
            ShareUiAction::ToastCancelledBySender,
        ]
    );
}

#[test]
fn the_share_flow_receives_files() {
    let consent = message("s5", State::WaitingForUserConsent, Some(files_meta(&["a", "b"], 10, 0)));
    let state = ShareRequestState::new(&EventMessage(consent.duplicate()));
    let mut flow = ShareRequestFlow::new(state);
    flow.set_event(consent);
    flow.consent_response(ShareConsentResponse::Accept);
    assert_eq!(
        flow.set_event(message("s5", State::ReceivingFiles, Some(files_meta(&["a", "b"], 10, 0)))),
        vec![ShareUiAction::SetProgressFraction { acked: 0, total: 10 }, ShareUiAction::UpdateEtaLabel]
    );
    assert_eq!(flow.set_event(message("x", State::Disconnected, None)), vec![]);
    assert_eq!(
        flow.set_event(message("s5", State::Finished, Some(files_meta(&["a", "b"], 10, 10)))),
        vec![ShareUiAction::AllowProgressClose, ShareUiAction::CloseProgressDialog, ShareUiAction::ToastFilesReceived]
    );
    assert_eq!(flow.received_file_count(), 2);
}
