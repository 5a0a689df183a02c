use packet::window::{device_name_or_system, initial_device_name};
use packet::objects::{ChannelMessage as EventMessage, DataTransferObject, TransferKind, TransferState, UserAction};
use packet::protocol::{ChannelMessage, EndpointInfo, State, TransferType};
use packet::widgets::clear_data_transfer_cards;
use packet::window::{
    apply_static_port, background_refused, bottom_bar_status, filter_added_files, handle_added_files_to_send,
    hides_on_close, notification_action, notification_choice, rename_device, route_message, rqs_config,
    static_port_toggle_restarts, withdraws_notification_on_close, AddFilesOutcome, AddedFile, ConnectionHint,
    Connectivity, EndpointOutcome, EntryValidation, MdnsDiscovery, MessageRoute, NotificationAction, PortOutcome,
    RecipientList, RenameOutcome, StatusIndicator, ValidationMark,
};

fn endpoint(id: &str, name: Option<&str>) -> EndpointInfo {
    EndpointInfo {
        fullname: format!("{}-full", id),
        id: id.to_string(),
        name: name.map(|n| n.to_string()),
        ip: Some("192.168.1.7".to_string()),
        port: Some("4000".to_string()),
        present: Some(true),
    }
}

fn state_message(state: Option<State>, rtype: Option<TransferType>) -> ChannelMessage {
    ChannelMessage { id: "m".to_string(), action: None, rtype, state, meta: None }
}

fn ids(list: &RecipientList) -> Vec<String> {
    list.items.iter().map(|d| d.endpoint_info.0.id.clone()).collect()
}

#[test]
fn discovered_devices_are_listed_once_newest_first() {
    let mut list = RecipientList::new();
    assert_eq!(list.upsert_endpoint(endpoint("a", Some("A"))), EndpointOutcome::Inserted);
    assert_eq!(list.upsert_endpoint(endpoint("b", None)), EndpointOutcome::Inserted);
    assert_eq!(ids(&list), vec!["b", "a"]);
    assert_eq!(list.upsert_endpoint(endpoint("a", Some("A2"))), EndpointOutcome::Updated { position: 1 });
    assert_eq!(ids(&list), vec!["b", "a"]);
    assert_eq!(list.items[1].endpoint_info.0.name.as_deref(), Some("A2"));
    assert_eq!(list.items[0].transfer_kind, TransferKind::Send);
    assert_eq!(list.items[0].transfer_state, TransferState::AwaitingConsentOrIdle);
    assert_eq!(list.find("a"), Some(1));
    assert_eq!(list.find("zzz"), None);
    list.clear();
    assert!(list.items.is_empty());
}

#[test]
fn refresh_keeps_requests_in_play() {
    let mut list = RecipientList::new();
    for id in ["a", "b", "c", "d", "e"] {
        list.upsert_endpoint(endpoint(id, None));
    }
    // The list reads e, d, c, b, a.
    list.items[0].transfer_state = TransferState::Failed;
    list.items[1].transfer_state = TransferState::OngoingTransfer;
    list.items[2].transfer_state = TransferState::Done;
    list.items[3].transfer_state = TransferState::AwaitingConsentOrIdle;
    list.items[4].transfer_state = TransferState::RequestedForConsent;
    let removed = list.refresh();
    assert_eq!(ids(&list), vec!["d", "a"]);
    // Removing at these positions one after the other empties the others.
    assert_eq!(
        removed,
        vec![(0, "e".to_string()), (1, "c".to_string()), (1, "b".to_string())]
    );
    let mut shown = vec!["e", "d", "c", "b", "a"];
    for (pos, id) in &removed {
        assert_eq!(shown.remove(*pos), id.as_str());
    }
    assert_eq!(shown, vec!["d", "a"]);
}

#[test]
fn no_file_is_being_sent_while_all_are_idle() {
    let mut list = RecipientList::new();
    list.upsert_endpoint(endpoint("a", None));
    list.upsert_endpoint(endpoint("b", None));
    assert!(list.is_no_file_being_send());
    list.items[1].channel_message = EventMessage(state_message(Some(State::Finished), None));
    assert!(list.is_no_file_being_send());
    list.items[0].channel_message = EventMessage(state_message(Some(State::SendingFiles), None));
    assert!(!list.is_no_file_being_send());
}

#[test]
fn messages_are_routed_by_state_and_direction() {
    assert_eq!(route_message(&state_message(Some(State::WaitingForUserConsent), None)), MessageRoute::NewIncomingRequest);
    assert_eq!(
        route_message(&state_message(Some(State::ReceivingFiles), Some(TransferType::Inbound))),
        MessageRoute::IncomingTransfer
    );
    assert_eq!(
        route_message(&state_message(Some(State::SendingFiles), Some(TransferType::Outbound))),
        MessageRoute::OutgoingTransfer
    );
    assert_eq!(route_message(&state_message(Some(State::Disconnected), None)), MessageRoute::DisconnectionForBoth);
    assert_eq!(route_message(&state_message(Some(State::Finished), None)), MessageRoute::Ignore);
    assert_eq!(route_message(&state_message(None, Some(TransferType::Inbound))), MessageRoute::Ignore);
    assert_eq!(
        route_message(&state_message(Some(State::SentUkeyServerInit), Some(TransferType::Inbound))),
        MessageRoute::Ignore
    );
}

#[test]
fn notification_actions_by_name() {
    assert_eq!(notification_action("consent-accept"), NotificationAction::ConsentAccept);
    assert_eq!(notification_action("consent-decline"), NotificationAction::ConsentDecline);
    assert_eq!(notification_action("transfer-cancel"), NotificationAction::TransferCancel);
    assert_eq!(notification_action("open-folder"), NotificationAction::OpenFolder);
    assert_eq!(notification_action("copy-text"), NotificationAction::CopyText);
    assert_eq!(notification_action("accept"), NotificationAction::Other);
    assert_eq!(notification_choice(NotificationAction::ConsentAccept), Some(UserAction::ConsentAccept));
    assert_eq!(notification_choice(NotificationAction::ConsentDecline), Some(UserAction::ConsentDecline));
    assert_eq!(notification_choice(NotificationAction::TransferCancel), Some(UserAction::TransferCancel));
    assert_eq!(notification_choice(NotificationAction::OpenFolder), None);
}

#[test]
fn closing_the_window() {
    assert!(hides_on_close(true, true, false));
    assert!(!hides_on_close(true, true, true));
    assert!(!hides_on_close(false, true, false));
    assert!(!hides_on_close(true, false, false));
    assert!(withdraws_notification_on_close(None));
    assert!(withdraws_notification_on_close(Some(State::ReceivingFiles)));
    assert!(!withdraws_notification_on_close(Some(State::Finished)));
    assert!(!withdraws_notification_on_close(Some(State::Cancelled)));
}

#[test]
fn discovery_starts_once_and_stops() {
    let mut d = MdnsDiscovery { is_on: false };
    assert!(d.start(None));
    assert!(!d.start(None));
    assert!(d.start(Some(true)));
    assert!(d.stop());
    assert!(!d.stop());
    assert!(!d.start(Some(false)));
    assert!(!d.is_on);
    assert!(d.start(None));
}

#[test]
fn the_status_bar() {
    assert_eq!(bottom_bar_status(true, true, true), StatusIndicator::Ready);
    assert_eq!(bottom_bar_status(true, true, false), StatusIndicator::Invisible);
    assert_eq!(
        bottom_bar_status(false, false, true),
        StatusIndicator::Disconnected(ConnectionHint::ConnectWifiAndBluetooth)
    );
    assert_eq!(bottom_bar_status(false, true, true), StatusIndicator::Disconnected(ConnectionHint::ConnectWifi));
    assert_eq!(bottom_bar_status(true, false, false), StatusIndicator::Disconnected(ConnectionHint::TurnOnBluetooth));
}

#[test]
fn connectivity_reports_changes() {
    let mut c = Connectivity { network: false, bluetooth: false };
    assert!(c.on_network(true));
    assert!(!c.on_network(true));
    assert!(c.on_bluetooth(true));
    assert!(c.on_bluetooth(true));
    assert!(c.network && c.bluetooth);
}

#[test]
fn entries_mark_validity_once() {
    let mut v = EntryValidation { prev: None };
    assert_eq!(v.on_changed(true), ValidationMark::Valid);
    assert_eq!(v.on_changed(true), ValidationMark::Unchanged);
    assert_eq!(v.on_changed(false), ValidationMark::Invalid);
    assert_eq!(v.on_changed(true), ValidationMark::Valid);
    v.on_apply();
    assert_eq!(v.prev, None);
    assert_eq!(v.on_changed(true), ValidationMark::Valid);
}

#[test]
fn renaming_the_device() {
    assert_eq!(rename_device("Laptop", "Laptop", true, true), RenameOutcome::Unchanged);
    assert_eq!(rename_device("Laptop", "Desk", true, true), RenameOutcome::Renamed { restart_discovery: true });
    assert_eq!(rename_device("Laptop", "Desk", true, false), RenameOutcome::Renamed { restart_discovery: false });
    assert_eq!(rename_device("Laptop", "Desk", false, true), RenameOutcome::Refused);
}

#[test]
fn static_ports() {
    assert_eq!(apply_static_port(5000, true, Some(5000)), PortOutcome::Apply);
    assert_eq!(apply_static_port(5000, false, Some(5000)), PortOutcome::AlreadyInUse);
    assert_eq!(apply_static_port(5000, false, Some(6000)), PortOutcome::Unavailable);
    assert_eq!(apply_static_port(5000, false, None), PortOutcome::Unavailable);
    assert!(static_port_toggle_restarts(true, 5000, Some(6000)));
    assert!(!static_port_toggle_restarts(true, 5000, Some(5000)));
    assert!(!static_port_toggle_restarts(false, 5000, Some(6000)));
    let cfg = rqs_config(true, true, 5000, "/dl".to_string(), "me".to_string());
    assert_eq!(cfg.static_port, Some(5000));
    assert!(cfg.visible);
    assert_eq!(cfg.download_path, "/dl");
    assert_eq!(cfg.device_name, "me");
    let cfg = rqs_config(false, false, 5000, "/dl".to_string(), "me".to_string());
    assert_eq!(cfg.static_port, None);
}

#[test]
fn background_permission() {
    assert!(background_refused(true, Some(false)));
    assert!(background_refused(true, None));
    assert!(!background_refused(true, Some(true)));
    assert!(!background_refused(false, Some(false)));
}

#[test]
fn added_files_are_filtered() {
    let existing = vec!["a.txt".to_string()];
    let files = vec![
        AddedFile { name: "a.txt".to_string(), is_regular: true, size: 10 },
        AddedFile { name: "b.txt".to_string(), is_regular: true, size: 0 },
        AddedFile { name: "dir".to_string(), is_regular: false, size: 4096 },
        AddedFile { name: "c.txt".to_string(), is_regular: true, size: 3 },
    ];
    let kept = filter_added_files(&existing, files);
    assert_eq!(kept.len(), 1);
    assert_eq!(kept[0].name, "c.txt");
}

#[test]
fn adding_files() {
    assert_eq!(handle_added_files_to_send(0, 3, Some(false)), AddFilesOutcome::NoneOpened);
    assert_eq!(
        handle_added_files_to_send(2, 3, Some(false)),
        AddFilesOutcome::Added { total: 5, go_to_files_page: true }
    );
    assert_eq!(
        handle_added_files_to_send(2, 0, Some(true)),
        AddFilesOutcome::Added { total: 2, go_to_files_page: false }
    );
    assert_eq!(handle_added_files_to_send(1, 0, None), AddFilesOutcome::Added { total: 1, go_to_files_page: false });
}

#[test]
fn clearing_cards_keeps_moving_transfers() {
    let mut model = Vec::new();
    for (id, state) in [("x", Some(State::Finished)), ("y", Some(State::ReceivingFiles)), ("z", None), ("w", Some(State::SendingFiles))] {
        let mut d = DataTransferObject::new(TransferKind::Receive);
        d.channel_message = EventMessage(ChannelMessage { id: id.to_string(), action: None, rtype: None, state, meta: None });
        model.push(d);
    }
    let removed = clear_data_transfer_cards(&mut model);
    assert_eq!(removed, vec!["x".to_string(), "z".to_string()]);
    let left: Vec<String> = model.iter().map(|d| d.channel_message.0.id.clone()).collect();
    assert_eq!(left, vec!["y", "w"]);
}

#[test]
fn a_copied_transfer_starts_over() {
    let mut d = DataTransferObject::new(TransferKind::Send);
    d.transfer_state = TransferState::Done;
    d.device_name = "dev".to_string();
    let c = DataTransferObject::copy(d);
    assert_eq!(c.transfer_state, TransferState::AwaitingConsentOrIdle);
    assert_eq!(c.device_name, "dev");
    assert_eq!(c.transfer_kind, TransferKind::Send);
}

#[test]
fn an_empty_device_name_takes_the_systems() {
    assert_eq!(device_name_or_system("", Some("Laptop".to_string())), "Laptop");
    assert_eq!(device_name_or_system("Mine", Some("Laptop".to_string())), "Mine");
    assert_eq!(device_name_or_system("", None), "");
    assert_eq!(initial_device_name("Mine"), "Mine");
}
