//! A recipient card: a device that files can be sent to, and how the card
//! follows a transfer to it.
use crate::i18n::gettext;
use crate::objects::data_transfer::{ChannelMessage, DataTransferObject, TransferKind};
use crate::protocol::{self, State};
use crate::utils::{can_step, push_char, stepped};
use crate::widgets::receive_transfer::byte_counts;
use vstd::prelude::*;

verus! {

/// An optional string, empty when missing.
pub open spec fn or_empty(s: Option<String>) -> Seq<char> {
    match s {
        Some(s) => s@,
        None => Seq::<char>::empty(),
    }
}

/// The address files are sent to: the device's IP and port joined by a
/// colon, each empty when unknown.
pub open spec fn send_address(endpoint: protocol::EndpointInfo) -> Seq<char> {
    or_empty(endpoint.ip) + seq![':'] + or_empty(endpoint.port)
}

/// A device's name, or `fallback` when it has none.
pub open spec fn name_or(endpoint: protocol::EndpointInfo, fallback: String) -> String {
    match endpoint.name {
        Some(n) => n,
        None => fallback,
    }
}

/// A device's name, or `fallback` when it has none.
pub fn endpoint_name_or(endpoint: &protocol::EndpointInfo, fallback: String) -> (r: String)
    ensures
        r == name_or(*endpoint, fallback),
{
    match &endpoint.name {
        Some(n) => n.clone(),
        None => fallback,
    }
}

/// The request that sends `files` to a device, named `name`.
pub fn send_info_for(endpoint: &protocol::EndpointInfo, name: String, files: Vec<String>) -> (r: protocol::SendInfo)
    ensures
        r.id == endpoint.id,
        r.name == name,
        r.addr@ == send_address(*endpoint),
        r.ob matches protocol::OutboundPayload::Files(f) && f == files,
{
    let mut addr = String::new();
    match &endpoint.ip {
        Some(ip) => addr.append(ip.as_str()),
        None => {},
    }
    push_char(&mut addr, ':');
    match &endpoint.port {
        Some(port) => addr.append(port.as_str()),
        None => {},
    }
    assert(addr@ =~= send_address(*endpoint));
    protocol::SendInfo {
        id: endpoint.id.clone(),
        name,
        addr,
        ob: protocol::OutboundPayload::Files(files),
    }
}

/// The request that sends a recipient card's files to its device: named as
/// the device is, or the translation of "Unknown device".
pub fn handle_recipient_card_clicked(model_item: &DataTransferObject) -> (r: protocol::SendInfo)
    ensures
        r.id == model_item.endpoint_info.0.id,
        model_item.endpoint_info.0.name matches Some(n) ==> r.name == n,
        model_item.endpoint_info.0.name is None ==> crate::i18n::is_translation_of("Unknown device"@, r.name),
        r.addr@ == send_address(model_item.endpoint_info.0),
        r.ob matches protocol::OutboundPayload::Files(f) && f@ == model_item.files_to_send@,
{
    proof {
        reveal_strlit("Unknown device");
    }
    let unknown = gettext("Unknown device");
    proof {
        crate::i18n::lemma_translation("Unknown device", unknown);
    }
    let name = endpoint_name_or(&model_item.endpoint_info.0, unknown);
    let files = protocol::clone_strings(&model_item.files_to_send);
    send_info_for(&model_item.endpoint_info.0, name, files)
}

/// Whether a card's row can be clicked: never while its device is absent.
pub open spec fn row_activatable(endpoint: protocol::EndpointInfo, activatable: bool) -> bool {
    endpoint.present is Some && activatable
}

/// Whether a card's row can be clicked.
pub fn set_row_activatable(model_item: &DataTransferObject, activatable: bool) -> (r: bool)
    ensures
        r == row_activatable(model_item.endpoint_info.0, activatable),
{
    model_item.endpoint_info.0.present.is_some() && activatable
}

/// The outcome a recipient card reports.
#[derive(Debug, Clone, Copy, PartialEq, Eq, Structural)]
pub enum RecipientStatus {
    /// The request went out.
    Requested,
    /// The transfer failed.
    Failed,
    /// This many files went out.
    Sent { count: usize },
}

/// How a recipient card changes when its transfer's message changes;
/// `None` leaves a part as it is.
#[derive(Debug, Clone, Copy)]
pub struct RecipientUpdate {
    pub row_activatable: Option<bool>,
    pub show_cancel: Option<bool>,
    pub show_result: Option<bool>,
    pub result: Option<RecipientStatus>,
    pub show_eta: Option<bool>,
    /// Whether the estimate of the time left is shown anew.
    pub update_eta: bool,
    pub show_progress: Option<bool>,
    /// The progress bar's new `(acked, total)` bytes, if it moves.
    pub progress: Option<(u64, u64)>,
}

/// An update that changes nothing.
pub open spec fn no_change() -> RecipientUpdate {
    RecipientUpdate {
        row_activatable: None,
        show_cancel: None,
        show_result: None,
        result: None,
        show_eta: None,
        update_eta: false,
        show_progress: None,
        progress: None,
    }
}

/// How a recipient card changes for a transfer in `state`.
pub open spec fn recipient_update(item: DataTransferObject, state: Option<State>) -> RecipientUpdate {
    let present = item.endpoint_info.0;
    match state {
        Some(State::SentUkeyClientInit) | Some(State::SentUkeyClientFinish) | Some(
            State::SentIntroduction,
        ) => RecipientUpdate {
            row_activatable: Some(row_activatable(present, false)),
            show_cancel: Some(true),
            show_result: Some(true),
            result: Some(RecipientStatus::Requested),
            ..no_change()
        },
        Some(State::SendingFiles) => RecipientUpdate {
            row_activatable: Some(row_activatable(present, false)),
            show_cancel: Some(false),
            show_result: Some(false),
            show_eta: Some(true),
            update_eta: true,
            show_progress: Some(true),
            progress: match byte_counts(item.channel_message.0@) {
                Some((acked, total)) => if total > 0 {
                    Some((acked, total))
                } else {
                    None
                },
                None => None,
            },
            ..no_change()
        },
        Some(State::Disconnected) => RecipientUpdate {
            row_activatable: Some(row_activatable(present, true)),
            show_progress: Some(false),
            show_cancel: Some(false),
            show_eta: Some(false),
            show_result: Some(true),
            result: Some(RecipientStatus::Failed),
            ..no_change()
        },
        Some(State::Cancelled) => RecipientUpdate {
            row_activatable: Some(row_activatable(present, true)),
            show_progress: Some(false),
            show_cancel: Some(false),
            show_eta: Some(false),
            show_result: Some(false),
            ..no_change()
        },
        Some(State::Finished) => RecipientUpdate {
            row_activatable: Some(row_activatable(present, false)),
            show_cancel: Some(false),
            show_progress: Some(false),
            show_eta: Some(false),
            show_result: Some(true),
            result: Some(RecipientStatus::Sent { count: item.files_to_send.len() as usize }),
            ..no_change()
        },
        _ => no_change(),
    }
}

/// A recipient card reports what happened to its send: a request going out
/// while keys are exchanged, a failure on a disconnection, and on a finished
/// send the number of files it sent; a cancellation clears the outcome, and
/// other messages leave it.
pub proof fn law_recipient_reports_what_happened(item: DataTransferObject, state: Option<State>)
    ensures
        (state == Some(State::SentUkeyClientInit) || state == Some(State::SentUkeyClientFinish)
            || state == Some(State::SentIntroduction)) ==> recipient_update(item, state).result
            == Some(RecipientStatus::Requested),
        state == Some(State::Disconnected) ==> recipient_update(item, state).result == Some(
            RecipientStatus::Failed,
        ) && recipient_update(item, state).show_result == Some(true),
        state == Some(State::Finished) ==> recipient_update(item, state).result == Some(
            RecipientStatus::Sent { count: item.files_to_send.len() as usize },
        ),
        state == Some(State::Cancelled) ==> recipient_update(item, state).show_result == Some(false),
        state == Some(State::SendingFiles) ==> recipient_update(item, state).result is None
            && recipient_update(item, state).update_eta,
{
}

/// How the estimate and the message of a recipient card move with a message
/// of this state: a request starts the estimate over, sending files steps
/// it, and a cancellation clears the message.
pub open spec fn recipient_after(before: DataTransferObject, after: DataTransferObject) -> bool {
    let msg = before.channel_message.0@;
    let eta0 = before.eta_estimator@;
    let eta1 = after.eta_estimator@;
    &&& after.files_to_send == before.files_to_send
    &&& after.endpoint_info == before.endpoint_info
    &&& after.transfer_kind == before.transfer_kind
    &&& after.transfer_state == before.transfer_state
    &&& after.device_name == before.device_name
    &&& match msg.state {
        Some(State::SentUkeyClientInit) | Some(State::SentUkeyClientFinish) | Some(
            State::SentIntroduction,
        ) => eta1.fresh(eta0.total_len) && after.channel_message.0@ == msg,
        Some(State::SendingFiles) => after.channel_message.0@ == msg && match byte_counts(msg) {
            Some((acked, _)) => exists|now: std::time::Instant, secs: u64|
                eta1 == #[trigger] stepped(eta0, acked as usize, now, secs),
            None => eta1 == eta0,
        },
        Some(State::Cancelled) => eta1 == eta0 && after.channel_message.0@ == protocol::empty_message(),
        _ => eta1 == eta0 && after.channel_message.0@ == msg,
    }
}

/// Whether a recipient card can follow its transfer's current message.
pub open spec fn recipient_accepts(item: DataTransferObject) -> bool {
    &&& item.eta_estimator@.wf()
    &&& item.channel_message.0@.state == Some(State::SendingFiles) ==> match byte_counts(
        item.channel_message.0@,
    ) {
        Some((acked, _)) => can_step(item.eta_estimator@, acked as usize),
        None => true,
    }
}

/// Tests whether a recipient card can follow its transfer's current message.
pub fn recipient_accepts_message(item: &DataTransferObject) -> (b: bool)
    ensures
        b == recipient_accepts(*item),
{
    if !item.eta_estimator.is_wf() {
        return false;
    }
    if item.channel_message.0.state == Some(State::SendingFiles) {
        match &item.channel_message.0.meta {
            Some(m) => item.eta_estimator.can_step_to(m.ack_bytes as usize),
            None => true,
        }
    } else {
        true
    }
}

/// Follows a change of a recipient card's message: says how the card
/// changes, and moves the estimate and the message along.
pub fn update_recipient(model_item: &mut DataTransferObject) -> (r: RecipientUpdate)
    requires
        recipient_accepts(*old(model_item)),
    ensures
        r == recipient_update(*old(model_item), old(model_item).channel_message.0@.state),
        recipient_after(*old(model_item), *final(model_item)),
        final(model_item).eta_estimator@.wf(),
{
    let present = model_item.endpoint_info.0.present.is_some();
    let none = RecipientUpdate {
        row_activatable: None,
        show_cancel: None,
        show_result: None,
        result: None,
        show_eta: None,
        update_eta: false,
        show_progress: None,
        progress: None,
    };
    match model_item.channel_message.0.state {
        Some(State::SentUkeyClientInit) | Some(State::SentUkeyClientFinish) | Some(
            State::SentIntroduction,
        ) => {
            model_item.eta_estimator.prepare_for_new_transfer(None);
            RecipientUpdate {
                row_activatable: Some(false),
                show_cancel: Some(true),
                show_result: Some(true),
                result: Some(RecipientStatus::Requested),
                ..none
            }
        },
        Some(State::SendingFiles) => {
            let progress = match &model_item.channel_message.0.meta {
                Some(m) => {
                    let acked = m.ack_bytes;
                    let total = m.total_bytes;
                    model_item.eta_estimator.step_with(acked as usize);
                    if total > 0 {
                        Some((acked, total))
                    } else {
                        None
                    }
                },
                None => None,
            };
            RecipientUpdate {
                row_activatable: Some(false),
                show_cancel: Some(false),
                show_result: Some(false),
                show_eta: Some(true),
                update_eta: true,
                show_progress: Some(true),
                progress,
                ..none
            }
        },
        Some(State::Disconnected) => RecipientUpdate {
            row_activatable: Some(present),
            show_progress: Some(false),
            show_cancel: Some(false),
            show_eta: Some(false),
            show_result: Some(true),
            result: Some(RecipientStatus::Failed),
            ..none
        },
        Some(State::Cancelled) => {
            model_item.channel_message = ChannelMessage(protocol::ChannelMessage::empty());
            RecipientUpdate {
                row_activatable: Some(present),
                show_progress: Some(false),
                show_cancel: Some(false),
                show_eta: Some(false),
                show_result: Some(false),
                ..none
            }
        },
        Some(State::Finished) => RecipientUpdate {
            row_activatable: Some(false),
            show_cancel: Some(false),
            show_progress: Some(false),
            show_eta: Some(false),
            show_result: Some(true),
            result: Some(RecipientStatus::Sent { count: model_item.files_to_send.len() }),
            ..none
        },
        _ => none,
    }
}

/// The size of all files, if it fits in a `usize`.
pub open spec fn total_size(sizes: Seq<u64>) -> int
    decreases sizes.len(),
{
    if sizes.len() == 0 {
        0
    } else {
        total_size(sizes.drop_last()) + sizes.last()
    }
}

/// Prepares a new recipient card: it sends `files`, whose sizes are
/// `sizes`; a present device gives the card its name (or the translation of
/// "Unknown device"); an estimate that has no size yet gets the files' total.
pub fn create_recipient_card(model_item: &mut DataTransferObject, files: Vec<String>, sizes: &Vec<u64>)
    requires
        old(model_item).transfer_kind == TransferKind::Send,
        total_size(sizes@) <= usize::MAX,
    ensures
        final(model_item).files_to_send == files,
        old(model_item).endpoint_info.0.present is Some ==> (old(model_item).endpoint_info.0.name
            matches Some(n) ==> final(model_item).device_name == n),
        old(model_item).endpoint_info.0.present is Some && old(model_item).endpoint_info.0.name is None
            ==> crate::i18n::is_translation_of("Unknown device"@, final(model_item).device_name),
        old(model_item).endpoint_info.0.present is None ==> final(model_item).device_name
            == old(model_item).device_name,
        if old(model_item).eta_estimator@.total_len == 0 {
            final(model_item).eta_estimator@.fresh(total_size(sizes@) as usize)
        } else {
            final(model_item).eta_estimator@ == old(model_item).eta_estimator@
        },
        final(model_item).endpoint_info == old(model_item).endpoint_info,
        final(model_item).channel_message == old(model_item).channel_message,
        final(model_item).transfer_kind == old(model_item).transfer_kind,
        final(model_item).transfer_state == old(model_item).transfer_state,
{
    model_item.files_to_send = files;
    if model_item.endpoint_info.0.present.is_some() {
        proof {
            reveal_strlit("Unknown device");
        }
        let unknown = gettext("Unknown device");
        proof {
            crate::i18n::lemma_translation("Unknown device", unknown);
        }
        model_item.device_name = endpoint_name_or(&model_item.endpoint_info.0, unknown);
    }
    if model_item.eta_estimator.total_len() == 0 {
        let mut total: usize = 0;
        let mut i: usize = 0;
        while i < sizes.len()
            invariant
                i <= sizes.len(),
                total == total_size(sizes@.take(i as int)),
                total_size(sizes@) <= usize::MAX,
            decreases sizes.len() - i,
        {
            proof {
                assert(sizes@.take(i + 1).drop_last() =~= sizes@.take(i as int));
                lemma_total_size_prefix(sizes@, i + 1);
            }
            total = total + sizes[i] as usize;
            i = i + 1;
        }
        model_item.eta_estimator.prepare_for_new_transfer(Some(total));
        assert(sizes@.take(sizes.len() as int) =~= sizes@);
    }
}

proof fn lemma_total_size_prefix(s: Seq<u64>, i: int)
    requires
        0 <= i <= s.len(),
    ensures
        0 <= total_size(s.take(i)) <= total_size(s),
    decreases s.len(),
{
    if s.len() > 0 {
        if i == s.len() {
            assert(s.take(i) =~= s);
            lemma_total_size_prefix(s.drop_last(), i - 1);
            assert(s.drop_last().take(i - 1) =~= s.drop_last());
        } else {
            assert(s.drop_last().take(i) =~= s.take(i));
            lemma_total_size_prefix(s.drop_last(), i);
        }
    }
}

} // verus!
