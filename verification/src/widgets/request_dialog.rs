//! The dialog that follows an incoming request from consent to the received
//! files or text.
use crate::objects::data_transfer::{filenames_of, source_name, text_data_of, ChannelMessage};
use crate::protocol::{self, state_or_initial, ChannelAction, State, TextPayloadType};
use crate::text::chars_of;
use crate::utils::{can_step, stepped, DataTransferEta};
use crate::widgets::receive_transfer::byte_counts;
use crate::widgets::share_request::{can_unquote, can_unquote_text, shared_text_of, unquote_text, SharedText};
use vstd::prelude::*;

verus! {

/// The message being followed and the transfer-time estimate.
#[derive(Debug)]
pub struct ReceiveRequestState {
    pub msg: ChannelMessage,
    pub eta: DataTransferEta,
}

impl ReceiveRequestState {
    /// The state of a request announced by `msg`.
    pub fn new(msg: protocol::ChannelMessage) -> (r: Self)
        ensures
            r.msg.0@ == msg@,
            r.eta@.fresh(0),
    {
        ReceiveRequestState { msg: ChannelMessage(msg), eta: DataTransferEta::new(0) }
    }
}

/// What the dialog shows.
#[derive(Debug, Clone, Copy, PartialEq, Eq, Structural)]
pub enum DialogContent {
    /// The progress of the transfer.
    Receiving,
    /// That the sender disconnected.
    Disconnected,
    /// That the transfer failed.
    Failed,
    /// That this many files arrived.
    ReceivedFiles { count: usize },
    /// The received text, of this kind.
    ReceivedText { kind: TextPayloadType },
}

/// What the dialog does when a message arrives.
#[derive(Debug, Clone, Copy)]
pub struct DialogStep {
    /// What it shows from now on, if that changes.
    pub content: Option<DialogContent>,
    /// The progress bar's new `(acked, total)` bytes, if it moves.
    pub progress: Option<(u64, u64)>,
    /// Whether the estimate of the time left is shown anew.
    pub update_eta: bool,
    /// Whether the dialog may now be closed, if that changes.
    pub can_close: Option<bool>,
    /// The request's new state, if it changes.
    pub transfer_state: Option<crate::objects::TransferState>,
    /// Whether the dialog stops listening: the transfer is over.
    pub stop: bool,
}

/// A step that changes nothing.
pub open spec fn no_step() -> DialogStep {
    DialogStep {
        content: None,
        progress: None,
        update_eta: false,
        can_close: None,
        transfer_state: None,
        stop: false,
    }
}

/// What a finished transfer shows.
pub open spec fn finished_content(msg: protocol::MessageView) -> DialogContent {
    match text_data_of(msg) {
        Some((_, _, kind)) => DialogContent::ReceivedText {
            kind: match kind {
                Some(k) => k,
                None => TextPayloadType::Text,
            },
        },
        None => DialogContent::ReceivedFiles {
            count: match filenames_of(msg) {
                Some(f) => f.len() as usize,
                None => 0,
            },
        },
    }
}

/// The progress that received bytes show.
pub open spec fn receiving_progress(msg: protocol::MessageView) -> Option<(u64, u64)> {
    match byte_counts(msg) {
        Some((acked, total)) => if total > 0 {
            Some((acked, total))
        } else {
            None
        },
        None => None,
    }
}

/// What the request dialog does when `msg` arrives.
pub open spec fn request_dialog_step(msg: protocol::MessageView) -> DialogStep {
    match state_or_initial(msg.state) {
        State::ReceivingFiles => DialogStep {
            content: Some(DialogContent::Receiving),
            progress: receiving_progress(msg),
            update_eta: true,
            ..no_step()
        },
        State::Disconnected => DialogStep {
            content: Some(DialogContent::Disconnected),
            stop: true,
            ..no_step()
        },
        State::Rejected => DialogStep { stop: true, ..no_step() },
        State::Cancelled => DialogStep { content: Some(DialogContent::Failed), stop: true, ..no_step() },
        State::Finished => DialogStep {
            content: Some(finished_content(msg)),
            stop: true,
            ..no_step()
        },
        _ => no_step(),
    }
}

/// Whether a finished transfer can be shown: its text has a kind, plain
/// text can have its quotes taken off, or it lists its files.
pub open spec fn dialog_finish_ready(msg: protocol::MessageView) -> bool {
    match text_data_of(msg) {
        Some((_, text, kind)) => match kind {
            Some(k) => k == TextPayloadType::Text ==> can_unquote(text),
            None => false,
        },
        None => filenames_of(msg) is Some,
    }
}

/// Whether the estimate can take the message's bytes.
pub open spec fn eta_accepts(eta: crate::utils::EtaView, msg: protocol::MessageView) -> bool {
    state_or_initial(msg.state) == State::ReceivingFiles ==> match byte_counts(msg) {
        Some((acked, _)) => can_step(eta, acked as usize),
        None => true,
    }
}

/// How the dialog's buttons answer.
#[derive(Debug, Clone, Copy, PartialEq, Eq, Structural)]
pub enum DialogButton {
    Accept,
    Decline,
    Cancel,
}

/// What a button press does: declining closes the dialog, the other two
/// grey out their button; each sends its request.
#[derive(Debug, Clone, Copy, PartialEq, Eq, Structural)]
pub struct ButtonOutcome {
    pub close_dialog: bool,
    pub disable_button: bool,
    pub send: ChannelAction,
}

/// What a button press does.
pub open spec fn button_outcome_of(button: DialogButton) -> ButtonOutcome {
    match button {
        DialogButton::Accept => ButtonOutcome {
            close_dialog: false,
            disable_button: true,
            send: ChannelAction::AcceptTransfer,
        },
        DialogButton::Decline => ButtonOutcome {
            close_dialog: true,
            disable_button: false,
            send: ChannelAction::RejectTransfer,
        },
        DialogButton::Cancel => ButtonOutcome {
            close_dialog: false,
            disable_button: true,
            send: ChannelAction::CancelTransfer,
        },
    }
}

/// What a button press does.
pub fn button_outcome(button: DialogButton) -> (r: ButtonOutcome)
    ensures
        r == button_outcome_of(button),
{
    match button {
        DialogButton::Accept => ButtonOutcome {
            close_dialog: false,
            disable_button: true,
            send: ChannelAction::AcceptTransfer,
        },
        DialogButton::Decline => ButtonOutcome {
            close_dialog: true,
            disable_button: false,
            send: ChannelAction::RejectTransfer,
        },
        DialogButton::Cancel => ButtonOutcome {
            close_dialog: false,
            disable_button: true,
            send: ChannelAction::CancelTransfer,
        },
    }
}

/// Whether the dialog may close when the user tries to, and what it sends:
/// a request still waiting for consent is declined; one receiving files
/// keeps the dialog open.
pub open spec fn close_attempt_of(state: Option<State>) -> (bool, Option<ChannelAction>) {
    match state {
        Some(State::WaitingForUserConsent) => (true, Some(ChannelAction::RejectTransfer)),
        Some(State::ReceivingFiles) => (false, None),
        _ => (true, None),
    }
}

/// The caption of a received text: "Received" and the kind's name.
pub open spec fn received_caption_of(kind: TextPayloadType) -> Seq<char> {
    match kind {
        TextPayloadType::Url => "Received Url"@,
        TextPayloadType::Text => "Received Text"@,
        TextPayloadType::Wifi => "Received Wifi"@,
    }
}

/// The caption of a received text.
pub fn received_caption(kind: TextPayloadType) -> (r: String)
    ensures
        r@ == received_caption_of(kind),
{
    let mut r = String::new();
    proof {
        reveal_strlit("Received Url");
        reveal_strlit("Received Text");
        reveal_strlit("Received Wifi");
    }
    match kind {
        TextPayloadType::Url => r.append("Received Url"),
        TextPayloadType::Text => r.append("Received Text"),
        TextPayloadType::Wifi => r.append("Received Wifi"),
    }
    r
}

/// A text description without its line feeds.
pub open spec fn without_newlines(s: Seq<char>) -> Seq<char> {
    s.filter(|c: char| c != '\n')
}

/// Removes the line feeds of a text description.
pub fn strip_newlines(s: &str) -> (r: String)
    ensures
        r@ == without_newlines(s@),
{
    let v = chars_of(s);
    let mut r = String::new();
    let mut i: usize = 0;
    while i < v.len()
        invariant
            i <= v.len(),
            r@ == without_newlines(v@.take(i as int)),
        decreases v.len() - i,
    {
        proof {
            assert(v@.take(i + 1).drop_last() =~= v@.take(i as int));
            reveal_with_fuel(Seq::filter, 1);
        }
        if v[i] != '\n' {
            crate::utils::push_char(&mut r, v[i]);
        }
        i = i + 1;
    }
    assert(v@.take(v.len() as int) =~= v@);
    r
}

/// What the request dialog's caption shows before the user chooses.
#[derive(Debug)]
pub enum RequestCaption {
    /// The sender wants to share this many files of this size.
    Files { device_name: String, count: usize, total_bytes: u64 },
    /// The sender wants to share a text with this description.
    Text { device_name: String, description: String },
}

/// An incoming request as its dialog follows it.
#[derive(Debug)]
pub struct ReceiveRequestDialog {
    pub state: ReceiveRequestState,
    /// Whether the dialog stopped listening: the transfer is over, and later
    /// messages change nothing.
    pub stopped: bool,
}

impl ReceiveRequestDialog {
    /// Whether a request can open the dialog: it has metadata, and files or
    /// a text.
    pub open spec fn can_open(msg: protocol::MessageView) -> bool {
        msg.meta is Some && (filenames_of(msg) is Some || text_data_of(msg) is Some)
    }

    /// Opens the dialog for the request in `state`, starting the estimate
    /// over for the announced size.
    pub fn open(state: ReceiveRequestState) -> (r: Self)
        requires
            Self::can_open(state.msg.0@),
        ensures
            r.state.msg == state.msg,
            !r.stopped,
            r.state.eta@.fresh(state.msg.0@.meta->Some_0.total_bytes as usize),
            r.state.eta@.wf(),
    {
        let mut state = state;
        let total = match &state.msg.0.meta {
            Some(m) => m.total_bytes,
            None => 0,
        };
        state.eta.prepare_for_new_transfer(Some(total as usize));
        ReceiveRequestDialog { state, stopped: false }
    }

    /// What the caption shows before the user chooses.
    pub fn caption(&self) -> (r: RequestCaption)
        requires
            Self::can_open(self.state.msg.0@),
        ensures
            match filenames_of(self.state.msg.0@) {
                Some(files) => r matches RequestCaption::Files { device_name, count, total_bytes }
                    && count == files.len() && total_bytes == self.state.msg.0@.meta->Some_0.total_bytes
                    && (source_name(self.state.msg.0@) matches Some(n) ==> device_name == n)
                    && (source_name(self.state.msg.0@) is None ==> crate::i18n::is_translation_of("Unknown device"@, device_name)),
                None => r matches RequestCaption::Text { device_name, description } && description@
                    == without_newlines(text_data_of(self.state.msg.0@)->Some_0.0@) && (source_name(
                    self.state.msg.0@,
                ) matches Some(n) ==> device_name == n) && (source_name(self.state.msg.0@) is None
                    ==> crate::i18n::is_translation_of("Unknown device"@, device_name)),
            },
    {
        let msg = &self.state.msg;
        let device_name = ChannelMessage::get_device_name(&msg.0);
        let total_bytes = match &msg.0.meta {
            Some(m) => m.total_bytes,
            None => 0,
        };
        match msg.get_filenames() {
            Some(files) => RequestCaption::Files { device_name, count: files.len(), total_bytes },
            None => match msg.get_text_data() {
                Some(t) => RequestCaption::Text {
                    device_name,
                    description: strip_newlines(t.description.as_str()),
                },
                None => RequestCaption::Files { device_name, count: 0, total_bytes },
            },
        }
    }

    /// The request about this transfer for `action`.
    pub fn request(&self, action: ChannelAction) -> (r: protocol::ChannelMessage)
        ensures
            r@ == (protocol::MessageView {
                id: self.state.msg.0.id@,
                action: Some(action),
                ..protocol::empty_message()
            }),
    {
        protocol::ChannelMessage::request(self.state.msg.0.id.as_str(), action)
    }

    /// Whether the dialog may close when the user tries to, and what it sends.
    pub fn close_attempt(&self) -> (r: (bool, Option<ChannelAction>))
        ensures
            r == close_attempt_of(self.state.msg.0.state),
    {
        match self.state.msg.0.state {
            Some(State::WaitingForUserConsent) => (true, Some(ChannelAction::RejectTransfer)),
            Some(State::ReceivingFiles) => (false, None),
            _ => (true, None),
        }
    }

    /// Whether a message can be handled.
    pub open spec fn accepts(&self, msg: protocol::MessageView) -> bool {
        self.stopped || {
            &&& eta_accepts(self.state.eta@, msg)
            &&& state_or_initial(msg.state) == State::Finished ==> dialog_finish_ready(msg)
        }
    }

    /// Tests whether a message can be handled.
    pub fn accepts_message(&self, msg: &protocol::ChannelMessage) -> (b: bool)
        ensures
            b == self.accepts(msg@),
    {
        self.stopped || accepts_dialog_message(&self.state.eta, msg)
    }

    /// Records a message and says what the dialog does; received bytes step
    /// the estimate. Once the dialog stopped, a message changes nothing.
    pub fn on_message(&mut self, msg: protocol::ChannelMessage) -> (r: DialogStep)
        requires
            old(self).state.eta@.wf(),
            old(self).accepts(msg@),
        ensures
            final(self).state.eta@.wf(),
            old(self).stopped ==> r == no_step() && final(self).stopped && final(self).state.msg
                == old(self).state.msg && final(self).state.eta@ == old(self).state.eta@,
            !old(self).stopped ==> r == request_dialog_step(msg@) && final(self).state.msg.0@ == msg@
                && final(self).stopped == r.stop && eta_after(
                old(self).state.eta@,
                final(self).state.eta@,
                msg@,
            ),
    {
        if self.stopped {
            return DialogStep {
                content: None,
                progress: None,
                update_eta: false,
                can_close: None,
                transfer_state: None,
                stop: false,
            };
        }
        let st = protocol::state_or_initial_of(msg.state);
        let step = match st {
            State::ReceivingFiles => {
                let progress = step_eta(&mut self.state.eta, &msg);
                DialogStep {
                    content: Some(DialogContent::Receiving),
                    progress,
                    update_eta: true,
                    can_close: None,
                    transfer_state: None,
                    stop: false,
                }
            },
            State::Disconnected => DialogStep {
                content: Some(DialogContent::Disconnected),
                progress: None,
                update_eta: false,
                can_close: None,
                transfer_state: None,
                stop: true,
            },
            State::Rejected => DialogStep {
                content: None,
                progress: None,
                update_eta: false,
                can_close: None,
                transfer_state: None,
                stop: true,
            },
            State::Cancelled => DialogStep {
                content: Some(DialogContent::Failed),
                progress: None,
                update_eta: false,
                can_close: None,
                transfer_state: None,
                stop: true,
            },
            State::Finished => DialogStep {
                content: Some(finished_content_of(&msg)),
                progress: None,
                update_eta: false,
                can_close: None,
                transfer_state: None,
                stop: true,
            },
            _ => DialogStep {
                content: None,
                progress: None,
                update_eta: false,
                can_close: None,
                transfer_state: None,
                stop: false,
            },
        };
        self.state.msg = ChannelMessage(msg);
        self.stopped = step.stop;
        step
    }

    /// The received text as the dialog shows it.
    pub fn received_text(&self) -> (r: SharedText)
        requires
            dialog_finish_ready(self.state.msg.0@),
            text_data_of(self.state.msg.0@) is Some,
        ensures
            ({
                let (_, text, kind) = text_data_of(self.state.msg.0@)->Some_0;
                &&& kind == Some(r.kind)
                &&& r.text@ == shared_text_of(r.kind, text)
                &&& r.can_save == (r.kind == TextPayloadType::Text)
                &&& r.can_open == (r.kind == TextPayloadType::Url)
                &&& r.unimplemented == (r.kind == TextPayloadType::Wifi)
            }),
    {
        shared_text(&self.state.msg)
    }
}

/// The request dialog shows what the message says happened: received bytes
/// show the progress (and move the bar when the size is known), a
/// disconnection shows the disconnection, a cancellation the failure, a
/// finished transfer what arrived; each of these but the progress ends the
/// dialog, as a rejection does. A message of any other state changes nothing.
pub proof fn law_dialog_shows_what_happened(msg: protocol::MessageView)
    ensures
        msg.state == Some(State::ReceivingFiles) ==> request_dialog_step(msg).content == Some(
            DialogContent::Receiving,
        ) && !request_dialog_step(msg).stop && request_dialog_step(msg).update_eta,
        msg.state == Some(State::ReceivingFiles) ==> (msg.meta matches Some(m) && m.total_bytes > 0
            <==> request_dialog_step(msg).progress == Some((msg.meta->Some_0.ack_bytes, msg.meta->Some_0.total_bytes))),
        msg.state == Some(State::Disconnected) ==> request_dialog_step(msg).content == Some(
            DialogContent::Disconnected,
        ) && request_dialog_step(msg).stop,
        msg.state == Some(State::Cancelled) ==> request_dialog_step(msg).content == Some(
            DialogContent::Failed,
        ) && request_dialog_step(msg).stop,
        msg.state == Some(State::Rejected) ==> request_dialog_step(msg).content is None
            && request_dialog_step(msg).stop,
        msg.state == Some(State::Finished) ==> request_dialog_step(msg).stop && match filenames_of(
            msg,
        ) {
            Some(files) => text_data_of(msg) is None ==> request_dialog_step(msg).content == Some(
                DialogContent::ReceivedFiles { count: files.len() as usize },
            ),
            None => true,
        },
        !(msg.state == Some(State::ReceivingFiles) || msg.state == Some(State::Disconnected)
            || msg.state == Some(State::Cancelled) || msg.state == Some(State::Rejected) || msg.state
            == Some(State::Finished)) ==> request_dialog_step(msg) == no_step(),
{
}

/// How the estimate moves with a message: received bytes step it, and
/// nothing else touches it.
pub open spec fn eta_after(before: crate::utils::EtaView, after: crate::utils::EtaView, msg: protocol::MessageView) -> bool {
    match (state_or_initial(msg.state), byte_counts(msg)) {
        (State::ReceivingFiles, Some((acked, _))) => exists|now: std::time::Instant, secs: u64|
            after == #[trigger] stepped(before, acked as usize, now, secs),
        _ => after == before,
    }
}

/// Steps the estimate with a message's received bytes and gives the
/// progress to show.
pub(crate) fn step_eta(eta: &mut DataTransferEta, msg: &protocol::ChannelMessage) -> (r: Option<(u64, u64)>)
    requires
        old(eta)@.wf(),
        state_or_initial(msg@.state) == State::ReceivingFiles,
        eta_accepts(old(eta)@, msg@),
    ensures
        r == receiving_progress(msg@),
        final(eta)@.wf(),
        eta_after(old(eta)@, final(eta)@, msg@),
{
    match &msg.meta {
        Some(m) => {
            eta.step_with(m.ack_bytes as usize);
            if m.total_bytes > 0 {
                Some((m.ack_bytes, m.total_bytes))
            } else {
                None
            }
        },
        None => None,
    }
}

/// What a finished transfer shows.
pub(crate) fn finished_content_of(msg: &protocol::ChannelMessage) -> (r: DialogContent)
    ensures
        r == finished_content(msg@),
{
    let m = ChannelMessage(msg.duplicate());
    match m.get_text_data() {
        Some(t) => DialogContent::ReceivedText {
            kind: match t.kind {
                Some(k) => k,
                None => TextPayloadType::Text,
            },
        },
        None => DialogContent::ReceivedFiles {
            count: match m.get_filenames() {
                Some(f) => f.len(),
                None => 0,
            },
        },
    }
}

/// The received text of a message as the dialogs show it.
pub(crate) fn shared_text(msg: &ChannelMessage) -> (r: SharedText)
    requires
        dialog_finish_ready(msg.0@),
        text_data_of(msg.0@) is Some,
    ensures
        ({
            let (_, text, kind) = text_data_of(msg.0@)->Some_0;
            &&& kind == Some(r.kind)
            &&& r.text@ == shared_text_of(r.kind, text)
            &&& r.can_save == (r.kind == TextPayloadType::Text)
            &&& r.can_open == (r.kind == TextPayloadType::Url)
            &&& r.unimplemented == (r.kind == TextPayloadType::Wifi)
        }),
{
    let (kind, raw) = match msg.get_text_data() {
        Some(t) => (
            match t.kind {
                Some(k) => k,
                None => TextPayloadType::Text,
            },
            t.text,
        ),
        None => (TextPayloadType::Text, String::new()),
    };
    let text = if kind == TextPayloadType::Text {
        unquote_text(raw.as_str())
    } else {
        raw
    };
    SharedText {
        kind,
        text,
        can_save: kind == TextPayloadType::Text,
        can_open: kind == TextPayloadType::Url,
        unimplemented: kind == TextPayloadType::Wifi,
    }
}

/// Tests whether a dialog with this estimate can handle a message.
pub(crate) fn accepts_dialog_message(eta: &DataTransferEta, msg: &protocol::ChannelMessage) -> (b: bool)
    ensures
        b == (eta_accepts(eta@, msg@) && (state_or_initial(msg@.state) == State::Finished
            ==> dialog_finish_ready(msg@))),
{
    let st = protocol::state_or_initial_of(msg.state);
    match st {
        State::ReceivingFiles => match &msg.meta {
            Some(m) => eta.can_step_to(m.ack_bytes as usize),
            None => true,
        },
        State::Finished => {
            let m = ChannelMessage(msg.duplicate());
            match m.get_text_data() {
                Some(t) => match t.kind {
                    Some(k) => k != TextPayloadType::Text || can_unquote_text(t.text.as_str()),
                    None => false,
                },
                None => m.get_filenames().is_some(),
            }
        },
        _ => true,
    }
}

/// Creates the dialog for a request: the entry point that checks what the
/// dialog needs of the request and opens it, or gives the request back.
pub fn create_receive_request_dialog(receive_state: ReceiveRequestState) -> (r: Result<ReceiveRequestDialog, ReceiveRequestState>)
    ensures
        match r {
            Ok(d) => ReceiveRequestDialog::can_open(receive_state.msg.0@) && d.state.msg
                == receive_state.msg && !d.stopped && d.state.eta@.wf() && d.state.eta@.fresh(
                receive_state.msg.0@.meta->Some_0.total_bytes as usize,
            ),
            Err(s) => !ReceiveRequestDialog::can_open(receive_state.msg.0@) && s == receive_state,
        },
{
    let ok = receive_state.msg.0.meta.is_some() && (receive_state.msg.get_filenames().is_some()
        || receive_state.msg.get_text_data().is_some());
    if ok {
        Ok(ReceiveRequestDialog::open(receive_state))
    } else {
        Err(receive_state)
    }
}

} // verus!
