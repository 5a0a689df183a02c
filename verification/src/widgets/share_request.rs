//! An incoming share request shown as a chain of alert dialogs: what the
//! interface shows and sends at each step.
use crate::objects::data_transfer::{filenames_of, source_name, text_data_of, ChannelMessage, TextData};
use crate::objects::share_request::ShareRequestState;
use crate::protocol::{self, state_or_initial, ChannelAction, State, TextPayloadType};
use crate::text::{chars_of, first_line, first_line_range, string_of, trim_class, trim_range, CharClass};
use crate::utils::{can_step, stepped};
use crate::widgets::receive_transfer::{byte_counts, ConsentInfo, TransferSummary};
use vstd::prelude::*;

verus! {

/// The one-line preview of a text description: trimmed of white space,
/// then of quotes, then of white space, cut to its first line and trimmed of
/// white space again.
pub open spec fn description_preview(s: Seq<char>) -> Seq<char> {
    trim_class(
        first_line(
            trim_class(
                trim_class(trim_class(s, CharClass::WhiteSpace), CharClass::Quote),
                CharClass::WhiteSpace,
            ),
        ),
        CharClass::WhiteSpace,
    )
}

/// The one-line preview of a text description.
pub fn preview_description(s: &str) -> (r: String)
    ensures
        r@ == description_preview(s@),
{
    let v = chars_of(s);
    assert(v@.subrange(0, v.len() as int) =~= v@);
    let (a, b) = trim_range(&v, 0, v.len(), CharClass::WhiteSpace);
    let (c, d) = trim_range(&v, a, b, CharClass::Quote);
    let (e, f) = trim_range(&v, c, d, CharClass::WhiteSpace);
    let (g, h) = first_line_range(&v, e, f);
    let (i, j) = trim_range(&v, g, h, CharClass::WhiteSpace);
    string_of(&v, i, j)
}

/// Whether a received text can have the quotes around it taken off: once
/// trimmed of white space it has at least two characters, and the first and
/// last are single-byte ones.
pub open spec fn can_unquote(s: Seq<char>) -> bool {
    let t = trim_class(s, CharClass::WhiteSpace);
    &&& t.len() >= 2
    &&& (t[0] as u32) < 0x80
    &&& (t.last() as u32) < 0x80
}

/// A received text trimmed of white space, without its first and last
/// characters: the quotes that the service puts around plain text.
pub open spec fn unquoted(s: Seq<char>) -> Seq<char> {
    let t = trim_class(s, CharClass::WhiteSpace);
    t.subrange(1, t.len() - 1)
}

/// Takes the quotes off a received plain text.
pub fn unquote_text(s: &str) -> (r: String)
    requires
        can_unquote(s@),
    ensures
        r@ == unquoted(s@),
{
    let v = chars_of(s);
    assert(v@.subrange(0, v.len() as int) =~= v@);
    let (a, b) = trim_range(&v, 0, v.len(), CharClass::WhiteSpace);
    assert(v@.subrange(a as int, b as int).subrange(1, (b - a) - 1) =~= v@.subrange(a + 1, b - 1));
    string_of(&v, a + 1, b - 1)
}

/// Tests whether the quotes can be taken off a received text.
pub fn can_unquote_text(s: &str) -> (b: bool)
    ensures
        b == can_unquote(s@),
{
    let v = chars_of(s);
    assert(v@.subrange(0, v.len() as int) =~= v@);
    let (a, b) = trim_range(&v, 0, v.len(), CharClass::WhiteSpace);
    if b - a < 2 {
        return false;
    }
    let first = v[a] as u32;
    let last = v[b - 1] as u32;
    first < 0x80 && last < 0x80
}

/// What the interface does in answer to a step of a share request.
#[derive(Debug, Clone, Copy, PartialEq, Eq, Structural)]
pub enum ShareUiAction {
    /// Grey out the progress dialog's cancel button.
    DisableProgressCancel,
    /// Send this request about the transfer to the service.
    Send(ChannelAction),
    /// Show the progress dialog.
    PresentProgressDialog,
    /// Show the consent dialog with `consent_info`.
    RequestConsent,
    /// Show a spinner in place of the progress bar, for text.
    ShowTextProgress,
    /// Set the progress bar to `acked / total`.
    SetProgressFraction { acked: u64, total: u64 },
    /// Show the estimate of the time left.
    UpdateEtaLabel,
    /// Let the progress dialog be closed.
    AllowProgressClose,
    /// Close the progress dialog.
    CloseProgressDialog,
    /// Close the consent dialog.
    CloseConsentDialog,
    /// Tell the user the sender disconnected.
    ToastDisconnected,
    /// Tell the user the sender cancelled.
    ToastCancelledBySender,
    /// Show the received text, as `received_text` gives it.
    ShowReceivedText,
    /// Tell the user how many files arrived.
    ToastFilesReceived,
}

/// How the user answered the consent dialog.
#[derive(Debug, Clone, Copy, PartialEq, Eq, Structural)]
pub enum ShareConsentResponse {
    Accept,
    /// Declining, which closing the dialog also does.
    Decline,
}

/// A received text as the share dialogs show it.
#[derive(Debug)]
pub struct SharedText {
    pub kind: TextPayloadType,
    pub text: String,
    /// Whether it can be saved to a file: plain text only.
    pub can_save: bool,
    /// Whether it can be opened: links only.
    pub can_open: bool,
    /// Whether the dialog says that this kind is not handled yet: Wi-Fi.
    pub unimplemented: bool,
}

/// A share request as its dialogs follow it.
#[derive(Debug)]
pub struct ShareRequestFlow {
    pub state: ShareRequestState,
    /// The id of the message that announced the request.
    pub init_id: String,
    /// Whether the user accepted.
    pub is_request_accepted: bool,
}

/// The dialogs that a final step closes.
pub open spec fn share_close_effects(accepted: bool) -> Seq<ShareUiAction> {
    seq![
        ShareUiAction::AllowProgressClose,
        if accepted {
            ShareUiAction::CloseProgressDialog
        } else {
            ShareUiAction::CloseConsentDialog
        },
    ]
}

/// What the interface does when a message about the request arrives.
pub open spec fn share_event_effects(init_id: Seq<char>, accepted: bool, msg: protocol::MessageView) -> Seq<ShareUiAction> {
    match state_or_initial(msg.state) {
        State::WaitingForUserConsent => seq![ShareUiAction::RequestConsent] + if text_data_of(msg) is Some {
            seq![ShareUiAction::ShowTextProgress]
        } else {
            Seq::<ShareUiAction>::empty()
        },
        State::ReceivingFiles => if text_data_of(msg) is Some {
            Seq::<ShareUiAction>::empty()
        } else {
            (match byte_counts(msg) {
                Some((acked, total)) => if total > 0 {
                    seq![ShareUiAction::SetProgressFraction { acked, total }]
                } else {
                    Seq::<ShareUiAction>::empty()
                },
                None => Seq::<ShareUiAction>::empty(),
            }) + seq![ShareUiAction::UpdateEtaLabel]
        },
        State::Disconnected => if msg.id == init_id {
            share_close_effects(accepted) + seq![ShareUiAction::ToastDisconnected]
        } else {
            Seq::<ShareUiAction>::empty()
        },
        State::Cancelled => share_close_effects(accepted) + seq![ShareUiAction::ToastCancelledBySender],
        State::Finished => share_close_effects(accepted) + if text_data_of(msg) is Some {
            seq![ShareUiAction::ShowReceivedText]
        } else {
            seq![ShareUiAction::ToastFilesReceived]
        },
        _ => Seq::<ShareUiAction>::empty(),
    }
}

/// Whether a finished request can be shown: its text has a kind, and plain
/// text can have its quotes taken off; or it lists its files.
pub open spec fn share_finish_ready(msg: protocol::MessageView) -> bool {
    match text_data_of(msg) {
        Some((_, text, kind)) => match kind {
            Some(k) => k == TextPayloadType::Text ==> can_unquote(text),
            None => false,
        },
        None => filenames_of(msg) is Some,
    }
}

/// The text shown for a received payload of this kind.
pub open spec fn shared_text_of(kind: TextPayloadType, text: Seq<char>) -> Seq<char> {
    if kind == TextPayloadType::Text {
        unquoted(text)
    } else {
        text
    }
}

impl ShareRequestFlow {
    /// The flow's invariant: the estimator is well formed.
    pub open spec fn wf(&self) -> bool {
        self.state.eta@.wf()
    }

    /// Whether a message about the request can be handled.
    pub open spec fn accepts(&self, msg: protocol::MessageView) -> bool {
        match state_or_initial(msg.state) {
            State::WaitingForUserConsent => msg.meta is Some && (filenames_of(msg) is Some
                || text_data_of(msg) is Some),
            State::ReceivingFiles => text_data_of(msg) is None ==> match byte_counts(msg) {
                Some((acked, _)) => can_step(self.state.eta@, acked as usize),
                None => true,
            },
            State::Finished => share_finish_ready(msg),
            _ => true,
        }
    }

    /// Follows the request announced by `state`.
    pub fn new(state: ShareRequestState) -> (r: Self)
        requires
            state.eta@.wf(),
        ensures
            r.state == state,
            r.init_id@ == state.event.0.id@,
            !r.is_request_accepted,
            r.wf(),
    {
        let init_id = state.event.0.id.clone();
        ShareRequestFlow { state, init_id, is_request_accepted: false }
    }

    /// The request about this transfer that `Send(action)` stands for.
    pub fn request(&self, action: ChannelAction) -> (r: protocol::ChannelMessage)
        ensures
            r@ == (protocol::MessageView {
                id: self.state.event.0.id@,
                action: Some(action),
                ..protocol::empty_message()
            }),
    {
        protocol::ChannelMessage::request(self.state.event.0.id.as_str(), action)
    }

    /// Answers the consent dialog: accepting sends the acceptance and shows
    /// the progress dialog; declining sends the rejection.
    pub fn consent_response(&mut self, response: ShareConsentResponse) -> (r: Vec<ShareUiAction>)
        ensures
            r@ == match response {
                ShareConsentResponse::Accept => seq![
                    ShareUiAction::Send(ChannelAction::AcceptTransfer),
                    ShareUiAction::PresentProgressDialog,
                ],
                ShareConsentResponse::Decline => seq![ShareUiAction::Send(ChannelAction::RejectTransfer)],
            },
            final(self).is_request_accepted == (old(self).is_request_accepted || response
                == ShareConsentResponse::Accept),
            final(self).state.event == old(self).state.event,
            final(self).state.eta == old(self).state.eta,
            final(self).init_id == old(self).init_id,
    {
        match response {
            ShareConsentResponse::Accept => {
                self.is_request_accepted = true;
                vec![ShareUiAction::Send(ChannelAction::AcceptTransfer), ShareUiAction::PresentProgressDialog]
            },
            ShareConsentResponse::Decline => vec![ShareUiAction::Send(ChannelAction::RejectTransfer)],
        }
    }

    /// Answers a press of the progress dialog's cancel button.
    pub fn progress_cancel(&self) -> (r: Vec<ShareUiAction>)
        ensures
            r@ == seq![
                ShareUiAction::DisableProgressCancel,
                ShareUiAction::Send(ChannelAction::CancelTransfer),
            ],
    {
        vec![ShareUiAction::DisableProgressCancel, ShareUiAction::Send(ChannelAction::CancelTransfer)]
    }

    /// Handles a message about the request: records it and says what the
    /// interface shows. A consent request starts the estimate over for the
    /// announced size; received bytes step it.
    pub fn set_event(&mut self, msg: protocol::ChannelMessage) -> (r: Vec<ShareUiAction>)
        requires
            old(self).wf(),
            old(self).accepts(msg@),
        ensures
            final(self).wf(),
            final(self).state.event.0@ == msg@,
            r@ == share_event_effects(old(self).init_id@, old(self).is_request_accepted, msg@),
            final(self).is_request_accepted == old(self).is_request_accepted,
            final(self).init_id == old(self).init_id,
            match (state_or_initial(msg@.state), msg@.meta) {
                (State::WaitingForUserConsent, Some(m)) => final(self).state.eta@.fresh(
                    m.total_bytes as usize,
                ),
                (State::ReceivingFiles, Some(m)) => if text_data_of(msg@) is None {
                    exists|now: std::time::Instant, secs: u64|
                        final(self).state.eta@ == #[trigger] stepped(
                            old(self).state.eta@,
                            m.ack_bytes as usize,
                            now,
                            secs,
                        )
                } else {
                    final(self).state.eta@ == old(self).state.eta@
                },
                _ => final(self).state.eta@ == old(self).state.eta@,
            },
    {
        let mut r: Vec<ShareUiAction> = Vec::new();
        let st = protocol::state_or_initial_of(msg.state);
        let has_text = match &msg.meta {
            Some(m) => m.text_description.is_some(),
            None => false,
        };
        let close = if self.is_request_accepted {
            ShareUiAction::CloseProgressDialog
        } else {
            ShareUiAction::CloseConsentDialog
        };
        match st {
            State::WaitingForUserConsent => {
                r.push(ShareUiAction::RequestConsent);
                match &msg.meta {
                    Some(m) => {
                        self.state.eta.prepare_for_new_transfer(Some(m.total_bytes as usize));
                    },
                    None => {},
                }
                if has_text {
                    r.push(ShareUiAction::ShowTextProgress);
                }
            },
            State::ReceivingFiles => {
                if !has_text {
                    match &msg.meta {
                        Some(m) => {
                            self.state.eta.step_with(m.ack_bytes as usize);
                            if m.total_bytes > 0 {
                                r.push(
                                    ShareUiAction::SetProgressFraction {
                                        acked: m.ack_bytes,
                                        total: m.total_bytes,
                                    },
                                );
                            }
                        },
                        None => {},
                    }
                    r.push(ShareUiAction::UpdateEtaLabel);
                }
            },
            State::Disconnected => {
                if msg.id == self.init_id {
                    r.push(ShareUiAction::AllowProgressClose);
                    r.push(close);
                    r.push(ShareUiAction::ToastDisconnected);
                }
            },
            State::Cancelled => {
                r.push(ShareUiAction::AllowProgressClose);
                r.push(close);
                r.push(ShareUiAction::ToastCancelledBySender);
            },
            State::Finished => {
                r.push(ShareUiAction::AllowProgressClose);
                r.push(close);
                if has_text {
                    r.push(ShareUiAction::ShowReceivedText);
                } else {
                    r.push(ShareUiAction::ToastFilesReceived);
                }
            },
            _ => {},
        }
        self.state.event = ChannelMessage(msg);
        assert(r@ =~= share_event_effects(
            old(self).init_id@,
            old(self).is_request_accepted,
            self.state.event.0@,
        ));
        r
    }

    /// What the consent dialog shows: the sender, the files' count or a
    /// preview of the text, the size and the pairing code.
    pub fn consent_info(&self) -> (r: ConsentInfo)
        requires
            self.state.event.0@.meta is Some,
            filenames_of(self.state.event.0@) is Some || text_data_of(self.state.event.0@) is Some,
        ensures
            source_name(self.state.event.0@) matches Some(n) ==> r.device_name == n,
            source_name(self.state.event.0@) is None ==> crate::i18n::is_translation_of("Unknown device"@, r.device_name),
            r.total_bytes == self.state.event.0@.meta->Some_0.total_bytes,
            r.pin_code@ == match self.state.event.0@.meta->Some_0.pin_code {
                Some(p) => p@,
                None => Seq::<char>::empty(),
            },
            match filenames_of(self.state.event.0@) {
                Some(files) => r.summary matches TransferSummary::Files { count } && count
                    == files.len(),
                None => r.summary matches TransferSummary::Text { preview } && preview@
                    == description_preview(text_data_of(self.state.event.0@)->Some_0.0@),
            },
    {
        let msg = &self.state.event;
        let device_name = ChannelMessage::get_device_name(&msg.0);
        let (total_bytes, pin_code) = match &msg.0.meta {
            Some(m) => (
                m.total_bytes,
                match &m.pin_code {
                    Some(p) => p.clone(),
                    None => String::new(),
                },
            ),
            None => (0, String::new()),
        };
        let summary = match msg.get_filenames() {
            Some(files) => TransferSummary::Files { count: files.len() },
            None => match msg.get_text_data() {
                Some(t) => TransferSummary::Text { preview: preview_description(t.description.as_str()) },
                None => TransferSummary::Files { count: 0 },
            },
        };
        ConsentInfo { device_name, summary, total_bytes, pin_code }
    }

    /// The received text as the dialog shows it: unquoted when it is plain
    /// text.
    pub fn received_text(&self) -> (r: SharedText)
        requires
            share_finish_ready(self.state.event.0@),
            text_data_of(self.state.event.0@) is Some,
        ensures
            ({
                let (_, text, kind) = text_data_of(self.state.event.0@)->Some_0;
                &&& kind == Some(r.kind)
                &&& r.text@ == shared_text_of(r.kind, text)
                &&& r.can_save == (r.kind == TextPayloadType::Text)
                &&& r.can_open == (r.kind == TextPayloadType::Url)
                &&& r.unimplemented == (r.kind == TextPayloadType::Wifi)
            }),
    {
        let t = match self.state.event.get_text_data() {
            Some(t) => t,
            None => TextData { description: String::new(), text: String::new(), kind: None },
        };
        let kind = match t.kind {
            Some(k) => k,
            None => TextPayloadType::Text,
        };
        let text = if kind == TextPayloadType::Text {
            unquote_text(t.text.as_str())
        } else {
            t.text
        };
        SharedText {
            kind,
            text,
            can_save: kind == TextPayloadType::Text,
            can_open: kind == TextPayloadType::Url,
            unimplemented: kind == TextPayloadType::Wifi,
        }
    }

    /// How many files arrived.
    pub fn received_file_count(&self) -> (r: usize)
        requires
            filenames_of(self.state.event.0@) is Some,
        ensures
            r == filenames_of(self.state.event.0@)->Some_0.len(),
    {
        match self.state.event.get_filenames() {
            Some(files) => files.len(),
            None => 0,
        }
    }

    /// Tests whether a message about the request can be handled.
    pub fn accepts_message(&self, msg: &protocol::ChannelMessage) -> (b: bool)
        ensures
            b == self.accepts(msg@),
    {
        let st = protocol::state_or_initial_of(msg.state);
        let m = ChannelMessage(msg.duplicate());
        match st {
            State::WaitingForUserConsent => msg.meta.is_some() && (m.get_filenames().is_some()
                || m.get_text_data().is_some()),
            State::ReceivingFiles => {
                if m.get_text_data().is_some() {
                    return true;
                }
                match &msg.meta {
                    Some(meta) => self.state.eta.can_step_to(meta.ack_bytes as usize),
                    None => true,
                }
            },
            State::Finished => match m.get_text_data() {
                Some(t) => match t.kind {
                    Some(k) => k != TextPayloadType::Text || can_unquote_text(t.text.as_str()),
                    None => false,
                },
                None => m.get_filenames().is_some(),
            },
            _ => true,
        }
    }
}

/// The translated name of a kind of text, as the dialog title shows it.
pub fn display_text_type(value: &TextPayloadType) -> (r: String)
    ensures
        crate::i18n::is_translation_of(crate::widgets::receive_transfer::text_type_label(*value), r),
{
    crate::widgets::receive_transfer::display_text_type(value)
}

} // verus!
