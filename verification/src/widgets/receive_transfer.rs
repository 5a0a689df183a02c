//! An incoming transfer, from the consent request to the received files or
//! text: what the interface shows and sends at each step.
use crate::text::{chars_of, first_line_range, string_of, trim_range, CharClass, first_line, trim_class};
use crate::objects::data_transfer::{filenames_of, source_name, text_data_of, ChannelMessage, TextData};
use crate::objects::receive_transfer::{ReceiveTransferState, UserAction};
use crate::protocol::{self, state_or_initial, ChannelAction, State, TextPayloadType};
use crate::utils::{can_step, stepped};
use vstd::prelude::*;

verus! {

/// Whether a text payload comes wrapped as `"..."` followed by a line feed,
/// which some senders add.
pub open spec fn is_wrapped_payload(s: Seq<char>) -> bool {
    &&& s.len() >= 2
    &&& s[0] == '"'
    &&& s[s.len() - 2] == '"'
    &&& s[s.len() - 1] == '\n'
}

/// A text payload without the wrapping quotes and line feed, if it has them.
pub open spec fn cleaned_payload(s: Seq<char>) -> Seq<char> {
    if is_wrapped_payload(s) {
        s.subrange(1, s.len() - 2)
    } else {
        s
    }
}

/// Whether a payload can be cleaned: only the two-character payload made of
/// a quote and a line feed cannot, its wrapping overlapping itself.
pub open spec fn can_clean(s: Seq<char>) -> bool {
    s != seq!['"', '\n']
}

/// A payload as it is shown: without the quotes and line feed that some
/// senders wrap text in.
pub fn clean_text_payload(s: &str) -> (r: String)
    requires
        can_clean(s@),
    ensures
        r@ == cleaned_payload(s@),
{
    let v = chars_of(s);
    let n = v.len();
    if n >= 2 && v[0] == '"' && v[n - 2] == '"' && v[n - 1] == '\n' {
        if n == 2 {
            assert(v@ =~= seq!['"', '\n']);
        }
        string_of(&v, 1, n - 2)
    } else {
        string_of(&v, 0, n)
    }
}

/// The one-line preview of a payload: cleaned, trimmed of quotes and line
/// feeds, cut to its first line and trimmed again.
pub open spec fn preview_of_payload(s: Seq<char>) -> Seq<char> {
    trim_class(
        first_line(trim_class(cleaned_payload(s), CharClass::QuoteOrNewline)),
        CharClass::QuoteOrNewline,
    )
}

/// The one-line preview of a payload.
pub fn clean_preview_text_payload(s: &str) -> (r: String)
    requires
        can_clean(s@),
    ensures
        r@ == preview_of_payload(s@),
{
    let cleaned = clean_text_payload(s);
    let v = chars_of(cleaned.as_str());
    let (a, b) = trim_range(&v, 0, v.len(), CharClass::QuoteOrNewline);
    let (c, d) = first_line_range(&v, a, b);
    let (e, f) = trim_range(&v, c, d, CharClass::QuoteOrNewline);
    assert(v@.subrange(0, v.len() as int) =~= v@);
    string_of(&v, e, f)
}

/// How many bytes a character takes in UTF-8.
pub open spec fn utf8_width(c: char) -> nat {
    let u = c as u32;
    if u < 0x80 {
        1
    } else if u < 0x800 {
        2
    } else if u < 0x10000 {
        3
    } else {
        4
    }
}

/// How many bytes a text takes in UTF-8.
pub open spec fn utf8_len(s: Seq<char>) -> nat
    decreases s.len(),
{
    if s.len() == 0 {
        0
    } else {
        utf8_width(s[0]) + utf8_len(s.drop_first())
    }
}

/// The longest start of `s` that fits in `n` bytes of UTF-8.
pub open spec fn utf8_prefix(s: Seq<char>, n: int) -> Seq<char>
    decreases s.len(),
{
    if s.len() == 0 || utf8_width(s[0]) > n {
        Seq::<char>::empty()
    } else {
        seq![s[0]] + utf8_prefix(s.drop_first(), n - utf8_width(s[0]))
    }
}

/// How many bytes of a received text a notification shows.
pub const PREVIEW_BYTES: usize = 48;

/// Whether the preview of `s` can be cut: it fits, or its first
/// `PREVIEW_BYTES` bytes end on a character.
pub open spec fn can_cut_preview(s: Seq<char>) -> bool {
    utf8_len(s) <= PREVIEW_BYTES || utf8_len(utf8_prefix(s, PREVIEW_BYTES as int)) == PREVIEW_BYTES
}

/// What a notification shows of a received text: all of it when it fits in
/// `PREVIEW_BYTES` bytes, else those bytes followed by "...".
pub open spec fn notification_preview(s: Seq<char>) -> Seq<char> {
    if utf8_len(s) > PREVIEW_BYTES {
        utf8_prefix(s, PREVIEW_BYTES as int) + "..."@
    } else {
        s
    }
}

fn utf8_width_of(c: char) -> (w: usize)
    ensures
        w == utf8_width(c),
{
    let u = c as u32;
    if u < 0x80 {
        1
    } else if u < 0x800 {
        2
    } else if u < 0x10000 {
        3
    } else {
        4
    }
}

/// Cuts a received text for a notification.
pub fn text_preview(s: &str) -> (r: String)
    requires
        can_cut_preview(s@),
    ensures
        r@ == notification_preview(s@),
{
    let v = chars_of(s);
    let n = v.len();
    // The byte length, capped just above the preview size.
    let mut total: usize = 0;
    let mut i: usize = 0;
    assert(v@.skip(0) =~= v@);
    while i < n && total <= PREVIEW_BYTES
        invariant
            v@ == s@,
            n == v.len(),
            i <= n,
            total <= PREVIEW_BYTES + 4,
            utf8_len(v@) == total + utf8_len(v@.skip(i as int)),
        decreases n - i,
    {
        assert(v@.skip(i as int).drop_first() =~= v@.skip(i + 1));
        total = total + utf8_width_of(v[i]);
        i = i + 1;
    }
    assert(v@.skip(n as int) =~= Seq::<char>::empty());
    if total <= PREVIEW_BYTES {
        string_of(&v, 0, n)
    } else {
        // The characters that fit in the preview.
        let mut k: usize = 0;
        let mut used: usize = 0;
        assert(v@.skip(0) =~= v@);
        assert(v@.take(0) =~= Seq::<char>::empty());
        assert(v@.take(0) + utf8_prefix(v@, PREVIEW_BYTES as int) =~= utf8_prefix(v@, PREVIEW_BYTES as int));
        assert(utf8_len(Seq::<char>::empty()) == 0);
        while k < n && used + utf8_width_of(v[k]) <= PREVIEW_BYTES
            invariant
                v@ == s@,
                n == v.len(),
                k <= n,
                used <= PREVIEW_BYTES,
                utf8_prefix(v@, PREVIEW_BYTES as int) == v@.take(k as int) + utf8_prefix(
                    v@.skip(k as int),
                    PREVIEW_BYTES - used,
                ),
                utf8_len(v@.take(k as int)) == used,
            decreases n - k,
        {
            proof {
                assert(v@.skip(k as int).drop_first() =~= v@.skip(k + 1));
                assert(v@.take(k as int).push(v@[k as int]) =~= v@.take(k + 1));
                lemma_utf8_len_push(v@.take(k as int), v@[k as int]);
            }
            used = used + utf8_width_of(v[k]);
            k = k + 1;
        }
        proof {
            if k < n {
                assert(utf8_prefix(v@.skip(k as int), PREVIEW_BYTES - used) =~= Seq::<char>::empty());
            } else {
                assert(v@.skip(k as int) =~= Seq::<char>::empty());
            }
            assert(v@.take(k as int) + Seq::<char>::empty() =~= v@.take(k as int));
        }
        let mut r = string_of(&v, 0, k);
        proof {
            reveal_strlit("...");
        }
        r.append("...");
        r
    }
}

/// Tests whether a payload can be cleaned.
pub fn can_clean_text(s: &str) -> (b: bool)
    ensures
        b == can_clean(s@),
{
    let v = chars_of(s);
    if v.len() == 2 && v[0] == '"' && v[1] == '\n' {
        assert(v@ =~= seq!['"', '\n']);
        false
    } else {
        assert(v@.len() != 2 || v@[0] != '"' || v@[1] != '\n');
        true
    }
}

/// Tests whether the preview of a text can be cut.
pub fn can_cut_text_preview(s: &str) -> (b: bool)
    ensures
        b == can_cut_preview(s@),
{
    let v = chars_of(s);
    let n = v.len();
    let mut total: usize = 0;
    let mut i: usize = 0;
    let mut at_boundary = false;
    assert(v@.skip(0) =~= v@);
    assert(v@.take(0) =~= Seq::<char>::empty());
    assert(utf8_prefix(v@, PREVIEW_BYTES as int) == v@.take(0) + utf8_prefix(v@.skip(0), PREVIEW_BYTES as int));
    assert(utf8_len(Seq::<char>::empty()) == 0);
    while i < n && total + utf8_width_of(v[i]) <= PREVIEW_BYTES
        invariant
            v@ == s@,
            n == v.len(),
            i <= n,
            total <= PREVIEW_BYTES,
            utf8_len(v@) == total + utf8_len(v@.skip(i as int)),
            utf8_prefix(v@, PREVIEW_BYTES as int) == v@.take(i as int) + utf8_prefix(
                v@.skip(i as int),
                PREVIEW_BYTES - total,
            ),
            utf8_len(v@.take(i as int)) == total,
        decreases n - i,
    {
        proof {
            assert(v@.skip(i as int).drop_first() =~= v@.skip(i + 1));
            assert(v@.take(i as int).push(v@[i as int]) =~= v@.take(i + 1));
            lemma_utf8_len_push(v@.take(i as int), v@[i as int]);
        }
        total = total + utf8_width_of(v[i]);
        i = i + 1;
    }
    proof {
        if i < n {
            assert(utf8_prefix(v@.skip(i as int), PREVIEW_BYTES - total) =~= Seq::<char>::empty());
            assert(utf8_len(v@.skip(i as int)) > PREVIEW_BYTES - total) by {
                assert(v@.skip(i as int)[0] == v@[i as int]);
            }
        } else {
            assert(v@.skip(i as int) =~= Seq::<char>::empty());
        }
        assert(v@.take(i as int) + Seq::<char>::empty() =~= v@.take(i as int));
    }
    i == n || total == PREVIEW_BYTES
}

/// The message that names a kind of text in the interface, before
/// translation.
pub open spec fn text_type_label(value: TextPayloadType) -> Seq<char> {
    match value {
        TextPayloadType::Url => "Link"@,
        TextPayloadType::Text => "Text"@,
        TextPayloadType::Wifi => "Wi-Fi"@,
    }
}

/// The untranslated name of a kind of text.
pub fn text_type_msgid(value: &TextPayloadType) -> (r: &'static str)
    ensures
        r@ == text_type_label(*value),
{
    match value {
        TextPayloadType::Url => "Link",
        TextPayloadType::Text => "Text",
        TextPayloadType::Wifi => "Wi-Fi",
    }
}

/// The translated name of a kind of text, as the dialog title shows it.
pub fn display_text_type(value: &TextPayloadType) -> (r: String)
    ensures
        crate::i18n::is_translation_of(text_type_label(*value), r),
{
    let msgid = text_type_msgid(value);
    proof {
        reveal_strlit("Link");
        reveal_strlit("Text");
        reveal_strlit("Wi-Fi");
    }
    let r = crate::i18n::gettext(msgid);
    proof {
        crate::i18n::lemma_translation(msgid, r);
    }
    r
}

/// What the interface does in answer to a step of an incoming transfer.
#[derive(Debug, Clone, Copy, PartialEq, Eq, Structural)]
pub enum ReceiveUiAction {
    /// Stop the timer that declines the request on its own.
    CancelAutoDecline,
    /// Close the dialog that asks for consent.
    CloseConsentDialog,
    /// Let the progress dialog be closed.
    AllowProgressClose,
    /// Close the progress dialog.
    CloseProgressDialog,
    /// Grey out the progress dialog's cancel button.
    DisableProgressCancel,
    /// Send this request about the transfer to the service.
    Send(ChannelAction),
    /// Replace the notification with one that says the transfer is under way.
    NotifyReceiving,
    /// Withdraw the notification.
    RemoveNotification,
    /// Show the progress dialog.
    PresentProgressDialog,
    /// Ask for consent: show the dialog with `consent_info`, start the timer
    /// that declines on its own, and post the incoming-transfer notification.
    RequestConsent,
    /// Show a spinner in place of the progress bar, for text.
    ShowTextProgress,
    /// Set the progress bar to `acked / total`.
    SetProgressFraction { acked: u64, total: u64 },
    /// Show the estimate of the time left.
    UpdateEtaLabel,
    /// Tell the user the sender disconnected.
    NotifyDisconnected,
    /// Tell the user the sender cancelled.
    NotifyCancelledBySender,
    /// Show the received text, as `received_text` gives it.
    ShowReceivedText,
    /// Tell the user how many files arrived, as `received_file_count` gives it.
    NotifyFilesReceived,
    /// Tell the user the request timed out.
    ToastTimedOut,
}

/// How the user answered the consent dialog.
#[derive(Debug, Clone, Copy, PartialEq, Eq, Structural)]
pub enum ConsentResponse {
    Accept,
    Decline,
    /// The dialog was closed without a choice.
    Close,
}

/// What the consent request shows of the transfer.
#[derive(Debug)]
pub enum TransferSummary {
    /// This many files.
    Files { count: usize },
    /// A text, of which this one-line preview.
    Text { preview: String },
}

/// What the consent request shows.
#[derive(Debug)]
pub struct ConsentInfo {
    pub device_name: String,
    pub summary: TransferSummary,
    pub total_bytes: u64,
    pub pin_code: String,
}

/// A received text as it is shown.
#[derive(Debug)]
pub struct ReceivedText {
    pub kind: TextPayloadType,
    pub text: String,
    /// What the notification shows of it.
    pub notification_text: String,
    /// Whether it can be saved to a file: plain text only.
    pub can_save: bool,
    /// Whether it can be opened: links only.
    pub can_open: bool,
}

/// An incoming transfer as the receive dialogs follow it.
#[derive(Debug)]
pub struct ReceiveTransferFlow {
    pub state: ReceiveTransferState,
    /// The id of the message that announced the transfer.
    pub init_id: String,
    /// Whether the user cancelled the transfer.
    pub is_user_cancelled: bool,
    /// Whether the timer that declines the request on its own still runs.
    pub auto_decline_pending: bool,
}

/// What the flow decides by, besides the messages and the estimate.
pub struct FlowModel {
    pub init_id: Seq<char>,
    pub user_action: Option<UserAction>,
    pub user_cancelled: bool,
    pub auto_decline_pending: bool,
}

/// The flow after the user's choice is set to `action`.
pub open spec fn after_user_action(m: FlowModel, action: Option<UserAction>) -> FlowModel {
    FlowModel {
        user_action: action,
        auto_decline_pending: false,
        user_cancelled: m.user_cancelled || action == Some(UserAction::TransferCancel),
        ..m
    }
}

/// The choice that a consent response makes, if it makes one: closing the
/// dialog declines only while no choice was made.
pub open spec fn consent_choice(m: FlowModel, response: ConsentResponse) -> Option<UserAction> {
    match response {
        ConsentResponse::Accept => Some(UserAction::ConsentAccept),
        ConsentResponse::Decline => Some(UserAction::ConsentDecline),
        ConsentResponse::Close => if m.user_action is None {
            Some(UserAction::ConsentDecline)
        } else {
            None
        },
    }
}

/// Whether the timer that declines on its own acts when it fires.
pub open spec fn auto_decline_acts(m: FlowModel) -> bool {
    m.auto_decline_pending && m.user_action is None
}

/// What the interface does when the timer that declines on its own fires.
pub open spec fn auto_decline_effects(m: FlowModel) -> Seq<ReceiveUiAction> {
    if auto_decline_acts(m) {
        user_action_effects(m.auto_decline_pending, Some(UserAction::ConsentDecline)) + seq![
            ReceiveUiAction::ToastTimedOut,
        ]
    } else {
        Seq::<ReceiveUiAction>::empty()
    }
}

/// The dialog that a step closes: the progress dialog once the user
/// accepted, else the consent dialog.
pub open spec fn close_effects(action: Option<UserAction>) -> Seq<ReceiveUiAction> {
    seq![
        ReceiveUiAction::AllowProgressClose,
        if action == Some(UserAction::ConsentAccept) {
            ReceiveUiAction::CloseProgressDialog
        } else {
            ReceiveUiAction::CloseConsentDialog
        },
    ]
}

/// What the interface does when the user's choice is set to `action`.
pub open spec fn user_action_effects(pending: bool, action: Option<UserAction>) -> Seq<ReceiveUiAction> {
    (if pending {
        seq![ReceiveUiAction::CancelAutoDecline]
    } else {
        Seq::<ReceiveUiAction>::empty()
    }) + match action {
        Some(UserAction::ConsentAccept) => seq![
            ReceiveUiAction::CloseConsentDialog,
            ReceiveUiAction::Send(ChannelAction::AcceptTransfer),
            ReceiveUiAction::NotifyReceiving,
            ReceiveUiAction::PresentProgressDialog,
        ],
        Some(UserAction::ConsentDecline) => seq![
            ReceiveUiAction::CloseConsentDialog,
            ReceiveUiAction::RemoveNotification,
            ReceiveUiAction::Send(ChannelAction::RejectTransfer),
        ],
        Some(UserAction::TransferCancel) => seq![
            ReceiveUiAction::AllowProgressClose,
            ReceiveUiAction::CloseProgressDialog,
            ReceiveUiAction::RemoveNotification,
            ReceiveUiAction::Send(ChannelAction::CancelTransfer),
        ],
        None => Seq::<ReceiveUiAction>::empty(),
    }
}

/// The metadata's byte counts, if the message has metadata.
pub open spec fn byte_counts(msg: protocol::MessageView) -> Option<(u64, u64)> {
    match msg.meta {
        Some(m) => Some((m.ack_bytes, m.total_bytes)),
        None => None,
    }
}

/// What the interface does when a message about the transfer arrives.
pub open spec fn event_effects(
    init_id: Seq<char>,
    action: Option<UserAction>,
    user_cancelled: bool,
    msg: protocol::MessageView,
) -> Seq<ReceiveUiAction> {
    match state_or_initial(msg.state) {
        State::WaitingForUserConsent => seq![ReceiveUiAction::RequestConsent] + if text_data_of(
            msg,
        ) is Some {
            seq![ReceiveUiAction::ShowTextProgress]
        } else {
            Seq::<ReceiveUiAction>::empty()
        },
        State::ReceivingFiles => if text_data_of(msg) is Some {
            Seq::<ReceiveUiAction>::empty()
        } else {
            (match byte_counts(msg) {
                Some((acked, total)) => if total > 0 {
                    seq![ReceiveUiAction::SetProgressFraction { acked, total }]
                } else {
                    Seq::<ReceiveUiAction>::empty()
                },
                None => Seq::<ReceiveUiAction>::empty(),
            }) + seq![ReceiveUiAction::UpdateEtaLabel]
        },
        State::Disconnected => if msg.id == init_id {
            close_effects(action) + seq![ReceiveUiAction::NotifyDisconnected]
        } else {
            Seq::<ReceiveUiAction>::empty()
        },
        State::Cancelled => close_effects(action) + if user_cancelled {
            Seq::<ReceiveUiAction>::empty()
        } else {
            seq![ReceiveUiAction::NotifyCancelledBySender]
        },
        State::Finished => close_effects(action) + if text_data_of(msg) is Some {
            seq![ReceiveUiAction::ShowReceivedText]
        } else {
            seq![ReceiveUiAction::NotifyFilesReceived]
        },
        _ => Seq::<ReceiveUiAction>::empty(),
    }
}

/// Whether a consent request can be shown for `msg`: it has metadata, and
/// files or a text whose preview can be made.
pub open spec fn consent_ready(msg: protocol::MessageView) -> bool {
    &&& msg.meta is Some
    &&& filenames_of(msg) is None ==> match text_data_of(msg) {
        Some((d, _, _)) => can_clean(d@),
        None => false,
    }
}

/// The text shown for a received text payload of this kind.
pub open spec fn shown_text(kind: TextPayloadType, text: Seq<char>) -> Seq<char> {
    if kind == TextPayloadType::Text {
        cleaned_payload(text)
    } else {
        text
    }
}

/// Whether a finished transfer can be shown: its text has a kind and can be
/// cleaned and cut for the notification, or it lists its files.
pub open spec fn finish_ready(msg: protocol::MessageView) -> bool {
    match text_data_of(msg) {
        Some((_, text, kind)) => match kind {
            Some(k) => (k == TextPayloadType::Text ==> can_clean(text)) && can_cut_preview(
                shown_text(k, text),
            ),
            None => false,
        },
        None => filenames_of(msg) is Some,
    }
}

/// How the estimate moves with a message about the transfer: a consent
/// request starts it over for the announced size, received bytes of files
/// step it, and nothing else touches it.
pub open spec fn eta_after_event(
    before: crate::utils::EtaView,
    after: crate::utils::EtaView,
    msg: protocol::MessageView,
) -> bool {
    match (state_or_initial(msg.state), msg.meta) {
        (State::WaitingForUserConsent, Some(m)) => after.fresh(m.total_bytes as usize),
        (State::ReceivingFiles, Some(m)) => if text_data_of(msg) is None {
            exists|now: std::time::Instant, secs: u64|
                after == #[trigger] stepped(before, m.ack_bytes as usize, now, secs)
        } else {
            after == before
        },
        _ => after == before,
    }
}

/// What the interface does when the service sends a message about the
/// incoming transfer: the timer that declines on its own stops first.
pub open spec fn inbound_effects(m: FlowModel, msg: protocol::MessageView) -> Seq<ReceiveUiAction> {
    (if m.auto_decline_pending {
        seq![ReceiveUiAction::CancelAutoDecline]
    } else {
        Seq::<ReceiveUiAction>::empty()
    }) + event_effects(m.init_id, m.user_action, m.user_cancelled, msg)
}

impl ReceiveTransferFlow {
    /// What the flow decides by.
    pub open spec fn model(&self) -> FlowModel {
        FlowModel {
            init_id: self.init_id@,
            user_action: self.state.user_action,
            user_cancelled: self.is_user_cancelled,
            auto_decline_pending: self.auto_decline_pending,
        }
    }

    /// The flow's invariant: the estimator is well formed.
    pub open spec fn wf(&self) -> bool {
        self.state.eta@.wf()
    }

    /// Whether a message about the transfer can be handled.
    pub open spec fn accepts(&self, msg: protocol::MessageView) -> bool {
        match state_or_initial(msg.state) {
            State::WaitingForUserConsent => consent_ready(msg),
            State::ReceivingFiles => text_data_of(msg) is None ==> match byte_counts(msg) {
                Some((acked, _)) => can_step(self.state.eta@, acked as usize),
                None => true,
            },
            State::Finished => finish_ready(msg),
            _ => true,
        }
    }

    /// Follows the transfer announced by `state`.
    pub fn new(state: ReceiveTransferState) -> (r: Self)
        requires
            state.eta@.wf(),
        ensures
            r.state == state,
            r.init_id@ == state.event.0.id@,
            !r.is_user_cancelled,
            r.auto_decline_pending,
            r.wf(),
    {
        let init_id = state.event.0.id.clone();
        ReceiveTransferFlow { state, init_id, is_user_cancelled: false, auto_decline_pending: true }
    }

    /// The request about this transfer that `Send(action)` stands for.
    pub fn request(&self, action: ChannelAction) -> (r: protocol::ChannelMessage)
        ensures
            r@ == (protocol::MessageView {
                id: self.state.event.0.id@,
                action: Some(action),
                ..protocol::empty_message()
            }),
    {
        protocol::ChannelMessage::request(self.state.event.0.id.as_str(), action)
    }

    /// Sets the user's choice and says what follows from it.
    pub fn set_user_action(&mut self, action: Option<UserAction>) -> (r: Vec<ReceiveUiAction>)
        ensures
            r@ == user_action_effects(old(self).auto_decline_pending, action),
            final(self).model() == after_user_action(old(self).model(), action),
            final(self).state.event == old(self).state.event,
            final(self).state.eta == old(self).state.eta,
            final(self).init_id == old(self).init_id,
    {
        let mut r: Vec<ReceiveUiAction> = Vec::new();
        self.state.user_action = action;
        if self.auto_decline_pending {
            self.auto_decline_pending = false;
            r.push(ReceiveUiAction::CancelAutoDecline);
        }
        let ghost pre = r@;
        match action {
            Some(UserAction::ConsentAccept) => {
                r.push(ReceiveUiAction::CloseConsentDialog);
                r.push(ReceiveUiAction::Send(ChannelAction::AcceptTransfer));
                r.push(ReceiveUiAction::NotifyReceiving);
                r.push(ReceiveUiAction::PresentProgressDialog);
            },
            Some(UserAction::ConsentDecline) => {
                r.push(ReceiveUiAction::CloseConsentDialog);
                r.push(ReceiveUiAction::RemoveNotification);
                r.push(ReceiveUiAction::Send(ChannelAction::RejectTransfer));
            },
            Some(UserAction::TransferCancel) => {
                r.push(ReceiveUiAction::AllowProgressClose);
                r.push(ReceiveUiAction::CloseProgressDialog);
                r.push(ReceiveUiAction::RemoveNotification);
                self.is_user_cancelled = true;
                r.push(ReceiveUiAction::Send(ChannelAction::CancelTransfer));
            },
            None => {},
        }
        assert(r@ =~= user_action_effects(old(self).auto_decline_pending, action));
        r
    }

    /// Answers the consent dialog: accepting and declining set the choice;
    /// closing the dialog declines unless a choice was already made.
    pub fn consent_response(&mut self, response: ConsentResponse) -> (r: Vec<ReceiveUiAction>)
        ensures
            match consent_choice(old(self).model(), response) {
                Some(a) => r@ == user_action_effects(old(self).auto_decline_pending, Some(a))
                    && final(self).model() == after_user_action(old(self).model(), Some(a)),
                None => r@ == Seq::<ReceiveUiAction>::empty() && final(self).model() == old(
                    self,
                ).model(),
            },
            final(self).state.event == old(self).state.event,
            final(self).state.eta == old(self).state.eta,
    {
        match response {
            ConsentResponse::Accept => self.set_user_action(Some(UserAction::ConsentAccept)),
            ConsentResponse::Decline => self.set_user_action(Some(UserAction::ConsentDecline)),
            ConsentResponse::Close => {
                if self.state.user_action.is_none() {
                    self.set_user_action(Some(UserAction::ConsentDecline))
                } else {
                    Vec::new()
                }
            },
        }
    }

    /// Answers a press of the progress dialog's cancel button.
    pub fn progress_cancel(&mut self) -> (r: Vec<ReceiveUiAction>)
        ensures
            r@ == seq![ReceiveUiAction::DisableProgressCancel] + user_action_effects(
                old(self).auto_decline_pending,
                Some(UserAction::TransferCancel),
            ),
            final(self).model() == after_user_action(
                old(self).model(),
                Some(UserAction::TransferCancel),
            ),
            final(self).state.event == old(self).state.event,
            final(self).state.eta == old(self).state.eta,
    {
        let mut r = vec![ReceiveUiAction::DisableProgressCancel];
        let mut rest = self.set_user_action(Some(UserAction::TransferCancel));
        r.append(&mut rest);
        r
    }

    /// When the timer that declines on its own fires: declines if the user
    /// has not chosen, and says the request timed out. A timer that was
    /// stopped does nothing.
    pub fn auto_decline_elapsed(&mut self) -> (r: Vec<ReceiveUiAction>)
        ensures
            r@ == auto_decline_effects(old(self).model()),
            final(self).model() == if auto_decline_acts(old(self).model()) {
                after_user_action(old(self).model(), Some(UserAction::ConsentDecline))
            } else {
                old(self).model()
            },
            final(self).state.event == old(self).state.event,
            final(self).state.eta == old(self).state.eta,
    {
        if self.auto_decline_pending && self.state.user_action.is_none() {
            let mut r = self.set_user_action(Some(UserAction::ConsentDecline));
            r.push(ReceiveUiAction::ToastTimedOut);
            r
        } else {
            Vec::new()
        }
    }

    /// Handles a message about the transfer: records it and says what the
    /// interface shows. A consent request starts the estimate over for the
    /// announced size; received bytes step it.
    pub fn set_event(&mut self, msg: protocol::ChannelMessage) -> (r: Vec<ReceiveUiAction>)
        requires
            old(self).wf(),
            old(self).accepts(msg@),
        ensures
            final(self).wf(),
            final(self).state.event.0@ == msg@,
            r@ == event_effects(
                old(self).init_id@,
                old(self).state.user_action,
                old(self).is_user_cancelled,
                msg@,
            ),
            final(self).model() == old(self).model(),
            final(self).init_id == old(self).init_id,
            eta_after_event(old(self).state.eta@, final(self).state.eta@, msg@),
    {
        let mut r: Vec<ReceiveUiAction> = Vec::new();
        let st = protocol::state_or_initial_of(msg.state);
        let has_text = match &msg.meta {
            Some(m) => m.text_description.is_some(),
            None => false,
        };
        match st {
            State::WaitingForUserConsent => {
                r.push(ReceiveUiAction::RequestConsent);
                match &msg.meta {
                    Some(m) => {
                        self.state.eta.prepare_for_new_transfer(Some(m.total_bytes as usize));
                    },
                    None => {},
                }
                if has_text {
                    r.push(ReceiveUiAction::ShowTextProgress);
                }
            },
            State::ReceivingFiles => {
                if !has_text {
                    match &msg.meta {
                        Some(m) => {
                            self.state.eta.step_with(m.ack_bytes as usize);
                            if m.total_bytes > 0 {
                                r.push(
                                    ReceiveUiAction::SetProgressFraction {
                                        acked: m.ack_bytes,
                                        total: m.total_bytes,
                                    },
                                );
                            }
                        },
                        None => {},
                    }
                    r.push(ReceiveUiAction::UpdateEtaLabel);
                }
            },
            State::Disconnected => {
                if msg.id == self.init_id {
                    r.push(ReceiveUiAction::AllowProgressClose);
                    r.push(self.close_dialog());
                    r.push(ReceiveUiAction::NotifyDisconnected);
                }
            },
            State::Cancelled => {
                r.push(ReceiveUiAction::AllowProgressClose);
                r.push(self.close_dialog());
                if !self.is_user_cancelled {
                    r.push(ReceiveUiAction::NotifyCancelledBySender);
                }
            },
            State::Finished => {
                r.push(ReceiveUiAction::AllowProgressClose);
                r.push(self.close_dialog());
                if has_text {
                    r.push(ReceiveUiAction::ShowReceivedText);
                } else {
                    r.push(ReceiveUiAction::NotifyFilesReceived);
                }
            },
            _ => {},
        }
        self.state.event = ChannelMessage(msg);
        assert(r@ =~= event_effects(
            old(self).init_id@,
            old(self).state.user_action,
            old(self).is_user_cancelled,
            self.state.event.0@,
        ));
        r
    }

    /// Handles a message that the service sent about the incoming transfer:
    /// the timer that declines on its own stops, then the message is handled
    /// as `set_event` does.
    pub fn on_inbound_message(&mut self, msg: protocol::ChannelMessage) -> (r: Vec<ReceiveUiAction>)
        requires
            old(self).wf(),
            old(self).accepts(msg@),
        ensures
            final(self).wf(),
            final(self).state.event.0@ == msg@,
            r@ == inbound_effects(old(self).model(), msg@),
            final(self).model() == (FlowModel { auto_decline_pending: false, ..old(self).model() }),
            final(self).init_id == old(self).init_id,
            eta_after_event(old(self).state.eta@, final(self).state.eta@, msg@),
    {
        let mut r: Vec<ReceiveUiAction> = Vec::new();
        if self.auto_decline_pending {
            self.auto_decline_pending = false;
            r.push(ReceiveUiAction::CancelAutoDecline);
        }
        let mut rest = self.set_event(msg);
        r.append(&mut rest);
        r
    }

    /// Handles a disconnection that names no direction: it is handled as
    /// `set_event` does when it is about the transfer's current message, and
    /// ignored otherwise.
    pub fn on_disconnection(&mut self, msg: protocol::ChannelMessage) -> (r: Vec<ReceiveUiAction>)
        requires
            old(self).wf(),
            msg@.state == Some(State::Disconnected),
        ensures
            final(self).wf(),
            final(self).model() == old(self).model(),
            final(self).init_id == old(self).init_id,
            final(self).state.eta@ == old(self).state.eta@,
            if msg@.id == old(self).state.event.0@.id {
                &&& final(self).state.event.0@ == msg@
                &&& r@ == event_effects(
                    old(self).init_id@,
                    old(self).state.user_action,
                    old(self).is_user_cancelled,
                    msg@,
                )
            } else {
                &&& final(self).state.event == old(self).state.event
                &&& r@ == Seq::<ReceiveUiAction>::empty()
            },
    {
        if msg.id == self.state.event.0.id {
            self.set_event(msg)
        } else {
            Vec::new()
        }
    }

    /// What the consent request shows: the sender, the files' count or a
    /// preview of the text, the size and the pairing code.
    pub fn consent_info(&self) -> (r: ConsentInfo)
        requires
            consent_ready(self.state.event.0@),
        ensures
            source_name(self.state.event.0@) matches Some(n) ==> r.device_name == n,
            source_name(self.state.event.0@) is None ==> crate::i18n::is_translation_of("Unknown device"@, r.device_name),
            r.total_bytes == self.state.event.0@.meta->Some_0.total_bytes,
            r.pin_code@ == match self.state.event.0@.meta->Some_0.pin_code {
                Some(p) => p@,
                None => Seq::<char>::empty(),
            },
            match filenames_of(self.state.event.0@) {
                Some(files) => r.summary matches TransferSummary::Files { count } && count
                    == files.len(),
                None => r.summary matches TransferSummary::Text { preview } && preview@
                    == preview_of_payload(text_data_of(self.state.event.0@)->Some_0.0@),
            },
    {
        let msg = &self.state.event;
        let device_name = ChannelMessage::get_device_name(&msg.0);
        let (total_bytes, pin_code) = match &msg.0.meta {
            Some(m) => (
                m.total_bytes,
                match &m.pin_code {
                    Some(p) => p.clone(),
                    None => String::new(),
                },
            ),
            None => (0, String::new()),
        };
        let summary = match msg.get_filenames() {
            Some(files) => TransferSummary::Files { count: files.len() },
            None => {
                let text_data = msg.get_text_data();
                match text_data {
                    Some(t) => TransferSummary::Text {
                        preview: clean_preview_text_payload(t.description.as_str()),
                    },
                    None => TransferSummary::Files { count: 0 },
                }
            },
        };
        ConsentInfo { device_name, summary, total_bytes, pin_code }
    }

    /// The received text as it is shown: cleaned when it is plain text, with
    /// what the notification shows of it.
    pub fn received_text(&self) -> (r: ReceivedText)
        requires
            finish_ready(self.state.event.0@),
            text_data_of(self.state.event.0@) is Some,
        ensures
            ({
                let (_, text, kind) = text_data_of(self.state.event.0@)->Some_0;
                &&& kind == Some(r.kind)
                &&& r.text@ == shown_text(r.kind, text)
                &&& r.notification_text@ == notification_preview(r.text@)
                &&& r.can_save == (r.kind == TextPayloadType::Text)
                &&& r.can_open == (r.kind == TextPayloadType::Url)
            }),
    {
        let t = self.state.event.get_text_data();
        let t = match t {
            Some(t) => t,
            None => TextData { description: String::new(), text: String::new(), kind: None },
        };
        let kind = match t.kind {
            Some(k) => k,
            None => TextPayloadType::Text,
        };
        let text = if kind == TextPayloadType::Text {
            clean_text_payload(t.text.as_str())
        } else {
            t.text
        };
        let notification_text = text_preview(text.as_str());
        ReceivedText {
            kind,
            text,
            notification_text,
            can_save: kind == TextPayloadType::Text,
            can_open: kind == TextPayloadType::Url,
        }
    }

    /// How many files arrived.
    pub fn received_file_count(&self) -> (r: usize)
        requires
            filenames_of(self.state.event.0@) is Some,
        ensures
            r == filenames_of(self.state.event.0@)->Some_0.len(),
    {
        match self.state.event.get_filenames() {
            Some(files) => files.len(),
            None => 0,
        }
    }

    /// Tests whether a message about the transfer can be handled.
    pub fn accepts_message(&self, msg: &protocol::ChannelMessage) -> (b: bool)
        ensures
            b == self.accepts(msg@),
    {
        let st = protocol::state_or_initial_of(msg.state);
        let m = ChannelMessage(msg.duplicate());
        match st {
            State::WaitingForUserConsent => {
                if msg.meta.is_none() {
                    return false;
                }
                if m.get_filenames().is_some() {
                    return true;
                }
                match m.get_text_data() {
                    Some(t) => can_clean_text(t.description.as_str()),
                    None => false,
                }
            },
            State::ReceivingFiles => {
                if m.get_text_data().is_some() {
                    return true;
                }
                match &msg.meta {
                    Some(meta) => self.state.eta.can_step_to(meta.ack_bytes as usize),
                    None => true,
                }
            },
            State::Finished => match m.get_text_data() {
                Some(t) => match t.kind {
                    Some(k) => {
                        if k == TextPayloadType::Text {
                            if !can_clean_text(t.text.as_str()) {
                                return false;
                            }
                            let shown = clean_text_payload(t.text.as_str());
                            can_cut_text_preview(shown.as_str())
                        } else {
                            can_cut_text_preview(t.text.as_str())
                        }
                    },
                    None => false,
                },
                None => m.get_filenames().is_some(),
            },
            _ => true,
        }
    }

    fn close_dialog(&self) -> (r: ReceiveUiAction)
        ensures
            r == close_effects(self.state.user_action)[1],
    {
        if self.state.user_action == Some(UserAction::ConsentAccept) {
            ReceiveUiAction::CloseProgressDialog
        } else {
            ReceiveUiAction::CloseConsentDialog
        }
    }
}

/// Once the user has chosen, the timer that declines on its own does nothing
/// when it fires.
pub proof fn law_choice_stops_auto_decline(m: FlowModel, action: Option<UserAction>)
    ensures
        auto_decline_effects(after_user_action(m, action)) == Seq::<ReceiveUiAction>::empty(),
{
}

/// When the timer fires before the user chose, the request is declined: the
/// service is sent a rejection and the user is told it timed out.
pub proof fn law_timeout_declines(m: FlowModel)
    requires
        m.auto_decline_pending,
        m.user_action is None,
    ensures
        auto_decline_effects(m).contains(ReceiveUiAction::Send(ChannelAction::RejectTransfer)),
        auto_decline_effects(m).last() == ReceiveUiAction::ToastTimedOut,
        consent_choice(m, ConsentResponse::Close) == Some(UserAction::ConsentDecline),
{
    let e = auto_decline_effects(m);
    assert(e[3] == ReceiveUiAction::Send(ChannelAction::RejectTransfer));
}

/// Answering the consent dialog does what the answer says: accepting always
/// accepts and sends the service an acceptance (never a rejection), and
/// declining always declines and sends a rejection (never an acceptance).
pub proof fn law_consent_answers_are_obeyed(m: FlowModel)
    ensures
        consent_choice(m, ConsentResponse::Accept) == Some(UserAction::ConsentAccept),
        consent_choice(m, ConsentResponse::Decline) == Some(UserAction::ConsentDecline),
        user_action_effects(m.auto_decline_pending, consent_choice(m, ConsentResponse::Accept)).contains(
            ReceiveUiAction::Send(ChannelAction::AcceptTransfer),
        ),
        !user_action_effects(m.auto_decline_pending, consent_choice(m, ConsentResponse::Accept)).contains(
            ReceiveUiAction::Send(ChannelAction::RejectTransfer),
        ),
        user_action_effects(m.auto_decline_pending, consent_choice(m, ConsentResponse::Decline)).contains(
            ReceiveUiAction::Send(ChannelAction::RejectTransfer),
        ),
        !user_action_effects(m.auto_decline_pending, consent_choice(m, ConsentResponse::Decline)).contains(
            ReceiveUiAction::Send(ChannelAction::AcceptTransfer),
        ),
        after_user_action(m, consent_choice(m, ConsentResponse::Decline)).user_action == Some(
            UserAction::ConsentDecline,
        ),
        after_user_action(m, consent_choice(m, ConsentResponse::Accept)).user_action == Some(
            UserAction::ConsentAccept,
        ),
{
    let off: int = if m.auto_decline_pending { 1 } else { 0 };
    let a = user_action_effects(m.auto_decline_pending, Some(UserAction::ConsentAccept));
    let d = user_action_effects(m.auto_decline_pending, Some(UserAction::ConsentDecline));
    assert(a[off + 1] == ReceiveUiAction::Send(ChannelAction::AcceptTransfer));
    assert(d[off + 2] == ReceiveUiAction::Send(ChannelAction::RejectTransfer));
}

/// Each message about the incoming transfer is shown for what it is: a
/// consent request asks for consent; received files update the estimate; a
/// finished transfer shows the received text or tells how many files came,
/// after closing the dialog it is in (the progress dialog once accepted,
/// else the consent dialog); a cancellation closes that dialog too. A
/// message never sends the service anything.
pub proof fn law_messages_are_shown_for_what_they_are(
    init_id: Seq<char>,
    action: Option<UserAction>,
    user_cancelled: bool,
    msg: protocol::MessageView,
)
    ensures
        ({
            let e = event_effects(init_id, action, user_cancelled, msg);
            let closes = if action == Some(UserAction::ConsentAccept) {
                ReceiveUiAction::CloseProgressDialog
            } else {
                ReceiveUiAction::CloseConsentDialog
            };
            &&& msg.state == Some(State::WaitingForUserConsent) ==> e.len() > 0 && e[0]
                == ReceiveUiAction::RequestConsent
            &&& msg.state == Some(State::ReceivingFiles) && text_data_of(msg) is None ==> e.contains(
                ReceiveUiAction::UpdateEtaLabel,
            )
            &&& msg.state == Some(State::Finished) ==> e.contains(closes) && (text_data_of(msg) is Some
                ==> e.contains(ReceiveUiAction::ShowReceivedText)) && (text_data_of(msg) is None
                ==> e.contains(ReceiveUiAction::NotifyFilesReceived))
            &&& msg.state == Some(State::Cancelled) ==> e.contains(closes)
            &&& forall|i: int| 0 <= i < e.len() ==> !(#[trigger] e[i] is Send)
        }),
{
    let e = event_effects(init_id, action, user_cancelled, msg);
    let closes = if action == Some(UserAction::ConsentAccept) {
        ReceiveUiAction::CloseProgressDialog
    } else {
        ReceiveUiAction::CloseConsentDialog
    };
    if msg.state == Some(State::Finished) || msg.state == Some(State::Cancelled) {
        assert(e[1] == closes);
        if msg.state == Some(State::Finished) {
            assert(e[2] == ReceiveUiAction::ShowReceivedText || e[2] == ReceiveUiAction::NotifyFilesReceived);
        }
    }
    if msg.state == Some(State::ReceivingFiles) && text_data_of(msg) is None {
        assert(e[e.len() - 1] == ReceiveUiAction::UpdateEtaLabel);
    }
}

/// Closing the consent dialog after a choice was made changes nothing.
pub proof fn law_close_after_choice_is_ignored(m: FlowModel, action: UserAction)
    ensures
        consent_choice(after_user_action(m, Some(action)), ConsentResponse::Close) is None,
{
}

/// A cancellation that the user asked for is not reported as one by the
/// sender.
pub proof fn law_user_cancel_is_not_blamed_on_sender(m: FlowModel, msg: protocol::MessageView)
    requires
        state_or_initial(msg.state) == State::Cancelled,
    ensures
        ({
            let m2 = after_user_action(m, Some(UserAction::TransferCancel));
            !event_effects(m2.init_id, m2.user_action, m2.user_cancelled, msg).contains(
                ReceiveUiAction::NotifyCancelledBySender,
            )
        }),
{
    let m2 = after_user_action(m, Some(UserAction::TransferCancel));
    let e = event_effects(m2.init_id, m2.user_action, m2.user_cancelled, msg);
    assert(e =~= seq![ReceiveUiAction::AllowProgressClose, ReceiveUiAction::CloseConsentDialog]);
}

/// A disconnection reported for another transfer leaves this one alone.
pub proof fn law_foreign_disconnect_ignored(m: FlowModel, msg: protocol::MessageView)
    requires
        state_or_initial(msg.state) == State::Disconnected,
        msg.id != m.init_id,
    ensures
        event_effects(m.init_id, m.user_action, m.user_cancelled, msg) == Seq::<ReceiveUiAction>::empty(),
{
}

/// The request that a choice sends to the service.
pub open spec fn request_for(action: UserAction) -> ChannelAction {
    match action {
        UserAction::ConsentAccept => ChannelAction::AcceptTransfer,
        UserAction::ConsentDecline => ChannelAction::RejectTransfer,
        UserAction::TransferCancel => ChannelAction::CancelTransfer,
    }
}

/// Each choice sends the service exactly one request, the one that matches
/// it; clearing the choice sends none.
pub proof fn law_one_request_per_choice(pending: bool, action: Option<UserAction>)
    ensures
        ({
            let e = user_action_effects(pending, action);
            &&& forall|i: int, j: int|
                0 <= i < e.len() && 0 <= j < e.len() && #[trigger] e[i] is Send && #[trigger] e[j] is Send
                    ==> i == j
            &&& match action {
                Some(a) => e.contains(ReceiveUiAction::Send(request_for(a))),
                None => forall|i: int| 0 <= i < e.len() ==> !(#[trigger] e[i] is Send),
            }
        }),
{
    let e = user_action_effects(pending, action);
    let off: int = if pending { 1 } else { 0 };
    match action {
        Some(UserAction::ConsentAccept) => {
            assert(e[off + 1] == ReceiveUiAction::Send(ChannelAction::AcceptTransfer));
        },
        Some(UserAction::ConsentDecline) => {
            assert(e[off + 2] == ReceiveUiAction::Send(ChannelAction::RejectTransfer));
        },
        Some(UserAction::TransferCancel) => {
            assert(e[off + 3] == ReceiveUiAction::Send(ChannelAction::CancelTransfer));
        },
        None => {},
    }
}

proof fn lemma_utf8_len_push(s: Seq<char>, c: char)
    ensures
        utf8_len(s.push(c)) == utf8_len(s) + utf8_width(c),
    decreases s.len(),
{
    if s.len() == 0 {
        assert(s.push(c).drop_first() =~= Seq::<char>::empty());
        assert(s.push(c)[0] == c);
        assert(utf8_len(Seq::<char>::empty()) == 0);
    } else {
        assert(s.push(c).drop_first() =~= s.drop_first().push(c));
        assert(s.push(c)[0] == s[0]);
        lemma_utf8_len_push(s.drop_first(), c);
    }
}

} // verus!
