//! A transfer card: what it shows of a transfer to or from a device as the
//! transfer's messages arrive.
use crate::objects::data_transfer::{filenames_of, text_data_of, ChannelMessage};
use crate::objects::file_transfer::TransferKind;
use crate::protocol::{self, ChannelAction, State};
use crate::widgets::receive_transfer::byte_counts;
use vstd::prelude::*;

verus! {

/// What a card's caption says.
#[derive(Debug)]
pub enum CardCaption {
    /// The device wants to share this many files.
    WantsToShareFiles { count: usize },
    /// The device wants to share a text with this description.
    WantsToShareText { description: String },
    /// This many files are ready to go to the device.
    ReadyToShare { count: usize },
    /// This many files are arriving.
    ReceivingFiles { count: usize },
    /// A text with this description is arriving.
    ReceivingText { description: String },
    /// This many files are on their way.
    SendingFiles { count: usize },
    /// This many files arrived.
    ReceivedFiles { count: usize },
    /// A text with this description arrived.
    ReceivedText { description: String },
    /// This many files went out.
    SentFiles { count: usize },
}

/// The outcome a card reports.
#[derive(Debug, Clone, Copy, PartialEq, Eq, Structural)]
pub enum CardResult {
    UnexpectedDisconnection,
    Rejected,
    Cancelled,
    Finished,
}

/// The caption changes that a message makes, without their texts.
#[derive(Debug, Clone, Copy, PartialEq, Eq, Structural)]
pub enum CaptionKind {
    Receiving,
    Sending,
    Received,
    Sent,
}

/// How a card changes when a message arrives; `None` leaves a part as it is.
#[derive(Debug, Clone, Copy)]
pub struct CardUpdate {
    pub show_accept_decline: Option<bool>,
    pub show_cancel: Option<bool>,
    pub show_send: Option<bool>,
    /// Whether the send button now reads "Retry".
    pub send_is_retry: bool,
    pub show_progress: Option<bool>,
    /// The progress bar's new `(acked, total)` bytes, if it moves.
    pub progress: Option<(u64, u64)>,
    pub show_clear: Option<bool>,
    pub show_buttons: Option<bool>,
    /// The caption's new form, with `caption` giving its text.
    pub caption: Option<CaptionKind>,
    pub result: Option<CardResult>,
    /// Whether this message takes the transfer off the badge count.
    pub lower_badge: bool,
}

/// An update that changes nothing.
pub open spec fn no_update() -> CardUpdate {
    CardUpdate {
        show_accept_decline: None,
        show_cancel: None,
        show_send: None,
        send_is_retry: false,
        show_progress: None,
        progress: None,
        show_clear: None,
        show_buttons: None,
        caption: None,
        result: None,
        lower_badge: false,
    }
}

/// The progress a card shows for a message, when its size is known.
pub open spec fn card_progress(msg: protocol::MessageView) -> Option<(u64, u64)> {
    match byte_counts(msg) {
        Some((acked, total)) => if total > 0 {
            Some((acked, total))
        } else {
            None
        },
        None => None,
    }
}

/// How a receiving card ends: with the buttons gone and the outcome shown.
pub open spec fn receive_end(result: CardResult) -> CardUpdate {
    CardUpdate {
        show_progress: Some(false),
        show_clear: Some(true),
        show_buttons: Some(false),
        result: Some(result),
        lower_badge: true,
        ..no_update()
    }
}

/// How a sending card ends badly: the send button comes back as "Retry".
pub open spec fn send_failed(result: CardResult) -> CardUpdate {
    CardUpdate {
        show_progress: Some(false),
        show_cancel: Some(false),
        show_send: Some(true),
        send_is_retry: true,
        result: Some(result),
        ..no_update()
    }
}

/// How a card changes when `msg` arrives; a message without a state changes
/// nothing.
pub open spec fn card_update(kind: TransferKind, msg: protocol::MessageView) -> CardUpdate {
    match msg.state {
        None => no_update(),
        Some(state) => match kind {
            TransferKind::Receive => match state {
                State::ReceivingFiles => CardUpdate {
                    show_accept_decline: Some(false),
                    show_cancel: Some(true),
                    show_progress: Some(true),
                    progress: card_progress(msg),
                    caption: Some(CaptionKind::Receiving),
                    lower_badge: true,
                    ..no_update()
                },
                State::Disconnected => receive_end(CardResult::UnexpectedDisconnection),
                State::Rejected => receive_end(CardResult::Rejected),
                State::Cancelled => receive_end(CardResult::Cancelled),
                State::Finished => CardUpdate {
                    show_progress: Some(false),
                    show_clear: Some(true),
                    show_buttons: Some(false),
                    caption: Some(CaptionKind::Received),
                    result: Some(CardResult::Finished),
                    ..no_update()
                },
                _ => no_update(),
            },
            TransferKind::Send => match state {
                State::SentUkeyClientInit | State::SentUkeyClientFinish | State::SentIntroduction
                | State::SendingFiles => CardUpdate {
                    show_send: Some(false),
                    show_cancel: Some(true),
                    show_progress: Some(true),
                    progress: card_progress(msg),
                    caption: Some(CaptionKind::Sending),
                    ..no_update()
                },
                State::Disconnected => send_failed(CardResult::UnexpectedDisconnection),
                State::Rejected => send_failed(CardResult::Rejected),
                State::Cancelled => send_failed(CardResult::Cancelled),
                State::Finished => CardUpdate {
                    show_progress: Some(false),
                    show_clear: Some(true),
                    show_buttons: Some(false),
                    caption: Some(CaptionKind::Sent),
                    result: Some(CardResult::Finished),
                    ..no_update()
                },
                _ => no_update(),
            },
        },
    }
}

/// Whether a card can show its caption for `msg`: a receiving card needs the
/// files or the text, a sending one the files.
pub open spec fn caption_ready(kind: TransferKind, msg: protocol::MessageView) -> bool {
    match kind {
        TransferKind::Receive => filenames_of(msg) is Some || text_data_of(msg) is Some,
        TransferKind::Send => filenames_of(msg) is Some,
    }
}

/// The caption's text for a change of this form.
pub open spec fn caption_matches(c: CardCaption, form: CaptionKind, msg: protocol::MessageView) -> bool {
    match filenames_of(msg) {
        Some(files) => match form {
            CaptionKind::Receiving => c matches CardCaption::ReceivingFiles { count } && count == files.len(),
            CaptionKind::Sending => c matches CardCaption::SendingFiles { count } && count == files.len(),
            CaptionKind::Received => c matches CardCaption::ReceivedFiles { count } && count == files.len(),
            CaptionKind::Sent => c matches CardCaption::SentFiles { count } && count == files.len(),
        },
        None => match form {
            CaptionKind::Receiving => c matches CardCaption::ReceivingText { description }
                && description == text_data_of(msg)->Some_0.0,
            CaptionKind::Received => c matches CardCaption::ReceivedText { description }
                && description == text_data_of(msg)->Some_0.0,
            _ => true,
        },
    }
}

/// The caption a card first shows for the message that announced a
/// transfer, or for the files chosen to send.
pub open spec fn initial_caption_matches(c: CardCaption, kind: TransferKind, msg: protocol::MessageView, selected: usize) -> bool {
    match kind {
        TransferKind::Receive => match filenames_of(msg) {
            Some(files) => c matches CardCaption::WantsToShareFiles { count } && count == files.len(),
            None => c matches CardCaption::WantsToShareText { description } && description
                == text_data_of(msg)->Some_0.0,
        },
        TransferKind::Send => c matches CardCaption::ReadyToShare { count } && count == selected,
    }
}

/// A transfer card.
#[derive(Debug)]
pub struct TransferCard {
    pub kind: TransferKind,
    /// Whether this transfer was already taken off the badge count.
    pub is_badge_removed: bool,
}

/// The badge after a transfer is taken off it: one less, if any; the
/// attention mark goes when it reaches zero.
#[derive(Debug, Clone, Copy, PartialEq, Eq, Structural)]
pub struct BadgeChange {
    pub new_count: Option<u32>,
    pub clear_attention: bool,
}

/// How the badge changes when a card takes its transfer off it.
pub open spec fn badge_change(removed: bool, badge: u32) -> BadgeChange {
    if !removed && badge > 0 {
        BadgeChange { new_count: Some((badge - 1) as u32), clear_attention: badge == 1 }
    } else {
        BadgeChange { new_count: None, clear_attention: false }
    }
}

impl TransferCard {
    /// A card for a transfer of this kind.
    pub fn new(kind: TransferKind) -> (r: Self)
        ensures
            r.kind == kind,
            !r.is_badge_removed,
    {
        TransferCard { kind, is_badge_removed: false }
    }

    /// How the card changes when `msg` arrives.
    pub fn update(&self, msg: &protocol::ChannelMessage) -> (r: CardUpdate)
        ensures
            r == card_update(self.kind, msg@),
    {
        let progress = match &msg.meta {
            Some(m) => if m.total_bytes > 0 {
                Some((m.ack_bytes, m.total_bytes))
            } else {
                None
            },
            None => None,
        };
        let none = CardUpdate {
            show_accept_decline: None,
            show_cancel: None,
            show_send: None,
            send_is_retry: false,
            show_progress: None,
            progress: None,
            show_clear: None,
            show_buttons: None,
            caption: None,
            result: None,
            lower_badge: false,
        };
        let state = match msg.state {
            Some(s) => s,
            None => {
                return none;
            },
        };
        match self.kind {
            TransferKind::Receive => {
                let end = |result: CardResult| -> (u: CardUpdate)
                    ensures
                        u == receive_end(result),
                    {
                        CardUpdate {
                            show_progress: Some(false),
                            show_clear: Some(true),
                            show_buttons: Some(false),
                            result: Some(result),
                            lower_badge: true,
                            ..none
                        }
                    };
                match state {
                    State::ReceivingFiles => CardUpdate {
                        show_accept_decline: Some(false),
                        show_cancel: Some(true),
                        show_progress: Some(true),
                        progress,
                        caption: Some(CaptionKind::Receiving),
                        lower_badge: true,
                        ..none
                    },
                    State::Disconnected => end(CardResult::UnexpectedDisconnection),
                    State::Rejected => end(CardResult::Rejected),
                    State::Cancelled => end(CardResult::Cancelled),
                    State::Finished => CardUpdate {
                        show_progress: Some(false),
                        show_clear: Some(true),
                        show_buttons: Some(false),
                        caption: Some(CaptionKind::Received),
                        result: Some(CardResult::Finished),
                        ..none
                    },
                    _ => none,
                }
            },
            TransferKind::Send => {
                let failed = |result: CardResult| -> (u: CardUpdate)
                    ensures
                        u == send_failed(result),
                    {
                        CardUpdate {
                            show_progress: Some(false),
                            show_cancel: Some(false),
                            show_send: Some(true),
                            send_is_retry: true,
                            result: Some(result),
                            ..none
                        }
                    };
                match state {
                    State::SentUkeyClientInit | State::SentUkeyClientFinish
                    | State::SentIntroduction | State::SendingFiles => CardUpdate {
                        show_send: Some(false),
                        show_cancel: Some(true),
                        show_progress: Some(true),
                        progress,
                        caption: Some(CaptionKind::Sending),
                        ..none
                    },
                    State::Disconnected => failed(CardResult::UnexpectedDisconnection),
                    State::Rejected => failed(CardResult::Rejected),
                    State::Cancelled => failed(CardResult::Cancelled),
                    State::Finished => CardUpdate {
                        show_progress: Some(false),
                        show_clear: Some(true),
                        show_buttons: Some(false),
                        caption: Some(CaptionKind::Sent),
                        result: Some(CardResult::Finished),
                        ..none
                    },
                    _ => none,
                }
            },
        }
    }

    /// The caption's text for a change of this form.
    pub fn caption(&self, form: CaptionKind, msg: &protocol::ChannelMessage) -> (r: CardCaption)
        requires
            caption_ready(self.kind, msg@),
            self.kind == TransferKind::Send ==> form == CaptionKind::Sending || form == CaptionKind::Sent,
            self.kind == TransferKind::Receive ==> form == CaptionKind::Receiving || form == CaptionKind::Received,
        ensures
            caption_matches(r, form, msg@),
    {
        let m = ChannelMessage(msg.duplicate());
        match m.get_filenames() {
            Some(files) => {
                let count = files.len();
                match form {
                    CaptionKind::Receiving => CardCaption::ReceivingFiles { count },
                    CaptionKind::Sending => CardCaption::SendingFiles { count },
                    CaptionKind::Received => CardCaption::ReceivedFiles { count },
                    CaptionKind::Sent => CardCaption::SentFiles { count },
                }
            },
            None => {
                let description = match m.get_text_data() {
                    Some(t) => t.description,
                    None => String::new(),
                };
                match form {
                    CaptionKind::Received => CardCaption::ReceivedText { description },
                    _ => CardCaption::ReceivingText { description },
                }
            },
        }
    }

    /// Takes the transfer off the badge count, once.
    pub fn lower_notification_count(&mut self, badge: u32) -> (r: BadgeChange)
        ensures
            r == badge_change(old(self).is_badge_removed, badge),
            final(self).is_badge_removed,
            final(self).kind == old(self).kind,
    {
        let r = if !self.is_badge_removed && badge > 0 {
            BadgeChange { new_count: Some(badge - 1), clear_attention: badge == 1 }
        } else {
            BadgeChange { new_count: None, clear_attention: false }
        };
        self.is_badge_removed = true;
        r
    }
}

/// The caption and title a card starts with. A receiving card is titled
/// with the sender's name, a sending one with the device's name or `unknown`.
pub fn initial_caption(kind: TransferKind, msg: &protocol::ChannelMessage, selected: usize) -> (r: CardCaption)
    requires
        kind == TransferKind::Receive ==> caption_ready(kind, msg@),
    ensures
        initial_caption_matches(r, kind, msg@, selected),
{
    match kind {
        TransferKind::Receive => {
            let m = ChannelMessage(msg.duplicate());
            match m.get_filenames() {
                Some(files) => CardCaption::WantsToShareFiles { count: files.len() },
                None => CardCaption::WantsToShareText {
                    description: match m.get_text_data() {
                        Some(t) => t.description,
                        None => String::new(),
                    },
                },
            }
        },
        TransferKind::Send => CardCaption::ReadyToShare { count: selected },
    }
}

/// Whether the send button can be pressed: the device is present.
pub fn can_send_to(endpoint: &protocol::EndpointInfo) -> (b: bool)
    ensures
        b == (endpoint.present is Some),
{
    endpoint.present.is_some()
}

/// What a card's buttons send: accept and decline for an incoming transfer,
/// cancel for either.
pub fn card_button_request(id: &str, action: ChannelAction) -> (r: protocol::ChannelMessage)
    ensures
        r@ == (protocol::MessageView { id: id@, action: Some(action), ..protocol::empty_message() }),
{
    protocol::ChannelMessage::request(id, action)
}

/// A button of a transfer card.
#[derive(Debug, Clone, Copy, PartialEq, Eq, Structural)]
pub enum CardButton {
    /// Accept an incoming transfer.
    Accept,
    /// Decline an incoming transfer.
    Decline,
    /// Cancel the transfer.
    Cancel,
}

/// The request a card's button sends.
pub open spec fn card_button_action(button: CardButton) -> ChannelAction {
    match button {
        CardButton::Accept => ChannelAction::AcceptTransfer,
        CardButton::Decline => ChannelAction::RejectTransfer,
        CardButton::Cancel => ChannelAction::CancelTransfer,
    }
}

/// The transfer id that a card's buttons name: the message's for an
/// incoming transfer, the device's for an outgoing one.
pub open spec fn card_id(kind: TransferKind, msg: protocol::MessageView, endpoint: protocol::EndpointInfo) -> Seq<char> {
    match kind {
        TransferKind::Receive => msg.id,
        TransferKind::Send => endpoint.id@,
    }
}

/// Whether a card has this button: accepting and declining are for incoming
/// transfers only.
pub open spec fn card_has_button(kind: TransferKind, button: CardButton) -> bool {
    kind == TransferKind::Receive || button == CardButton::Cancel
}

/// What pressing a card's button does: the request it sends, and whether
/// the button turns insensitive (Cancel does, after one press).
#[derive(Debug)]
pub struct CardButtonPress {
    pub request: protocol::ChannelMessage,
    pub disable_button: bool,
}

impl TransferCard {
    /// What pressing `button` does on a card whose transfer has the message
    /// `msg` and the device `endpoint`; `None` for a button the card lacks.
    pub fn press(&self, button: CardButton, msg: &protocol::ChannelMessage, endpoint: &protocol::EndpointInfo) -> (r: Option<CardButtonPress>)
        ensures
            match r {
                None => !card_has_button(self.kind, button),
                Some(p) => card_has_button(self.kind, button) && p.request@ == (protocol::MessageView {
                    id: card_id(self.kind, msg@, *endpoint),
                    action: Some(card_button_action(button)),
                    ..protocol::empty_message()
                }) && p.disable_button == (button == CardButton::Cancel),
            },
    {
        if self.kind == TransferKind::Send && button != CardButton::Cancel {
            return None;
        }
        let id = match self.kind {
            TransferKind::Receive => msg.id.as_str(),
            TransferKind::Send => endpoint.id.as_str(),
        };
        let action = match button {
            CardButton::Accept => ChannelAction::AcceptTransfer,
            CardButton::Decline => ChannelAction::RejectTransfer,
            CardButton::Cancel => ChannelAction::CancelTransfer,
        };
        Some(
            CardButtonPress {
                request: protocol::ChannelMessage::request(id, action),
                disable_button: button == CardButton::Cancel,
            },
        )
    }
}

/// A card reports the outcome that the transfer's message names, whichever
/// way the transfer goes: a disconnection is an unexpected disconnection, a
/// rejection a rejection, a cancellation a cancellation, and a finished
/// transfer is finished. Other messages report no outcome.
pub proof fn law_card_reports_the_named_outcome(kind: TransferKind, msg: protocol::MessageView)
    ensures
        msg.state == Some(State::Disconnected) ==> card_update(kind, msg).result == Some(
            CardResult::UnexpectedDisconnection,
        ),
        msg.state == Some(State::Rejected) ==> card_update(kind, msg).result == Some(
            CardResult::Rejected,
        ),
        msg.state == Some(State::Cancelled) ==> card_update(kind, msg).result == Some(
            CardResult::Cancelled,
        ),
        msg.state == Some(State::Finished) ==> card_update(kind, msg).result == Some(
            CardResult::Finished,
        ),
        !(msg.state == Some(State::Disconnected) || msg.state == Some(State::Rejected) || msg.state
            == Some(State::Cancelled) || msg.state == Some(State::Finished)) ==> card_update(
            kind,
            msg,
        ).result is None,
{
}

/// A transfer is taken off the badge at most once: after the first time, the
/// badge does not move.
pub proof fn law_badge_lowered_once(badge: u32)
    ensures
        badge_change(true, badge) == (BadgeChange { new_count: None, clear_attention: false }),
{
}

/// A finished transfer does not take the transfer off the badge, and every
/// failed one does, for an incoming transfer.
pub proof fn law_receive_outcomes(msg: protocol::MessageView)
    requires
        msg.state is Some,
    ensures
        msg.state == Some(State::Finished) ==> !card_update(TransferKind::Receive, msg).lower_badge,
        (msg.state == Some(State::Disconnected) || msg.state == Some(State::Rejected) || msg.state
            == Some(State::Cancelled)) ==> card_update(TransferKind::Receive, msg).lower_badge
            && card_update(TransferKind::Receive, msg).show_clear == Some(true),
{
}

} // verus!
