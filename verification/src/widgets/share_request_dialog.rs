//! The share-request dialog: a request followed from consent to the received
//! files or text, with the request's state kept for when the dialog closes.
use crate::objects::data_transfer::{text_data_of, ChannelMessage};
use crate::objects::TransferState;
use crate::protocol::{self, state_or_initial, ChannelAction, State};
use crate::utils::DataTransferEta;
use crate::widgets::request_dialog::{
    accepts_dialog_message, dialog_finish_ready, eta_accepts, eta_after, finished_content,
    finished_content_of, no_step, receiving_progress, shared_text, step_eta, DialogContent,
    DialogStep, ReceiveRequestDialog,
};
use crate::widgets::share_request::{shared_text_of, SharedText};
use vstd::prelude::*;

verus! {

/// What the share-request dialog does when `msg` arrives. A disconnection
/// of another transfer fails the request but leaves the dialog as it is.
pub open spec fn share_dialog_step(init_id: Seq<char>, msg: protocol::MessageView) -> DialogStep {
    match state_or_initial(msg.state) {
        State::ReceivingFiles => DialogStep {
            content: Some(DialogContent::Receiving),
            progress: receiving_progress(msg),
            update_eta: true,
            can_close: Some(false),
            transfer_state: Some(TransferState::OngoingTransfer),
            ..no_step()
        },
        State::Disconnected => if msg.id == init_id {
            DialogStep {
                content: Some(DialogContent::Disconnected),
                can_close: Some(true),
                transfer_state: Some(TransferState::Failed),
                stop: true,
                ..no_step()
            }
        } else {
            DialogStep {
                can_close: Some(true),
                transfer_state: Some(TransferState::Failed),
                ..no_step()
            }
        },
        State::Rejected => DialogStep {
            can_close: Some(true),
            transfer_state: Some(TransferState::Failed),
            stop: true,
            ..no_step()
        },
        State::Cancelled => DialogStep {
            content: Some(DialogContent::Failed),
            can_close: Some(true),
            transfer_state: Some(TransferState::Failed),
            stop: true,
            ..no_step()
        },
        State::Finished => DialogStep {
            content: Some(finished_content(msg)),
            can_close: Some(true),
            transfer_state: Some(TransferState::Done),
            stop: true,
            ..no_step()
        },
        _ => no_step(),
    }
}

/// What closing the dialog sends: a request still awaiting consent is
/// declined.
pub open spec fn closing_request(state: TransferState) -> Option<ChannelAction> {
    if state == TransferState::AwaitingConsentOrIdle {
        Some(ChannelAction::RejectTransfer)
    } else {
        None
    }
}

/// The request's state after a step.
pub open spec fn state_after(state: TransferState, step: DialogStep) -> TransferState {
    match step.transfer_state {
        Some(s) => s,
        None => state,
    }
}

/// A share request as its dialog follows it.
#[derive(Debug)]
pub struct ShareRequestDialog {
    pub event: ChannelMessage,
    pub eta: DataTransferEta,
    pub transfer_state: TransferState,
    /// The id of the message that announced the request.
    pub init_id: String,
    /// Whether the dialog stopped listening: the transfer is over, and later
    /// messages change nothing.
    pub stopped: bool,
}

impl ShareRequestDialog {
    /// Opens the dialog for the request announced by `event`, starting the
    /// estimate for the announced size.
    pub fn new(event: protocol::ChannelMessage) -> (r: Self)
        requires
            ReceiveRequestDialog::can_open(event@),
        ensures
            r.event.0@ == event@,
            r.init_id@ == event@.id,
            r.transfer_state == TransferState::AwaitingConsentOrIdle,
            !r.stopped,
            r.eta@.fresh(event@.meta->Some_0.total_bytes as usize),
            r.eta@.wf(),
    {
        let total = match &event.meta {
            Some(m) => m.total_bytes,
            None => 0,
        };
        let mut eta = DataTransferEta::new(0);
        eta.prepare_for_new_transfer(Some(total as usize));
        let init_id = event.id.clone();
        ShareRequestDialog {
            event: ChannelMessage(event),
            eta,
            transfer_state: TransferState::AwaitingConsentOrIdle,
            init_id,
            stopped: false,
        }
    }

    /// The request about this transfer for `action`.
    pub fn request(&self, action: ChannelAction) -> (r: protocol::ChannelMessage)
        ensures
            r@ == (protocol::MessageView {
                id: self.event.0.id@,
                action: Some(action),
                ..protocol::empty_message()
            }),
    {
        protocol::ChannelMessage::request(self.event.0.id.as_str(), action)
    }

    /// What closing the dialog sends.
    pub fn closed(&self) -> (r: Option<ChannelAction>)
        ensures
            r == closing_request(self.transfer_state),
    {
        if self.transfer_state == TransferState::AwaitingConsentOrIdle {
            Some(ChannelAction::RejectTransfer)
        } else {
            None
        }
    }

    /// Whether a message can be handled.
    pub open spec fn accepts(&self, msg: protocol::MessageView) -> bool {
        self.stopped || {
            &&& eta_accepts(self.eta@, msg)
            &&& state_or_initial(msg.state) == State::Finished ==> dialog_finish_ready(msg)
        }
    }

    /// Tests whether a message can be handled.
    pub fn accepts_message(&self, msg: &protocol::ChannelMessage) -> (b: bool)
        ensures
            b == self.accepts(msg@),
    {
        self.stopped || accepts_dialog_message(&self.eta, msg)
    }

    /// Records a message and says what the dialog does; received bytes step
    /// the estimate, and the request's state follows the transfer. Once the
    /// dialog stopped, a message changes nothing.
    pub fn on_message(&mut self, msg: protocol::ChannelMessage) -> (r: DialogStep)
        requires
            old(self).eta@.wf(),
            old(self).accepts(msg@),
        ensures
            final(self).init_id == old(self).init_id,
            final(self).eta@.wf(),
            old(self).stopped ==> r == no_step() && final(self).stopped && final(self).event
                == old(self).event && final(self).transfer_state == old(self).transfer_state
                && final(self).eta@ == old(self).eta@,
            !old(self).stopped ==> r == share_dialog_step(old(self).init_id@, msg@)
                && final(self).event.0@ == msg@ && final(self).transfer_state == state_after(
                old(self).transfer_state,
                r,
            ) && final(self).stopped == r.stop && eta_after(old(self).eta@, final(self).eta@, msg@),
    {
        if self.stopped {
            return DialogStep {
                content: None,
                progress: None,
                update_eta: false,
                can_close: None,
                transfer_state: None,
                stop: false,
            };
        }
        let st = protocol::state_or_initial_of(msg.state);
        let step = match st {
            State::ReceivingFiles => {
                let progress = step_eta(&mut self.eta, &msg);
                DialogStep {
                    content: Some(DialogContent::Receiving),
                    progress,
                    update_eta: true,
                    can_close: Some(false),
                    transfer_state: Some(TransferState::OngoingTransfer),
                    stop: false,
                }
            },
            State::Disconnected => {
                if msg.id == self.init_id {
                    DialogStep {
                        content: Some(DialogContent::Disconnected),
                        progress: None,
                        update_eta: false,
                        can_close: Some(true),
                        transfer_state: Some(TransferState::Failed),
                        stop: true,
                    }
                } else {
                    DialogStep {
                        content: None,
                        progress: None,
                        update_eta: false,
                        can_close: Some(true),
                        transfer_state: Some(TransferState::Failed),
                        stop: false,
                    }
                }
            },
            State::Rejected => DialogStep {
                content: None,
                progress: None,
                update_eta: false,
                can_close: Some(true),
                transfer_state: Some(TransferState::Failed),
                stop: true,
            },
            State::Cancelled => DialogStep {
                content: Some(DialogContent::Failed),
                progress: None,
                update_eta: false,
                can_close: Some(true),
                transfer_state: Some(TransferState::Failed),
                stop: true,
            },
            State::Finished => DialogStep {
                content: Some(finished_content_of(&msg)),
                progress: None,
                update_eta: false,
                can_close: Some(true),
                transfer_state: Some(TransferState::Done),
                stop: true,
            },
            _ => DialogStep {
                content: None,
                progress: None,
                update_eta: false,
                can_close: None,
                transfer_state: None,
                stop: false,
            },
        };
        match step.transfer_state {
            Some(s) => {
                self.transfer_state = s;
            },
            None => {},
        }
        self.event = ChannelMessage(msg);
        self.stopped = step.stop;
        step
    }

    /// The received text as the dialog shows it.
    pub fn received_text(&self) -> (r: SharedText)
        requires
            dialog_finish_ready(self.event.0@),
            text_data_of(self.event.0@) is Some,
        ensures
            ({
                let (_, text, kind) = text_data_of(self.event.0@)->Some_0;
                &&& kind == Some(r.kind)
                &&& r.text@ == shared_text_of(r.kind, text)
                &&& r.can_save == (r.kind == crate::protocol::TextPayloadType::Text)
                &&& r.can_open == (r.kind == crate::protocol::TextPayloadType::Url)
                &&& r.unimplemented == (r.kind == crate::protocol::TextPayloadType::Wifi)
            }),
    {
        shared_text(&self.event)
    }
}

/// The request's state follows the transfer: receiving files makes it
/// ongoing and keeps the dialog open; a rejection, a cancellation or any
/// disconnection fails it and a finished transfer completes it, and each of
/// these lets the dialog close. No other message moves it.
pub proof fn law_request_state_follows_transfer(state: TransferState, init_id: Seq<char>, msg: protocol::MessageView)
    ensures
        ({
            let step = share_dialog_step(init_id, msg);
            let next = state_after(state, step);
            &&& msg.state == Some(State::ReceivingFiles) ==> next == TransferState::OngoingTransfer
                && step.can_close == Some(false)
            &&& (msg.state == Some(State::Rejected) || msg.state == Some(State::Cancelled)
                || msg.state == Some(State::Disconnected)) ==> next == TransferState::Failed
                && step.can_close == Some(true)
            &&& msg.state == Some(State::Finished) ==> next == TransferState::Done && step.can_close
                == Some(true)
            &&& !(msg.state == Some(State::ReceivingFiles) || msg.state == Some(State::Rejected)
                || msg.state == Some(State::Cancelled) || msg.state == Some(State::Disconnected)
                || msg.state == Some(State::Finished)) ==> next == state && step.can_close is None
        }),
{
}

/// Once the transfer has moved past consent (it receives, failed or is
/// done), closing the dialog no longer declines it; and a step never brings
/// a request back to awaiting consent.
pub proof fn law_no_decline_after_consent(state: TransferState, init_id: Seq<char>, msg: protocol::MessageView)
    requires
        share_dialog_step(init_id, msg).transfer_state is Some,
    ensures
        closing_request(state_after(state, share_dialog_step(init_id, msg))) is None,
{
}

/// A finished or failed transfer stops the dialog and lets it close, except
/// a disconnection that belongs to another transfer, which only fails it;
/// `on_message` then ignores every later message.
pub proof fn law_terminal_messages_stop(init_id: Seq<char>, msg: protocol::MessageView)
    requires
        state_or_initial(msg.state) == State::Rejected || state_or_initial(msg.state)
            == State::Cancelled || state_or_initial(msg.state) == State::Finished || (
        state_or_initial(msg.state) == State::Disconnected && msg.id == init_id),
    ensures
        share_dialog_step(init_id, msg).stop,
        share_dialog_step(init_id, msg).can_close == Some(true),
{
}

} // verus!
