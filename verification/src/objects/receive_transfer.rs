//! The state of an incoming transfer.
use crate::objects::data_transfer::ChannelMessage;
use crate::utils::DataTransferEta;
use vstd::prelude::*;

verus! {

/// What the user chose for an incoming transfer.
#[derive(Debug, Clone, Copy, PartialEq, Eq, Structural)]
pub enum UserAction {
    ConsentAccept,
    ConsentDecline,
    TransferCancel,
}

/// An incoming transfer: its latest message, the user's choice and the
/// transfer-time estimate.
#[derive(Debug)]
pub struct ReceiveTransferState {
    pub eta: DataTransferEta,
    pub user_action: Option<UserAction>,
    pub event: ChannelMessage,
}

impl ReceiveTransferState {
    /// The state of a transfer announced by `msg`, before the user chose.
    pub fn new(msg: &ChannelMessage) -> (r: Self)
        ensures
            r.event.0@ == msg.0@,
            r.user_action is None,
            r.eta@.fresh(0),
    {
        ReceiveTransferState {
            eta: DataTransferEta::new(0),
            user_action: None,
            event: ChannelMessage(msg.0.duplicate()),
        }
    }
}

} // verus!
