//! The state of an incoming share request.
use crate::objects::data_transfer::ChannelMessage;
use crate::utils::DataTransferEta;
use vstd::prelude::*;

verus! {

/// An incoming share request: its latest message and the transfer-time
/// estimate.
#[derive(Debug)]
pub struct ShareRequestState {
    pub eta: DataTransferEta,
    pub event: ChannelMessage,
}

impl ShareRequestState {
    /// The state of a request announced by `msg`.
    pub fn new(msg: &ChannelMessage) -> (r: Self)
        ensures
            r.event.0@ == msg.0@,
            r.eta@.fresh(0),
    {
        ShareRequestState { eta: DataTransferEta::new(0), event: ChannelMessage(msg.0.duplicate()) }
    }
}

} // verus!
