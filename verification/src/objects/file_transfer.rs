//! A transfer card's model: the files of a transfer to or from one device.
use crate::protocol;
use vstd::prelude::*;

verus! {

/// The phase of a transfer, as a value of its own.
#[derive(Debug)]
pub struct State(pub protocol::State);

/// A device found nearby, as a value of its own.
#[derive(Debug)]
pub struct EndpointInfo(pub protocol::EndpointInfo);

/// Whether a transfer comes in or goes out.
#[derive(Debug, Clone, Copy, PartialEq, Eq, Structural)]
pub enum TransferKind {
    Receive,
    Send,
}

/// The files of a transfer to or from one device.
#[derive(Debug)]
pub struct FileTransferObject {
    pub transfer_kind: TransferKind,
    pub transfer_state: State,
    pub endpoint_info: EndpointInfo,
    pub filenames: Vec<String>,
}

impl FileTransferObject {
    /// A transfer of the given kind, in its initial state and with no files.
    pub fn new(kind: TransferKind) -> (r: Self)
        ensures
            r.transfer_kind == kind,
            r.transfer_state.0 == protocol::State::Initial,
            r.endpoint_info.0.id@ == Seq::<char>::empty(),
            r.endpoint_info.0.present is None,
            r.filenames@ == Seq::<String>::empty(),
    {
        FileTransferObject {
            transfer_kind: kind,
            transfer_state: State(protocol::State::Initial),
            endpoint_info: EndpointInfo(protocol::EndpointInfo::empty()),
            filenames: Vec::new(),
        }
    }
}

} // verus!
