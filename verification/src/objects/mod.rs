//! The state that the user interface keeps about transfers.
pub mod data_transfer;
pub mod file_transfer;
pub mod receive_transfer;
pub mod share_request;

pub use data_transfer::{ChannelMessage, DataTransferObject, EndpointInfo, State, TextData, TransferKind, TransferState};
pub use receive_transfer::{ReceiveTransferState, UserAction};
pub use share_request::ShareRequestState;
