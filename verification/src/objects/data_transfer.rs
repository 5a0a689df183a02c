//! A transfer to or from one device, and the message that describes it.
use crate::i18n::{gettext, is_translation_of, lemma_translation};
use crate::protocol;
use crate::utils::DataTransferEta;
use vstd::prelude::*;

verus! {

/// The phase of a transfer, as a value of its own.
#[derive(Debug)]
pub struct State(pub protocol::State);

impl State {
    /// The initial phase.
    pub fn initial() -> (r: Self)
        ensures
            r.0 == protocol::State::Initial,
    {
        State(protocol::State::Initial)
    }
}

/// A device found nearby, as a value of its own.
#[derive(Debug)]
pub struct EndpointInfo(pub protocol::EndpointInfo);

impl Clone for EndpointInfo {
    fn clone(&self) -> (r: Self)
        ensures
            r == *self,
    {
        EndpointInfo(self.0.clone())
    }
}

/// A channel message, as a value of its own.
#[derive(Debug)]
pub struct ChannelMessage(pub protocol::ChannelMessage);

/// The text that a transfer carries in place of files.
#[derive(Debug)]
pub struct TextData {
    pub description: String,
    pub text: String,
    pub kind: Option<protocol::TextPayloadType>,
}

/// The name of the sending device that a message carries, if any.
pub open spec fn source_name(msg: protocol::MessageView) -> Option<String> {
    match msg.meta {
        Some(meta) => match meta.source {
            Some(source) => Some(source.name),
            None => None,
        },
        None => None,
    }
}

/// The files that a message lists, if any.
pub open spec fn filenames_of(msg: protocol::MessageView) -> Option<Seq<String>> {
    match msg.meta {
        Some(meta) => meta.files,
        None => None,
    }
}

/// The text that a message carries: present when it has a text description,
/// with an empty text when the payload is missing.
pub open spec fn text_data_of(msg: protocol::MessageView) -> Option<(String, Seq<char>, Option<protocol::TextPayloadType>)> {
    match msg.meta {
        Some(meta) => match meta.text_description {
            Some(d) => Some(
                (
                    d,
                    match meta.text_payload {
                        Some(t) => t@,
                        None => Seq::<char>::empty(),
                    },
                    meta.text_type,
                ),
            ),
            None => None,
        },
        None => None,
    }
}

impl ChannelMessage {
    /// The sending device's name, or `fallback` when the message names none.
    pub fn device_name_or(channel_message: &protocol::ChannelMessage, fallback: String) -> (r: String)
        ensures
            r == (match source_name(channel_message@) {
                Some(n) => n,
                None => fallback,
            }),
    {
        match &channel_message.meta {
            Some(meta) => match &meta.source {
                Some(source) => source.name.clone(),
                None => fallback,
            },
            None => fallback,
        }
    }

    /// The sending device's name, or the translation of "Unknown device".
    pub fn get_device_name(channel_message: &protocol::ChannelMessage) -> (r: String)
        ensures
            source_name(channel_message@) matches Some(n) ==> r == n,
            source_name(channel_message@) is None ==> is_translation_of("Unknown device"@, r),
    {
        proof {
            reveal_strlit("Unknown device");
        }
        let unknown = gettext("Unknown device");
        proof {
            lemma_translation("Unknown device", unknown);
        }
        Self::device_name_or(channel_message, unknown)
    }

    /// The names of the files that the message lists.
    pub fn get_filenames(&self) -> (r: Option<Vec<String>>)
        ensures
            protocol::opt_seq(r) == filenames_of(self.0@),
    {
        match &self.0.meta {
            Some(meta) => protocol::clone_opt_strings(&meta.files),
            None => None,
        }
    }

    /// The text that the message carries, when it has a text description.
    pub fn get_text_data(&self) -> (r: Option<TextData>)
        ensures
            match (r, text_data_of(self.0@)) {
                (Some(t), Some((d, text, kind))) => t.description == d && t.text@ == text && t.kind
                    == kind,
                (None, None) => true,
                _ => false,
            },
    {
        match &self.0.meta {
            Some(meta) => match &meta.text_description {
                Some(description) => Some(
                    TextData {
                        description: description.clone(),
                        text: match &meta.text_payload {
                            Some(t) => t.clone(),
                            None => String::new(),
                        },
                        kind: meta.text_type,
                    },
                ),
                None => None,
            },
            None => None,
        }
    }
}

/// Whether a transfer comes in or goes out.
#[derive(Debug, Clone, Copy, PartialEq, Eq, Structural)]
pub enum TransferKind {
    Receive,
    Send,
}

/// How far an outgoing request has got, as the interface shows it.
#[derive(Debug, Clone, Copy, PartialEq, Eq, Structural)]
pub enum TransferState {
    AwaitingConsentOrIdle,
    RequestedForConsent,
    OngoingTransfer,
    Failed,
    Done,
}

/// A transfer to or from one device.
#[derive(Debug)]
pub struct DataTransferObject {
    pub eta_estimator: DataTransferEta,
    pub files_to_send: Vec<String>,
    pub endpoint_info: EndpointInfo,
    pub channel_message: ChannelMessage,
    pub transfer_kind: TransferKind,
    pub transfer_state: TransferState,
    pub device_name: String,
}

impl DataTransferObject {
    /// A transfer of the given kind, with everything else at its start.
    pub fn new(kind: TransferKind) -> (r: Self)
        ensures
            r.transfer_kind == kind,
            r.transfer_state == TransferState::AwaitingConsentOrIdle,
            r.eta_estimator@.fresh(0),
            r.files_to_send@ == Seq::<String>::empty(),
            r.channel_message.0@ == protocol::empty_message(),
            r.endpoint_info.0.id@ == Seq::<char>::empty(),
            r.endpoint_info.0.name is None,
            r.endpoint_info.0.present is None,
            r.device_name@ == Seq::<char>::empty(),
    {
        DataTransferObject {
            eta_estimator: DataTransferEta::new(0),
            files_to_send: Vec::new(),
            endpoint_info: EndpointInfo(protocol::EndpointInfo::empty()),
            channel_message: ChannelMessage(protocol::ChannelMessage::empty()),
            transfer_kind: kind,
            transfer_state: TransferState::AwaitingConsentOrIdle,
            device_name: String::new(),
        }
    }

    /// A transfer like `value` in all but its state, which starts over.
    pub fn copy(value: DataTransferObject) -> (r: Self)
        ensures
            r == (DataTransferObject {
                transfer_state: TransferState::AwaitingConsentOrIdle,
                ..value
            }),
    {
        DataTransferObject { transfer_state: TransferState::AwaitingConsentOrIdle, ..value }
    }
}

} // verus!
