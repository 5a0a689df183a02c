//! A plain-value model of the messages that the Quick Share service exchanges
//! with the user interface.
use vstd::prelude::*;

verus! {

/// The phase of a transfer as reported by the Quick Share service.
#[derive(Debug, Clone, Copy, PartialEq, Eq, Structural)]
pub enum State {
    Initial,
    ReceivedConnectionRequest,
    SentUkeyServerInit,
    SentUkeyClientInit,
    SentUkeyClientFinish,
    SentPairedKeyEncryption,
    ReceivedUkeyClientFinish,
    SentConnectionResponse,
    SentPairedKeyResult,
    SentIntroduction,
    ReceivedPairedKeyResult,
    WaitingForUserConsent,
    ReceivingFiles,
    SendingFiles,
    Disconnected,
    Rejected,
    Cancelled,
    Finished,
}

/// The kind of a text payload.
#[derive(Debug, Clone, Copy, PartialEq, Eq, Structural)]
pub enum TextPayloadType {
    Url,
    Text,
    Wifi,
}

/// Direction of a transfer.
#[derive(Debug, Clone, Copy, PartialEq, Eq, Structural)]
pub enum TransferType {
    Inbound,
    Outbound,
}

/// What the user interface asks the service to do with a transfer.
#[derive(Debug, Clone, Copy, PartialEq, Eq, Structural)]
pub enum ChannelAction {
    AcceptTransfer,
    RejectTransfer,
    CancelTransfer,
}

/// The device on the other end of a transfer.
#[derive(Debug)]
pub struct DeviceInfo {
    pub name: String,
}

impl Clone for DeviceInfo {
    fn clone(&self) -> (r: Self)
        ensures
            r == *self,
    {
        DeviceInfo { name: self.name.clone() }
    }
}

/// Details of a transfer: who sends, what, and how far it has got.
#[derive(Debug)]
pub struct TransferMetadata {
    pub source: Option<DeviceInfo>,
    pub pin_code: Option<String>,
    pub files: Option<Vec<String>>,
    pub text_description: Option<String>,
    pub text_payload: Option<String>,
    pub text_type: Option<TextPayloadType>,
    pub total_bytes: u64,
    pub ack_bytes: u64,
}

/// `TransferMetadata` with the file list as a sequence.
pub struct MetadataView {
    pub source: Option<DeviceInfo>,
    pub pin_code: Option<String>,
    pub files: Option<Seq<String>>,
    pub text_description: Option<String>,
    pub text_payload: Option<String>,
    pub text_type: Option<TextPayloadType>,
    pub total_bytes: u64,
    pub ack_bytes: u64,
}

/// The sequence view of an optional list.
pub open spec fn opt_seq(v: Option<Vec<String>>) -> Option<Seq<String>> {
    match v {
        Some(v) => Some(v@),
        None => None,
    }
}

impl View for TransferMetadata {
    type V = MetadataView;

    open spec fn view(&self) -> MetadataView {
        MetadataView {
            source: self.source,
            pin_code: self.pin_code,
            files: opt_seq(self.files),
            text_description: self.text_description,
            text_payload: self.text_payload,
            text_type: self.text_type,
            total_bytes: self.total_bytes,
            ack_bytes: self.ack_bytes,
        }
    }
}

/// A copy of a list of strings.
pub fn clone_strings(v: &Vec<String>) -> (r: Vec<String>)
    ensures
        r@ == v@,
{
    let mut r: Vec<String> = Vec::new();
    let mut i: usize = 0;
    while i < v.len()
        invariant
            i <= v.len(),
            r@ == v@.take(i as int),
        decreases v.len() - i,
    {
        r.push(v[i].clone());
        i = i + 1;
    }
    assert(v@.take(v.len() as int) =~= v@);
    r
}

/// A copy of an optional list of strings.
pub fn clone_opt_strings(v: &Option<Vec<String>>) -> (r: Option<Vec<String>>)
    ensures
        opt_seq(r) == opt_seq(*v),
{
    match v {
        Some(v) => Some(clone_strings(v)),
        None => None,
    }
}

impl TransferMetadata {
    /// An equal copy.
    pub fn duplicate(&self) -> (r: Self)
        ensures
            r@ == self@,
    {
        TransferMetadata {
            source: match &self.source {
                Some(d) => Some(d.clone()),
                None => None,
            },
            pin_code: self.pin_code.clone(),
            files: clone_opt_strings(&self.files),
            text_description: self.text_description.clone(),
            text_payload: self.text_payload.clone(),
            text_type: self.text_type,
            total_bytes: self.total_bytes,
            ack_bytes: self.ack_bytes,
        }
    }
}

/// A message between the Quick Share service and the user interface: an
/// update on a transfer, or a request about one.
#[derive(Debug)]
pub struct ChannelMessage {
    pub id: String,
    pub action: Option<ChannelAction>,
    pub rtype: Option<TransferType>,
    pub state: Option<State>,
    pub meta: Option<TransferMetadata>,
}

/// `ChannelMessage` with its metadata viewed.
pub struct MessageView {
    pub id: Seq<char>,
    pub action: Option<ChannelAction>,
    pub rtype: Option<TransferType>,
    pub state: Option<State>,
    pub meta: Option<MetadataView>,
}

impl View for ChannelMessage {
    type V = MessageView;

    open spec fn view(&self) -> MessageView {
        MessageView {
            id: self.id@,
            action: self.action,
            rtype: self.rtype,
            state: self.state,
            meta: match self.meta {
                Some(m) => Some(m@),
                None => None,
            },
        }
    }
}

/// The message with no id, action, type, state or metadata.
pub open spec fn empty_message() -> MessageView {
    MessageView {
        id: Seq::<char>::empty(),
        action: None,
        rtype: None,
        state: None,
        meta: None,
    }
}

impl ChannelMessage {
    /// The message with no id, action, type, state or metadata.
    pub fn empty() -> (r: Self)
        ensures
            r@ == empty_message(),
    {
        ChannelMessage { id: String::new(), action: None, rtype: None, state: None, meta: None }
    }

    /// A request to the service: `action` for the transfer `id`.
    pub fn request(id: &str, action: ChannelAction) -> (r: Self)
        ensures
            r@ == (MessageView { id: id@, action: Some(action), ..empty_message() }),
    {
        ChannelMessage { id: id.to_owned(), action: Some(action), rtype: None, state: None, meta: None }
    }

    /// An equal copy.
    pub fn duplicate(&self) -> (r: Self)
        ensures
            r@ == self@,
    {
        ChannelMessage {
            id: self.id.clone(),
            action: self.action,
            rtype: self.rtype,
            state: self.state,
            meta: match &self.meta {
                Some(m) => Some(m.duplicate()),
                None => None,
            },
        }
    }
}

/// A device found nearby that files can be sent to.
#[derive(Debug)]
pub struct EndpointInfo {
    pub fullname: String,
    pub id: String,
    pub name: Option<String>,
    pub ip: Option<String>,
    pub port: Option<String>,
    pub present: Option<bool>,
}

impl EndpointInfo {
    /// The endpoint with empty names and nothing known.
    pub fn empty() -> (r: Self)
        ensures
            r.fullname@ == Seq::<char>::empty(),
            r.id@ == Seq::<char>::empty(),
            r.name is None,
            r.ip is None,
            r.port is None,
            r.present is None,
    {
        EndpointInfo {
            fullname: String::new(),
            id: String::new(),
            name: None,
            ip: None,
            port: None,
            present: None,
        }
    }
}

impl Clone for EndpointInfo {
    fn clone(&self) -> (r: Self)
        ensures
            r == *self,
    {
        EndpointInfo {
            fullname: self.fullname.clone(),
            id: self.id.clone(),
            name: self.name.clone(),
            ip: self.ip.clone(),
            port: self.port.clone(),
            present: self.present,
        }
    }
}

/// What is sent to a device.
#[derive(Debug)]
pub enum OutboundPayload {
    Files(Vec<String>),
}

/// A request to send files to a device.
#[derive(Debug)]
pub struct SendInfo {
    pub id: String,
    pub name: String,
    pub addr: String,
    pub ob: OutboundPayload,
}

/// A message's state, reading a missing state as `Initial`.
pub open spec fn state_or_initial(s: Option<State>) -> State {
    match s {
        Some(st) => st,
        None => State::Initial,
    }
}

/// Reads a message's state, a missing one as `Initial`.
pub fn state_or_initial_of(s: Option<State>) -> (r: State)
    ensures
        r == state_or_initial(s),
{
    match s {
        Some(st) => st,
        None => State::Initial,
    }
}

} // verus!
