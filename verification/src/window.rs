//! The main window's decisions: the list of devices to send to, where the
//! service's messages go, discovery, the status bar, and closing.
use crate::objects::data_transfer::{DataTransferObject, EndpointInfo, TransferKind, TransferState};
use crate::protocol::{self, state_or_initial, State, TransferType};
use crate::text::{chars_of, same_text, trim_class, trim_range, CharClass};
use vstd::prelude::*;

verus! {

/// Whether a request is still in play: asked for or under way.
pub open spec fn is_in_play(state: TransferState) -> bool {
    state == TransferState::RequestedForConsent || state == TransferState::OngoingTransfer
}

/// Whether a transfer's message says nothing is moving: it has not started
/// or it is over.
pub open spec fn is_idle_state(state: State) -> bool {
    state == State::Initial || state == State::Disconnected || state == State::Rejected || state
        == State::Cancelled || state == State::Finished
}

/// The devices that files can be sent to, newest first, each at most once.
#[derive(Debug)]
pub struct RecipientList {
    pub items: Vec<DataTransferObject>,
}

/// Whether no device id appears twice.
pub open spec fn unique_ids(items: Seq<DataTransferObject>) -> bool {
    forall|i: int, j: int|
        0 <= i < items.len() && 0 <= j < items.len() && i != j ==> items[i].endpoint_info.0.id@
            != items[j].endpoint_info.0.id@
}

/// Where the recipient with device id `id` stands, if it is listed.
pub open spec fn position_of(items: Seq<DataTransferObject>, id: Seq<char>) -> Option<int> {
    if exists|i: int| 0 <= i < items.len() && items[i].endpoint_info.0.id@ == id {
        Some(choose|i: int| 0 <= i < items.len() && items[i].endpoint_info.0.id@ == id)
    } else {
        None
    }
}

/// What refreshing drops from a list of recipients: for each recipient not
/// in play, in order, where it stands once the ones before it are gone (the
/// number of kept ones before it) and its device id.
pub open spec fn removals_of(items: Seq<DataTransferObject>) -> Seq<(usize, Seq<char>)>
    decreases items.len(),
{
    if items.len() == 0 {
        Seq::empty()
    } else {
        let rest = removals_of(items.drop_last());
        let last = items.last();
        if is_in_play(last.transfer_state) {
            rest
        } else {
            rest.push(
                (
                    items.drop_last().filter(|d: DataTransferObject| is_in_play(d.transfer_state)).len() as usize,
                    last.endpoint_info.0.id@,
                ),
            )
        }
    }
}

/// What happened to a device that discovery reported.
#[derive(Debug, Clone, Copy, PartialEq, Eq, Structural)]
pub enum EndpointOutcome {
    /// It was listed at this position, and its details were replaced.
    Updated { position: usize },
    /// It is new, and now heads the list.
    Inserted,
}

impl RecipientList {
    /// The list's invariant: no device appears twice.
    pub open spec fn wf(&self) -> bool {
        unique_ids(self.items@)
    }

    /// An empty list.
    pub fn new() -> (r: Self)
        ensures
            r.items@ == Seq::<DataTransferObject>::empty(),
            r.wf(),
    {
        RecipientList { items: Vec::new() }
    }

    /// Empties the list, as the send button does before discovery starts.
    pub fn clear(&mut self)
        ensures
            final(self).items@ == Seq::<DataTransferObject>::empty(),
            final(self).wf(),
    {
        self.items = Vec::new();
    }

    /// Where the recipient with device id `id` stands.
    pub fn find(&self, id: &str) -> (r: Option<usize>)
        requires
            self.wf(),
        ensures
            match r {
                Some(i) => i < self.items.len() && self.items@[i as int].endpoint_info.0.id@ == id@,
                None => forall|i: int|
                    0 <= i < self.items.len() ==> self.items@[i].endpoint_info.0.id@ != id@,
            },
            r matches Some(i) ==> position_of(self.items@, id@) == Some(i as int),
            r is None ==> position_of(self.items@, id@) is None,
    {
        let mut i: usize = 0;
        while i < self.items.len()
            invariant
                i <= self.items.len(),
                unique_ids(self.items@),
                forall|j: int| 0 <= j < i ==> self.items@[j].endpoint_info.0.id@ != id@,
            decreases self.items.len() - i,
        {
            if crate::text::same_text(self.items[i].endpoint_info.0.id.as_str(), id) {
                proof {
                    let k = choose|k: int| 0 <= k < self.items.len() && self.items@[k].endpoint_info.0.id@ == id@;
                    assert(k == i as int) by {
                        if k != i as int {
                            assert(self.items@[k].endpoint_info.0.id@ != self.items@[i as int].endpoint_info.0.id@);
                        }
                    }
                }
                return Some(i);
            }
            i = i + 1;
        }
        None
    }

    /// Takes in a device that discovery reported: a listed device gets the
    /// new details; a new one is put first, as a recipient to send to.
    pub fn upsert_endpoint(&mut self, endpoint: protocol::EndpointInfo) -> (r: EndpointOutcome)
        requires
            old(self).wf(),
        ensures
            final(self).wf(),
            position_of(final(self).items@, endpoint.id@) matches Some(i) && final(self).items@[i].endpoint_info.0
                == endpoint,
            match r {
                EndpointOutcome::Updated { position } => {
                    &&& position < old(self).items.len()
                    &&& old(self).items@[position as int].endpoint_info.0.id@ == endpoint.id@
                    &&& final(self).items@ == old(self).items@.update(
                        position as int,
                        DataTransferObject {
                            endpoint_info: EndpointInfo(endpoint),
                            ..old(self).items@[position as int]
                        },
                    )
                },
                EndpointOutcome::Inserted => {
                    &&& position_of(old(self).items@, endpoint.id@) is None
                    &&& final(self).items.len() == old(self).items.len() + 1
                    &&& final(self).items@.skip(1) == old(self).items@
                    &&& final(self).items@[0].endpoint_info.0 == endpoint
                    &&& final(self).items@[0].transfer_kind == TransferKind::Send
                    &&& final(self).items@[0].transfer_state == TransferState::AwaitingConsentOrIdle
                },
            },
    {
        let id = endpoint.id.clone();
        match self.find(id.as_str()) {
            Some(i) => {
                let mut items: Vec<DataTransferObject> = Vec::new();
                std::mem::swap(&mut items, &mut self.items);
                let ghost before = items@;
                let mut item = items.remove(i);
                item.endpoint_info = EndpointInfo(endpoint);
                items.insert(i, item);
                assert(items@ =~= before.update(i as int, items@[i as int]));
                self.items = items;
                proof {
                    assert forall|a: int, b: int|
                        0 <= a < self.items.len() && 0 <= b < self.items.len() && a != b implies
                        self.items@[a].endpoint_info.0.id@ != self.items@[b].endpoint_info.0.id@ by {
                        assert(self.items@[i as int].endpoint_info.0.id@ == before[i as int].endpoint_info.0.id@);
                        if a != i as int && b != i as int {
                            assert(self.items@[a] == before[a]);
                            assert(self.items@[b] == before[b]);
                        } else if a == i as int {
                            assert(self.items@[b] == before[b]);
                        } else {
                            assert(self.items@[a] == before[a]);
                        }
                    }
                }
                proof {
                    let k = choose|k: int| 0 <= k < self.items@.len() && self.items@[k].endpoint_info.0.id@ == endpoint.id@;
                    assert(self.items@[i as int].endpoint_info.0.id@ == endpoint.id@);
                    assert(k == i as int) by {
                        if k != i as int {
                            assert(self.items@[k].endpoint_info.0.id@ != self.items@[i as int].endpoint_info.0.id@);
                        }
                    }
                }
                EndpointOutcome::Updated { position: i }
            },
            None => {
                let mut obj = DataTransferObject::new(TransferKind::Send);
                obj.endpoint_info = EndpointInfo(endpoint);
                let ghost before = self.items@;
                self.items.insert(0, obj);
                proof {
                    assert(self.items@.skip(1) =~= before);
                    assert forall|a: int, b: int|
                        0 <= a < self.items.len() && 0 <= b < self.items.len() && a != b implies
                        self.items@[a].endpoint_info.0.id@ != self.items@[b].endpoint_info.0.id@ by {
                        if a > 0 && b > 0 {
                            assert(self.items@[a] == before[a - 1]);
                            assert(self.items@[b] == before[b - 1]);
                        } else if a == 0 {
                            assert(self.items@[b] == before[b - 1]);
                        } else {
                            assert(self.items@[a] == before[a - 1]);
                        }
                    }
                }
                proof {
                    assert(self.items@[0].endpoint_info.0.id@ == endpoint.id@);
                    let k = choose|k: int| 0 <= k < self.items@.len() && self.items@[k].endpoint_info.0.id@ == endpoint.id@;
                    assert(k == 0) by {
                        if k != 0 {
                            assert(self.items@[k].endpoint_info.0.id@ != self.items@[0].endpoint_info.0.id@);
                        }
                    }
                }
                EndpointOutcome::Inserted
            },
        }
    }

    /// Drops the recipients whose request is not in play (idle, failed or
    /// done), keeping the others in order; gives, for each one dropped, in
    /// order, the position to remove from the shown list (one removal after
    /// the other) and its device id, for the caller to forget.
    pub fn refresh(&mut self) -> (r: Vec<(usize, String)>)
        requires
            old(self).wf(),
        ensures
            final(self).wf(),
            final(self).items@ == old(self).items@.filter(|d: DataTransferObject| is_in_play(d.transfer_state)),
            r@.map_values(|p: (usize, String)| (p.0, p.1@)) == removals_of(old(self).items@),
    {
        let mut rest: Vec<DataTransferObject> = Vec::new();
        std::mem::swap(&mut rest, &mut self.items);
        let ghost src = rest@;
        let n = rest.len();
        assert(src.len() == n);
        let mut kept: Vec<DataTransferObject> = Vec::new();
        let mut removed: Vec<(usize, String)> = Vec::new();
        let mut i: usize = 0;
        let ghost pred = |d: DataTransferObject| is_in_play(d.transfer_state);
        let ghost pv = |p: (usize, String)| (p.0, p.1@);
        assert(src.skip(0) =~= src);
        assert(src.take(0) =~= Seq::<DataTransferObject>::empty());
        assert(removed@.map_values(pv) =~= removals_of(src.take(0)));
        while rest.len() > 0
            invariant
                i + rest.len() == src.len(),
                src.len() <= usize::MAX,
                rest@ == src.skip(i as int),
                kept@ == src.take(i as int).filter(pred),
                removed@.map_values(pv) == removals_of(src.take(i as int)),
                pred == (|d: DataTransferObject| is_in_play(d.transfer_state)),
                pv == (|p: (usize, String)| (p.0, p.1@)),
            decreases rest.len(),
        {
            let item = rest.remove(0);
            proof {
                assert(item == src[i as int]);
                assert(src.take(i + 1).drop_last() =~= src.take(i as int));
                assert(src.take(i + 1).last() == item);
                assert(src.skip(i + 1) =~= rest@);
                reveal_with_fuel(Seq::filter, 1);
            }
            if item.transfer_state == TransferState::RequestedForConsent || item.transfer_state
                == TransferState::OngoingTransfer {
                kept.push(item);
            } else {
                let ghost before = removed@;
                let pos = kept.len();
                removed.push((pos, item.endpoint_info.0.id.clone()));
                assert(removed@.map_values(pv) =~= before.map_values(pv).push((pos, item.endpoint_info.0.id@)));
            }
            i = i + 1;
        }
        proof {
            assert(src.take(src.len() as int) =~= src);
            lemma_filter_keeps_unique(src, pred);
        }
        self.items = kept;
        removed
    }

    /// Whether no file is on its way to any recipient: every transfer has
    /// not started or is over.
    pub fn is_no_file_being_send(&self) -> (r: bool)
        ensures
            r == forall|i: int|
                0 <= i < self.items.len() ==> is_idle_state(
                    #[trigger] state_or_initial(self.items@[i].channel_message.0.state),
                ),
    {
        let mut i: usize = 0;
        while i < self.items.len()
            invariant
                i <= self.items.len(),
                forall|j: int|
                    0 <= j < i ==> is_idle_state(
                        #[trigger] state_or_initial(self.items@[j].channel_message.0.state),
                    ),
            decreases self.items.len() - i,
        {
            let st = protocol::state_or_initial_of(self.items[i].channel_message.0.state);
            match st {
                State::Initial | State::Disconnected | State::Rejected | State::Cancelled
                | State::Finished => {},
                _ => {
                    return false;
                },
            }
            i = i + 1;
        }
        true
    }
}

/// Where a message from the service goes.
#[derive(Debug, Clone, Copy, PartialEq, Eq, Structural)]
pub enum MessageRoute {
    /// A new incoming request: open the receive dialogs for it.
    NewIncomingRequest,
    /// The incoming transfer being followed, if any.
    IncomingTransfer,
    /// The outgoing transfer to the device with the message's id, if listed.
    OutgoingTransfer,
    /// A disconnection that names no direction: it goes to the outgoing
    /// transfer with its id, and to the incoming one if that has its id.
    DisconnectionForBoth,
    /// Nothing to do.
    Ignore,
}

/// Where a message from the service goes.
pub open spec fn route_of(msg: protocol::MessageView) -> MessageRoute {
    match state_or_initial(msg.state) {
        State::WaitingForUserConsent => MessageRoute::NewIncomingRequest,
        State::SentUkeyClientInit | State::SentUkeyClientFinish | State::SentIntroduction
        | State::Disconnected | State::Rejected | State::Cancelled | State::Finished
        | State::SendingFiles | State::ReceivingFiles => match msg.rtype {
            Some(TransferType::Inbound) => MessageRoute::IncomingTransfer,
            Some(TransferType::Outbound) => MessageRoute::OutgoingTransfer,
            None => if msg.state == Some(State::Disconnected) {
                MessageRoute::DisconnectionForBoth
            } else {
                MessageRoute::Ignore
            },
        },
        _ => MessageRoute::Ignore,
    }
}

/// Messages about a transfer in progress or ended (from the key exchange
/// through the files moving to the transfer finishing, failing or being
/// cancelled) reach the transfer of their direction: an incoming one goes to
/// the incoming transfer, an outgoing one to the outgoing transfer. A
/// consent request always opens the receive dialogs, and a message without
/// a state goes nowhere.
pub proof fn law_transfer_messages_reach_their_transfer(msg: protocol::MessageView)
    ensures
        ({
            let in_transfer = msg.state == Some(State::SentUkeyClientInit) || msg.state == Some(
                State::SentUkeyClientFinish,
            ) || msg.state == Some(State::SentIntroduction) || msg.state == Some(State::SendingFiles)
                || msg.state == Some(State::ReceivingFiles) || msg.state == Some(State::Finished)
                || msg.state == Some(State::Cancelled) || msg.state == Some(State::Rejected)
                || msg.state == Some(State::Disconnected);
            &&& in_transfer && msg.rtype == Some(TransferType::Inbound) ==> route_of(msg)
                == MessageRoute::IncomingTransfer
            &&& in_transfer && msg.rtype == Some(TransferType::Outbound) ==> route_of(msg)
                == MessageRoute::OutgoingTransfer
            &&& msg.state == Some(State::Disconnected) && msg.rtype is None ==> route_of(msg)
                == MessageRoute::DisconnectionForBoth
            &&& msg.state == Some(State::WaitingForUserConsent) ==> route_of(msg)
                == MessageRoute::NewIncomingRequest
            &&& msg.state is None ==> route_of(msg) == MessageRoute::Ignore
        }),
{
}

/// Where a message from the service goes.
pub fn route_message(msg: &protocol::ChannelMessage) -> (r: MessageRoute)
    ensures
        r == route_of(msg@),
{
    match protocol::state_or_initial_of(msg.state) {
        State::WaitingForUserConsent => MessageRoute::NewIncomingRequest,
        State::SentUkeyClientInit | State::SentUkeyClientFinish | State::SentIntroduction
        | State::Disconnected | State::Rejected | State::Cancelled | State::Finished
        | State::SendingFiles | State::ReceivingFiles => match msg.rtype {
            Some(TransferType::Inbound) => MessageRoute::IncomingTransfer,
            Some(TransferType::Outbound) => MessageRoute::OutgoingTransfer,
            None => if msg.state == Some(State::Disconnected) {
                MessageRoute::DisconnectionForBoth
            } else {
                MessageRoute::Ignore
            },
        },
        _ => MessageRoute::Ignore,
    }
}

/// What a notification's button or click asks for.
#[derive(Debug, Clone, Copy, PartialEq, Eq, Structural)]
pub enum NotificationAction {
    ConsentAccept,
    ConsentDecline,
    TransferCancel,
    /// Open the folder named by the action's parameter.
    OpenFolder,
    /// Copy the action's parameter to the clipboard.
    CopyText,
    /// Nothing: the notification's default action and the like.
    Other,
}

/// What a notification action's name asks for.
pub open spec fn notification_action_of(name: Seq<char>) -> NotificationAction {
    if name == "consent-accept"@ {
        NotificationAction::ConsentAccept
    } else if name == "consent-decline"@ {
        NotificationAction::ConsentDecline
    } else if name == "transfer-cancel"@ {
        NotificationAction::TransferCancel
    } else if name == "open-folder"@ {
        NotificationAction::OpenFolder
    } else if name == "copy-text"@ {
        NotificationAction::CopyText
    } else {
        NotificationAction::Other
    }
}

/// What a notification action's name asks for.
pub fn notification_action(name: &str) -> (r: NotificationAction)
    ensures
        r == notification_action_of(name@),
{
    if same_text(name, "consent-accept") {
        NotificationAction::ConsentAccept
    } else if same_text(name, "consent-decline") {
        NotificationAction::ConsentDecline
    } else if same_text(name, "transfer-cancel") {
        NotificationAction::TransferCancel
    } else if same_text(name, "open-folder") {
        NotificationAction::OpenFolder
    } else if same_text(name, "copy-text") {
        NotificationAction::CopyText
    } else {
        NotificationAction::Other
    }
}

/// The choice that a notification action makes on the incoming transfer.
pub fn notification_choice(action: NotificationAction) -> (r: Option<crate::objects::UserAction>)
    ensures
        r == match action {
            NotificationAction::ConsentAccept => Some(crate::objects::UserAction::ConsentAccept),
            NotificationAction::ConsentDecline => Some(crate::objects::UserAction::ConsentDecline),
            NotificationAction::TransferCancel => Some(crate::objects::UserAction::TransferCancel),
            _ => None,
        },
{
    match action {
        NotificationAction::ConsentAccept => Some(crate::objects::UserAction::ConsentAccept),
        NotificationAction::ConsentDecline => Some(crate::objects::UserAction::ConsentDecline),
        NotificationAction::TransferCancel => Some(crate::objects::UserAction::TransferCancel),
        _ => None,
    }
}

/// Which recipients count as idle for renaming: a send that has not
/// started, or one that ended however it ended (disconnected, rejected,
/// cancelled or finished). A recipient in any other state (from the key
/// exchange to the files moving) is a file being sent.
pub proof fn law_ended_sends_are_idle(items: Seq<DataTransferObject>)
    ensures
        forall|s: State|
            #![trigger is_idle_state(s)]
            (s == State::Initial || s == State::Disconnected || s == State::Rejected || s
                == State::Cancelled || s == State::Finished) == is_idle_state(s),
        forall|i: int|
            0 <= i < items.len() && (items[i].channel_message.0.state == Some(State::SendingFiles)
                || items[i].channel_message.0.state == Some(State::ReceivingFiles)
                || items[i].channel_message.0.state == Some(State::SentIntroduction))
                ==> !is_idle_state(#[trigger] state_or_initial(items[i].channel_message.0.state)),
{
}

/// Whether closing the window only hides it, leaving the app running in
/// the background: allowed, asked for, and not a request to quit.
pub fn hides_on_close(is_background_allowed: bool, run_in_background: bool, should_quit: bool) -> (r: bool)
    ensures
        r == (is_background_allowed && run_in_background && !should_quit),
{
    is_background_allowed && run_in_background && !should_quit
}

/// Whether the notification of the incoming transfer must be withdrawn when
/// the app closes: the transfer is not over.
pub fn withdraws_notification_on_close(state: Option<State>) -> (r: bool)
    ensures
        r == !(match state_or_initial(state) {
            State::Disconnected | State::Rejected | State::Cancelled | State::Finished => true,
            _ => false,
        }),
{
    match protocol::state_or_initial_of(state) {
        State::Disconnected | State::Rejected | State::Cancelled | State::Finished => false,
        _ => true,
    }
}

/// Whether discovery of nearby devices runs.
#[derive(Debug)]
pub struct MdnsDiscovery {
    pub is_on: bool,
}

/// Whether `start(force)` starts a discovery task: when forced, or when
/// not forced either way and discovery is off.
pub open spec fn starts_discovery(is_on: bool, force: Option<bool>) -> bool {
    force == Some(true) || (force is None && !is_on)
}

impl MdnsDiscovery {
    /// Starts discovery when forced, or when off and not forced either way;
    /// says whether a task is started.
    pub fn start(&mut self, force: Option<bool>) -> (r: bool)
        ensures
            r == starts_discovery(old(self).is_on, force),
            final(self).is_on == (old(self).is_on || r),
    {
        let r = match force {
            Some(f) => f,
            None => !self.is_on,
        };
        if r {
            self.is_on = true;
        }
        r
    }

    /// Stops discovery if it runs; says whether it was running.
    pub fn stop(&mut self) -> (r: bool)
        ensures
            r == old(self).is_on,
            !final(self).is_on,
    {
        let r = self.is_on;
        self.is_on = false;
        r
    }
}

/// Starting discovery twice without a force starts one task; stopping then
/// turns it off, and a later start starts it again.
pub proof fn law_discovery_start_stop(is_on: bool)
    ensures
        !starts_discovery(is_on || starts_discovery(is_on, None), None),
        starts_discovery(false, None),
        !starts_discovery(is_on, Some(false)),
        starts_discovery(is_on, Some(true)),
{
}

/// What the status bar says when the device is not connected.
#[derive(Debug, Clone, Copy, PartialEq, Eq, Structural)]
pub enum ConnectionHint {
    ConnectWifiAndBluetooth,
    ConnectWifi,
    TurnOnBluetooth,
}

/// What the status bar says.
#[derive(Debug, Clone, Copy, PartialEq, Eq, Structural)]
pub enum StatusIndicator {
    /// Ready and visible under the device's name.
    Ready,
    /// Connected but hidden from new devices.
    Invisible,
    /// Not connected, with what to turn on.
    Disconnected(ConnectionHint),
}

/// What the status bar says for the network and Bluetooth states and the
/// visibility setting.
pub open spec fn status_of(network: bool, bluetooth: bool, visible: bool) -> StatusIndicator {
    if network && bluetooth {
        if visible {
            StatusIndicator::Ready
        } else {
            StatusIndicator::Invisible
        }
    } else if !network && !bluetooth {
        StatusIndicator::Disconnected(ConnectionHint::ConnectWifiAndBluetooth)
    } else if !network {
        StatusIndicator::Disconnected(ConnectionHint::ConnectWifi)
    } else {
        StatusIndicator::Disconnected(ConnectionHint::TurnOnBluetooth)
    }
}

/// What the status bar says.
pub fn bottom_bar_status(network: bool, bluetooth: bool, visible: bool) -> (r: StatusIndicator)
    ensures
        r == status_of(network, bluetooth, visible),
{
    if network && bluetooth {
        if visible {
            StatusIndicator::Ready
        } else {
            StatusIndicator::Invisible
        }
    } else if !network && !bluetooth {
        StatusIndicator::Disconnected(ConnectionHint::ConnectWifiAndBluetooth)
    } else if !network && bluetooth {
        StatusIndicator::Disconnected(ConnectionHint::ConnectWifi)
    } else {
        StatusIndicator::Disconnected(ConnectionHint::TurnOnBluetooth)
    }
}

/// The device says it is ready exactly when it has both network and
/// Bluetooth and is visible; without either it says what to turn on.
pub proof fn law_ready_needs_everything(network: bool, bluetooth: bool, visible: bool)
    ensures
        (status_of(network, bluetooth, visible) == StatusIndicator::Ready) == (network && bluetooth
            && visible),
        !network ==> (status_of(network, bluetooth, visible) matches StatusIndicator::Disconnected(h)
            && h != ConnectionHint::TurnOnBluetooth),
        !bluetooth ==> (status_of(network, bluetooth, visible) matches StatusIndicator::Disconnected(h)
            && h != ConnectionHint::ConnectWifi),
{
}

/// The network and Bluetooth states that the status bar shows.
#[derive(Debug)]
pub struct Connectivity {
    pub network: bool,
    pub bluetooth: bool,
}

impl Connectivity {
    /// Records a network state; says whether it changed, since the network
    /// monitor repeats unchanged states.
    pub fn on_network(&mut self, available: bool) -> (changed: bool)
        ensures
            changed == (old(self).network != available),
            final(self).network == available,
            final(self).bluetooth == old(self).bluetooth,
    {
        let changed = self.network != available;
        self.network = available;
        changed
    }

    /// Records a Bluetooth state; each report counts as a change.
    pub fn on_bluetooth(&mut self, powered: bool) -> (changed: bool)
        ensures
            changed,
            final(self).bluetooth == powered,
            final(self).network == old(self).network,
    {
        self.bluetooth = powered;
        true
    }
}

/// `whoami::devicename`: the device's "pretty name", read from the system;
/// `None` when the crate reports an error. It depends on the machine, so
/// nothing is stated of it.
#[verifier::external_body]
fn system_device_name() -> (r: Option<String>) {
    whoami::devicename().ok()
}

/// The device name in use: the saved one, or the system's device name when
/// none was saved (and it could be read).
pub open spec fn device_name_choice(saved: Seq<char>, system: Option<String>) -> Seq<char> {
    if saved.len() == 0 {
        match system {
            Some(n) => n@,
            None => saved,
        }
    } else {
        saved
    }
}

/// The device name in use, given the saved one and the system's.
pub fn device_name_or_system(saved: &str, system: Option<String>) -> (r: String)
    ensures
        r@ == device_name_choice(saved@, system),
{
    if saved.is_empty() {
        match system {
            Some(n) => n,
            None => saved.to_owned(),
        }
    } else {
        saved.to_owned()
    }
}

/// The device name at start: the saved one, or, when none was saved, the
/// system's device name, which is to be saved in turn.
pub fn initial_device_name(saved: &str) -> (r: String)
    ensures
        saved@.len() > 0 ==> r@ == saved@,
        exists|system: Option<String>| r@ == device_name_choice(saved@, system),
{
    if saved.is_empty() {
        let system = system_device_name();
        device_name_or_system(saved, system)
    } else {
        device_name_or_system(saved, None)
    }
}

/// Whether a device name can be used: other devices drop names that are
/// empty once trimmed of white space.
pub open spec fn is_valid_device_name(s: Seq<char>) -> bool {
    trim_class(s, CharClass::WhiteSpace).len() > 0
}

/// Whether a device name can be used.
pub fn device_name_is_valid(s: &str) -> (r: bool)
    ensures
        r == is_valid_device_name(s@),
{
    let v = chars_of(s);
    assert(v@.subrange(0, v.len() as int) =~= v@);
    let (a, b) = trim_range(&v, 0, v.len(), CharClass::WhiteSpace);
    a < b
}

/// The value of a string of decimal digits.
pub open spec fn digits_value(s: Seq<char>) -> nat
    decreases s.len(),
{
    if s.len() == 0 {
        0
    } else {
        digits_value(s.drop_last()) * 10 + ((s.last() as u32) - ('0' as u32)) as nat
    }
}

/// Whether every character is an ASCII digit.
pub open spec fn all_digits(s: Seq<char>) -> bool {
    forall|i: int| 0 <= i < s.len() ==> '0' <= #[trigger] s[i] <= '9'
}

/// A port number as `u16::from_str` reads it: an optional `+`, then one or
/// more ASCII digits whose value fits in a `u16`.
pub open spec fn parse_u16_of(s: Seq<char>) -> Option<u16> {
    let digits = if s.len() > 0 && s[0] == '+' {
        s.drop_first()
    } else {
        s
    };
    if digits.len() > 0 && all_digits(digits) && digits_value(digits) <= u16::MAX {
        Some(digits_value(digits) as u16)
    } else {
        None
    }
}

proof fn lemma_digits_value_grows(s: Seq<char>, i: int)
    requires
        0 <= i <= s.len(),
        all_digits(s),
    ensures
        digits_value(s.take(i)) <= digits_value(s),
    decreases s.len(),
{
    if i < s.len() {
        assert(s.drop_last().take(i) =~= s.take(i));
        assert(all_digits(s.drop_last())) by {
            assert forall|k: int| 0 <= k < s.drop_last().len() implies '0' <= #[trigger] s.drop_last()[k] <= '9' by {
                assert(s.drop_last()[k] == s[k]);
            }
        }
        lemma_digits_value_grows(s.drop_last(), i);
    } else {
        assert(s.take(i) =~= s);
    }
}

/// Reads a port number as `u16::from_str` does.
pub fn parse_port(s: &str) -> (r: Option<u16>)
    ensures
        r == parse_u16_of(s@),
{
    let v = chars_of(s);
    let start: usize = if v.len() > 0 && v[0] == '+' { 1 } else { 0 };
    let ghost digits = v@.skip(start as int);
    assert(digits =~= (if v@.len() > 0 && v@[0] == '+' { v@.drop_first() } else { v@ }));
    if start >= v.len() {
        return None;
    }
    let mut value: u32 = 0;
    let mut i = start;
    while i < v.len()
        invariant
            start <= i <= v.len(),
            v@ == s@,
            digits == (if s@.len() > 0 && s@[0] == '+' { s@.drop_first() } else { s@ }),
            digits == v@.skip(start as int),
            start <= 1,
            start < v.len(),
            all_digits(digits.take(i - start)),
            value == digits_value(digits.take(i - start)),
            value <= u16::MAX,
        decreases v.len() - i,
    {
        let c = v[i];
        let ghost k = (i - start) as int;
        assert(digits.take(k + 1).drop_last() =~= digits.take(k));
        assert(digits[k] == c);
        if c < '0' || c > '9' {
            assert(!all_digits(digits)) by {
                assert(digits[k] == c);
            }
            return None;
        }
        let d = (c as u32) - ('0' as u32);
        let next = value * 10 + d;
        assert(digits.take(k + 1).last() == c);
        assert(digits_value(digits.take(k + 1)) == next);
        assert(all_digits(digits.take(k + 1))) by {
            assert forall|j: int| 0 <= j < k + 1 implies '0' <= #[trigger] digits.take(k + 1)[j] <= '9' by {
                if j < k {
                    assert(digits.take(k + 1)[j] == digits.take(k)[j]);
                }
            }
        }
        if next > 65535 {
            proof {
                let rest = digits.skip(k + 1);
                if all_digits(digits) {
                    lemma_digits_value_grows(digits, k + 1);
                }
            }
            return None;
        }
        value = next;
        i = i + 1;
    }
    assert(digits.take(v.len() - start) =~= digits);
    Some(value as u16)
}

/// Whether a static port can be chosen: a number above 1024.
pub fn port_is_valid(s: &str) -> (r: bool)
    ensures
        r == (parse_u16_of(s@) matches Some(p) && p > 1024),
{
    match parse_port(s) {
        Some(p) => p > 1024,
        None => false,
    }
}

/// How an entry shows whether what was typed is valid.
#[derive(Debug)]
pub struct EntryValidation {
    /// The last state shown, if any since the entry was applied.
    pub prev: Option<bool>,
}

/// What an entry shows after a change.
#[derive(Debug, Clone, Copy, PartialEq, Eq, Structural)]
pub enum ValidationMark {
    /// Mark it valid and offer to apply it.
    Valid,
    /// Mark it invalid and hide the apply button.
    Invalid,
    /// Leave it as it is: it was valid already.
    Unchanged,
}

impl EntryValidation {
    /// Records whether the entry's text is valid; a valid text is marked
    /// only when it was not valid before, so the mark changes once.
    pub fn on_changed(&mut self, is_valid: bool) -> (r: ValidationMark)
        ensures
            r == if !is_valid {
                ValidationMark::Invalid
            } else if old(self).prev == Some(true) {
                ValidationMark::Unchanged
            } else {
                ValidationMark::Valid
            },
            final(self).prev == Some(is_valid),
    {
        if is_valid {
            let was_invalid_or_unknown = match self.prev {
                None => true,
                Some(p) => !p,
            };
            if was_invalid_or_unknown {
                self.prev = Some(true);
                ValidationMark::Valid
            } else {
                ValidationMark::Unchanged
            }
        } else {
            self.prev = Some(false);
            ValidationMark::Invalid
        }
    }

    /// Forgets the last state when the entry is applied.
    pub fn on_apply(&mut self)
        ensures
            final(self).prev is None,
    {
        self.prev = None;
    }
}

/// What applying a new device name does.
#[derive(Debug, Clone, Copy, PartialEq, Eq, Structural)]
pub enum RenameOutcome {
    /// The name is the one in use: nothing happens.
    Unchanged,
    /// Save the name, restart the service, and restart discovery if it ran.
    Renamed { restart_discovery: bool },
    /// A file is being sent: put the old name back and say why.
    Refused,
}

/// What applying `entered` as the device name does, when `current` is in
/// use.
pub fn rename_device(current: &str, entered: &str, no_file_being_sent: bool, discovery_on: bool) -> (r: RenameOutcome)
    ensures
        r == if current@ == entered@ {
            RenameOutcome::Unchanged
        } else if no_file_being_sent {
            RenameOutcome::Renamed { restart_discovery: discovery_on }
        } else {
            RenameOutcome::Refused
        },
{
    if same_text(current, entered) {
        RenameOutcome::Unchanged
    } else if no_file_being_sent {
        RenameOutcome::Renamed { restart_discovery: discovery_on }
    } else {
        RenameOutcome::Refused
    }
}

/// What applying a static port does.
#[derive(Debug, Clone, Copy, PartialEq, Eq, Structural)]
pub enum PortOutcome {
    /// Save the port and restart the service on it.
    Apply,
    /// The service already uses it: nothing happens.
    AlreadyInUse,
    /// Put the saved port back and say the port is taken.
    Unavailable,
}

/// What applying `port` as the static port does, given whether it is free
/// and the port the service uses.
pub fn apply_static_port(port: u16, available: bool, service_port: Option<u32>) -> (r: PortOutcome)
    ensures
        r == if available {
            PortOutcome::Apply
        } else if service_port == Some(port as u32) {
            PortOutcome::AlreadyInUse
        } else {
            PortOutcome::Unavailable
        },
{
    if available {
        PortOutcome::Apply
    } else if service_port == Some(port as u32) {
        PortOutcome::AlreadyInUse
    } else {
        PortOutcome::Unavailable
    }
}

/// Whether turning the static port on restarts the service: it is on and
/// the saved port is not the one in use.
pub fn static_port_toggle_restarts(enabled: bool, saved_port: i32, service_port: Option<u32>) -> (r: bool)
    ensures
        r == (enabled && Some(saved_port as u32) != service_port),
{
    enabled && Some(saved_port as u32) != service_port
}

/// How the service is started.
#[derive(Debug)]
pub struct RqsConfig {
    pub visible: bool,
    pub static_port: Option<u32>,
    pub download_path: String,
    pub device_name: String,
}

/// How the service is started from the saved settings: the static port
/// only when it is turned on.
pub fn rqs_config(visible: bool, static_port_enabled: bool, static_port: i32, download_path: String, device_name: String) -> (r: RqsConfig)
    ensures
        r.visible == visible,
        r.static_port == if static_port_enabled {
            Some(static_port as u32)
        } else {
            None
        },
        r.download_path == download_path,
        r.device_name == device_name,
{
    RqsConfig {
        visible,
        static_port: if static_port_enabled {
            Some(static_port as u32)
        } else {
            None
        },
        download_path,
        device_name,
    }
}

/// Whether the user is told that a background permission was refused: it
/// was asked for and not granted.
pub fn background_refused(requested: bool, granted: Option<bool>) -> (r: bool)
    ensures
        r == (requested && !(granted == Some(true))),
{
    let g = match granted {
        Some(g) => g,
        None => false,
    };
    requested && !g
}

/// A file the user added, with what the file system says of it.
#[derive(Debug)]
pub struct AddedFile {
    /// The file's name as the user sees it, which identifies it.
    pub name: String,
    pub is_regular: bool,
    pub size: i64,
}

/// Whether an added file is kept: a regular, non-empty file not listed yet.
pub open spec fn keeps_file(existing: Seq<Seq<char>>, f: AddedFile) -> bool {
    f.is_regular && f.size != 0 && !existing.contains(f.name@)
}

/// The added files that are kept, in order: regular, non-empty and not
/// already listed. Empty files are dropped because the service expects data.
pub fn filter_added_files(existing: &Vec<String>, files: Vec<AddedFile>) -> (r: Vec<AddedFile>)
    ensures
        r@ == files@.filter(|f: AddedFile| keeps_file(existing@.map_values(|s: String| s@), f)),
{
    let ghost names = existing@.map_values(|s: String| s@);
    let ghost pred = |f: AddedFile| keeps_file(names, f);
    let ghost src = files@;
    let mut rest = files;
    let mut kept: Vec<AddedFile> = Vec::new();
    let mut i: usize = 0;
    let n = rest.len();
    assert(src.skip(0) =~= src);
    assert(src.take(0) =~= Seq::<AddedFile>::empty());
    while rest.len() > 0
        invariant
            i + rest.len() == src.len(),
            src.len() == n,
            rest@ == src.skip(i as int),
            kept@ == src.take(i as int).filter(pred),
            pred == (|f: AddedFile| keeps_file(names, f)),
            names == existing@.map_values(|s: String| s@),
        decreases rest.len(),
    {
        let f = rest.remove(0);
        proof {
            assert(f == src[i as int]);
            assert(src.take(i + 1).drop_last() =~= src.take(i as int));
            assert(src.skip(i + 1) =~= rest@);
            reveal_with_fuel(Seq::filter, 1);
        }
        let mut listed = false;
        let mut j: usize = 0;
        while j < existing.len()
            invariant
                j <= existing.len(),
                names == existing@.map_values(|s: String| s@),
                listed == exists|k: int| 0 <= k < j && names[k] == f.name@,
            decreases existing.len() - j,
        {
            assert(names[j as int] == existing@[j as int]@);
            if same_text(existing[j].as_str(), f.name.as_str()) {
                listed = true;
            }
            j = j + 1;
        }
        assert(listed == names.contains(f.name@));
        if f.is_regular && f.size != 0 && !listed {
            kept.push(f);
        }
        i = i + 1;
    }
    assert(src.take(n as int) =~= src);
    kept
}

/// What adding files does.
#[derive(Debug, Clone, Copy, PartialEq, Eq, Structural)]
pub enum AddFilesOutcome {
    /// None could be opened: say so.
    NoneOpened,
    /// Append them; the header counts `total` files; go to the files page
    /// when elsewhere.
    Added { total: usize, go_to_files_page: bool },
}

/// What adding `added` files to the `listed` ones does, given whether the
/// files page is the one shown (`None` when no page is).
pub fn handle_added_files_to_send(added: usize, listed: usize, on_files_page: Option<bool>) -> (r: AddFilesOutcome)
    requires
        added + listed <= usize::MAX,
    ensures
        r == if added == 0 {
            AddFilesOutcome::NoneOpened
        } else {
            AddFilesOutcome::Added {
                total: (added + listed) as usize,
                go_to_files_page: on_files_page == Some(false),
            }
        },
{
    if added == 0 {
        AddFilesOutcome::NoneOpened
    } else {
        AddFilesOutcome::Added {
            total: added + listed,
            go_to_files_page: match on_files_page {
                Some(on) => !on,
                None => false,
            },
        }
    }
}

proof fn lemma_filter_subset(s: Seq<DataTransferObject>, pred: spec_fn(DataTransferObject) -> bool, k: int)
    requires
        0 <= k < s.filter(pred).len(),
    ensures
        exists|j: int| 0 <= j < s.len() && s[j] == s.filter(pred)[k],
    decreases s.len(),
{
    reveal_with_fuel(Seq::filter, 1);
    let n = s.len() - 1;
    if k < s.drop_last().filter(pred).len() {
        lemma_filter_subset(s.drop_last(), pred, k);
        let j = choose|j: int| 0 <= j < s.drop_last().len() && s.drop_last()[j] == s.drop_last().filter(pred)[k];
        assert(s[j] == s.filter(pred)[k]);
    } else {
        assert(s[n] == s.filter(pred)[k]);
    }
}

proof fn lemma_filter_keeps_unique(s: Seq<DataTransferObject>, pred: spec_fn(DataTransferObject) -> bool)
    requires
        unique_ids(s),
    ensures
        unique_ids(s.filter(pred)),
    decreases s.len(),
{
    reveal_with_fuel(Seq::filter, 1);
    if s.len() > 0 {
        let d = s.drop_last();
        assert(unique_ids(d)) by {
            assert forall|a: int, b: int| 0 <= a < d.len() && 0 <= b < d.len() && a != b implies d[a].endpoint_info.0.id@ != d[b].endpoint_info.0.id@ by {
                assert(d[a] == s[a] && d[b] == s[b]);
            }
        }
        lemma_filter_keeps_unique(d, pred);
        let f = s.filter(pred);
        let fd = d.filter(pred);
        if pred(s.last()) {
            assert(f == fd.push(s.last()));
            assert forall|a: int, b: int| 0 <= a < f.len() && 0 <= b < f.len() && a != b implies f[a].endpoint_info.0.id@ != f[b].endpoint_info.0.id@ by {
                if a < fd.len() && b < fd.len() {
                    assert(f[a] == fd[a] && f[b] == fd[b]);
                } else if a < fd.len() {
                    lemma_filter_subset(d, pred, a);
                    let j = choose|j: int| 0 <= j < d.len() && d[j] == fd[a];
                    assert(s[j] == f[a]);
                    assert(f[b] == s[s.len() - 1]);
                } else {
                    lemma_filter_subset(d, pred, b);
                    let j = choose|j: int| 0 <= j < d.len() && d[j] == fd[b];
                    assert(s[j] == f[b]);
                    assert(f[a] == s[s.len() - 1]);
                }
            }
        } else {
            assert(f == fd);
        }
    }
}

} // verus!
