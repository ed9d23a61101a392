//! Bring-up of the wireless link: scan, configure, start, associate, and wait
//! for an address, under one overall time budget.
//!
//! The radio is not touched here. [`LinkManager::step`] takes what the
//! wireless adapter reported and says what it has to do next; the caller
//! performs that action and reports again, until the action is
//! [`LinkAction::Stop`].

use vstd::prelude::*;

verus! {

/// The time budget for everything between starting the interface and holding
/// an address, in the time unit of [`LinkStatus::elapsed`].
pub const TIMEOUT_BUDGET: u32 = 20;

/// The name and passphrase of the network to join.
#[derive(Debug, PartialEq, Eq)]
pub struct Credentials {
    pub ssid: String,
    pub passphrase: String,
}

/// An access point seen in a scan.
#[derive(Debug, PartialEq, Eq)]
pub struct AccessPoint {
    pub ssid: String,
    pub channel: u8,
}

/// An IPv4 address, first octet first.
#[derive(Clone, Copy, Debug, PartialEq, Eq, Structural)]
pub struct Ipv4Address(pub u8, pub u8, pub u8, pub u8);

impl Ipv4Address {
    /// Whether this is `0.0.0.0`, which no interface holds once it has been
    /// given an address.
    pub open spec fn spec_is_unspecified(self) -> bool {
        self.0 == 0 && self.1 == 0 && self.2 == 0 && self.3 == 0
    }

    /// Whether this is `0.0.0.0`.
    pub fn is_unspecified(self) -> (r: bool)
        ensures
            r == self.spec_is_unspecified(),
    {
        self.0 == 0 && self.1 == 0 && self.2 == 0 && self.3 == 0
    }
}

/// What address assignment hands to an interface.
#[derive(Clone, Copy, Debug, PartialEq, Eq, Structural)]
pub struct IpInfo {
    pub address: Ipv4Address,
    pub gateway: Ipv4Address,
    /// The number of leading one bits of the subnet mask.
    pub mask: u8,
}

/// Why a bring-up attempt failed.
#[derive(Clone, Copy, Debug, PartialEq, Eq, Structural)]
pub enum ConnectivityError {
    /// The interface could not be brought to scan: the hardware is not usable.
    ScanFailed,
    /// The adapter refused the configuration, the start or the association,
    /// or reported something that does not fit the step it was asked to do.
    ConfigRejected,
    /// The link was still in transition when the time budget ran out.
    Timeout,
    /// The link is associated but the adapter cannot tell its address.
    AddressUnavailable,
}

/// Where a bring-up attempt stands.
#[derive(Clone, Copy, Debug, PartialEq, Eq, Structural)]
pub enum LinkState {
    Idle,
    Scanning,
    Configuring,
    Starting,
    Connecting,
    Connected(IpInfo),
    Failed(ConnectivityError),
}

/// What the adapter reports of the link while it starts and associates.
#[derive(Clone, Copy, Debug, PartialEq, Eq, Structural)]
pub struct LinkStatus {
    /// The interface has started.
    pub started: bool,
    /// The interface is associated with the access point.
    pub associated: bool,
    /// The address of the interface, or `None` if the adapter failed to tell.
    pub address: Option<IpInfo>,
    /// Time since the interface was asked to start.
    pub elapsed: u32,
}

/// What happened since the last action.
#[derive(Debug, PartialEq, Eq)]
pub enum LinkEvent {
    /// The caller asks for a bring-up attempt.
    Begin,
    /// The scan found these access points.
    ScanDone(Vec<AccessPoint>),
    /// The adapter accepted the configuration.
    Applied,
    /// The adapter failed to do what it was asked.
    Refused,
    /// The adapter did what it was asked and reports the link's status.
    Status(LinkStatus),
}

/// What the caller has to do next.
#[derive(Clone, Copy, Debug, PartialEq, Eq, Structural)]
pub enum LinkAction {
    /// Scan for access points and report `ScanDone` or `Refused`.
    Scan,
    /// Configure the interface for the target network, on this channel if one
    /// is given, and report `Applied` or `Refused`.
    Configure { channel: Option<u8> },
    /// Start the interface and report `Status` or `Refused`.
    Start,
    /// Ask the interface to associate and report `Status` or `Refused`.
    Connect,
    /// Wait a moment and report `Status` or `Refused`.
    Poll,
    /// Nothing: the attempt has ended.
    Stop,
}

/// What a successful bring-up hands to the caller.
#[derive(Clone, Copy, Debug, PartialEq, Eq, Structural)]
pub struct LinkHandle {
    pub ip_info: IpInfo,
    /// The channel the target network was seen on, if the scan saw it.
    pub channel: Option<u8>,
}

impl LinkState {
    /// Whether the attempt has ended.
    pub open spec fn spec_is_terminal(self) -> bool {
        self is Connected || self is Failed
    }

    /// Whether the attempt has ended.
    pub fn is_terminal(self) -> (r: bool)
        ensures
            r == self.spec_is_terminal(),
    {
        match self {
            LinkState::Connected(_) => true,
            LinkState::Failed(_) => true,
            _ => false,
        }
    }

    /// How far along the way from `Idle` to the end a state is.
    pub open spec fn rank(self) -> nat {
        match self {
            LinkState::Idle => 0,
            LinkState::Scanning => 1,
            LinkState::Configuring => 2,
            LinkState::Starting => 3,
            LinkState::Connecting => 4,
            LinkState::Connected(_) => 5,
            LinkState::Failed(_) => 5,
        }
    }
}

/// The channel of the first access point named `ssid`, if there is one.
pub open spec fn spec_find_channel(found: Seq<AccessPoint>, ssid: Seq<char>) -> Option<u8>
    decreases found.len(),
{
    if found.len() == 0 {
        None
    } else if found[0].ssid@ == ssid {
        Some(found[0].channel)
    } else {
        spec_find_channel(found.skip(1), ssid)
    }
}

/// The state a bring-up fails into when the adapter reports something that
/// does not answer the action it was given.
pub open spec fn spec_unexpected() -> (LinkState, LinkAction) {
    (LinkState::Failed(ConnectivityError::ConfigRejected), LinkAction::Stop)
}

/// The step while the interface starts: go on to associate once it has
/// started, give up when the budget is spent, else wait.
pub open spec fn spec_step_starting(status: LinkStatus) -> (LinkState, LinkAction) {
    if status.started {
        (LinkState::Connecting, LinkAction::Connect)
    } else if status.elapsed >= TIMEOUT_BUDGET {
        (LinkState::Failed(ConnectivityError::Timeout), LinkAction::Stop)
    } else {
        (LinkState::Starting, LinkAction::Poll)
    }
}

/// Whether a status shows the link up: associated, with an address that is
/// not `0.0.0.0`.
pub open spec fn spec_is_up(status: LinkStatus) -> bool {
    &&& status.associated
    &&& status.address matches Some(info)
    &&& !info.address.spec_is_unspecified()
}

/// The step while the interface associates: done once it is associated and
/// holds an address other than `0.0.0.0`; failed at once if it is associated
/// and its address cannot be told; else give up when the budget is spent, or
/// wait.
pub open spec fn spec_step_connecting(status: LinkStatus) -> (LinkState, LinkAction) {
    if spec_is_up(status) {
        (LinkState::Connected(status.address->Some_0), LinkAction::Stop)
    } else if status.associated && status.address is None {
        (LinkState::Failed(ConnectivityError::AddressUnavailable), LinkAction::Stop)
    } else if status.elapsed >= TIMEOUT_BUDGET {
        (LinkState::Failed(ConnectivityError::Timeout), LinkAction::Stop)
    } else {
        (LinkState::Connecting, LinkAction::Poll)
    }
}

/// The state machine: the next state and the next action, from the state, the
/// name of the target network and what the adapter reported.
pub open spec fn spec_step(state: LinkState, ssid: Seq<char>, event: LinkEvent) -> (
    LinkState,
    LinkAction,
) {
    match state {
        LinkState::Idle => match event {
            LinkEvent::Begin => (LinkState::Scanning, LinkAction::Scan),
            _ => spec_unexpected(),
        },
        LinkState::Scanning => match event {
            LinkEvent::ScanDone(found) => (
                LinkState::Configuring,
                LinkAction::Configure { channel: spec_find_channel(found@, ssid) },
            ),
            LinkEvent::Refused => (
                LinkState::Failed(ConnectivityError::ScanFailed),
                LinkAction::Stop,
            ),
            _ => spec_unexpected(),
        },
        LinkState::Configuring => match event {
            LinkEvent::Applied => (LinkState::Starting, LinkAction::Start),
            _ => spec_unexpected(),
        },
        LinkState::Starting => match event {
            LinkEvent::Status(status) => spec_step_starting(status),
            _ => spec_unexpected(),
        },
        LinkState::Connecting => match event {
            LinkEvent::Status(status) => spec_step_connecting(status),
            _ => spec_unexpected(),
        },
        LinkState::Connected(_) => (state, LinkAction::Stop),
        LinkState::Failed(_) => (state, LinkAction::Stop),
    }
}

/// The channel of the first access point named `ssid`, if there is one.
pub fn find_channel(found: &Vec<AccessPoint>, ssid: &String) -> (r: Option<u8>)
    ensures
        r == spec_find_channel(found@, ssid@),
{
    let mut i: usize = 0;
    assert(found@.skip(0) =~= found@);
    while i < found.len()
        invariant
            i <= found@.len(),
            spec_find_channel(found@, ssid@) == spec_find_channel(found@.skip(i as int), ssid@),
        decreases found@.len() - i,
    {
        assert(found@.skip(i as int)[0] == found@[i as int]);
        assert(found@.skip(i as int).skip(1) =~= found@.skip(i as int + 1));
        if found[i].ssid == *ssid {
            return Some(found[i].channel);
        }
        i = i + 1;
    }
    None
}

/// The bring-up state machine of one wireless interface.
pub struct LinkManager {
    credentials: Credentials,
    state: LinkState,
    channel: Option<u8>,
}

impl LinkManager {
    /// The state of the attempt.
    pub closed spec fn spec_state(&self) -> LinkState {
        self.state
    }

    /// The name of the network to join.
    pub closed spec fn spec_ssid(&self) -> Seq<char> {
        self.credentials.ssid@
    }

    /// The passphrase of the network to join.
    pub closed spec fn spec_passphrase(&self) -> Seq<char> {
        self.credentials.passphrase@
    }

    /// The channel captured from the scan of this attempt.
    pub closed spec fn spec_channel(&self) -> Option<u8> {
        self.channel
    }

    /// A manager for the given network, in `Idle`.
    pub fn new(credentials: Credentials) -> (r: LinkManager)
        ensures
            r.spec_state() == LinkState::Idle,
            r.spec_ssid() == credentials.ssid@,
            r.spec_passphrase() == credentials.passphrase@,
            r.spec_channel() == None::<u8>,
    {
        LinkManager { credentials, state: LinkState::Idle, channel: None }
    }

    /// The state of the attempt.
    pub fn state(&self) -> (r: LinkState)
        ensures
            r == self.spec_state(),
    {
        self.state
    }

    /// The network to join.
    pub fn credentials(&self) -> (r: &Credentials)
        ensures
            r.ssid@ == self.spec_ssid(),
            r.passphrase@ == self.spec_passphrase(),
    {
        &self.credentials
    }

    /// The channel captured from the scan of this attempt.
    pub fn channel(&self) -> (r: Option<u8>)
        ensures
            r == self.spec_channel(),
    {
        self.channel
    }

    /// Takes what the adapter reported and says what it has to do next. The
    /// channel found by a scan is kept for the rest of the attempt, whose
    /// target never changes.
    pub fn step(&mut self, event: LinkEvent) -> (action: LinkAction)
        ensures
            (final(self).spec_state(), action) == spec_step(
                old(self).spec_state(),
                old(self).spec_ssid(),
                event,
            ),
            final(self).spec_ssid() == old(self).spec_ssid(),
            final(self).spec_passphrase() == old(self).spec_passphrase(),
            final(self).spec_channel() == match action {
                LinkAction::Configure { channel } => channel,
                _ => old(self).spec_channel(),
            },
    {
        let (next, action) = match self.state {
            LinkState::Idle => match event {
                LinkEvent::Begin => (LinkState::Scanning, LinkAction::Scan),
                _ => (LinkState::Failed(ConnectivityError::ConfigRejected), LinkAction::Stop),
            },
            LinkState::Scanning => match event {
                LinkEvent::ScanDone(found) => {
                    let channel = find_channel(&found, &self.credentials.ssid);
                    self.channel = channel;
                    (LinkState::Configuring, LinkAction::Configure { channel })
                },
                LinkEvent::Refused => (
                    LinkState::Failed(ConnectivityError::ScanFailed),
                    LinkAction::Stop,
                ),
                _ => (LinkState::Failed(ConnectivityError::ConfigRejected), LinkAction::Stop),
            },
            LinkState::Configuring => match event {
                LinkEvent::Applied => (LinkState::Starting, LinkAction::Start),
                _ => (LinkState::Failed(ConnectivityError::ConfigRejected), LinkAction::Stop),
            },
            LinkState::Starting => match event {
                LinkEvent::Status(status) => step_starting(status),
                _ => (LinkState::Failed(ConnectivityError::ConfigRejected), LinkAction::Stop),
            },
            LinkState::Connecting => match event {
                LinkEvent::Status(status) => step_connecting(status),
                _ => (LinkState::Failed(ConnectivityError::ConfigRejected), LinkAction::Stop),
            },
            LinkState::Connected(info) => (LinkState::Connected(info), LinkAction::Stop),
            LinkState::Failed(reason) => (LinkState::Failed(reason), LinkAction::Stop),
        };
        self.state = next;
        action
    }

    /// How the attempt ended, once it has: the handle of the link, or the
    /// reason of the failure.
    pub fn outcome(&self) -> (r: Option<Result<LinkHandle, ConnectivityError>>)
        ensures
            r == match self.spec_state() {
                LinkState::Connected(info) => Some(
                    Ok::<LinkHandle, ConnectivityError>(
                        LinkHandle { ip_info: info, channel: self.spec_channel() },
                    ),
                ),
                LinkState::Failed(reason) => Some(Err::<LinkHandle, ConnectivityError>(reason)),
                _ => None,
            },
    {
        match self.state {
            LinkState::Connected(info) => Some(
                Ok(LinkHandle { ip_info: info, channel: self.channel }),
            ),
            LinkState::Failed(reason) => Some(Err(reason)),
            _ => None,
        }
    }

    /// Puts the manager back to `Idle` for another attempt and forgets the
    /// channel of the last one.
    pub fn reset(&mut self)
        ensures
            final(self).spec_state() == LinkState::Idle,
            final(self).spec_channel() == None::<u8>,
            final(self).spec_ssid() == old(self).spec_ssid(),
            final(self).spec_passphrase() == old(self).spec_passphrase(),
    {
        self.state = LinkState::Idle;
        self.channel = None;
    }
}

/// The step while the interface starts.
pub fn step_starting(status: LinkStatus) -> (r: (LinkState, LinkAction))
    ensures
        r == spec_step_starting(status),
{
    if status.started {
        (LinkState::Connecting, LinkAction::Connect)
    } else if status.elapsed >= TIMEOUT_BUDGET {
        (LinkState::Failed(ConnectivityError::Timeout), LinkAction::Stop)
    } else {
        (LinkState::Starting, LinkAction::Poll)
    }
}

/// The step while the interface associates.
pub fn step_connecting(status: LinkStatus) -> (r: (LinkState, LinkAction))
    ensures
        r == spec_step_connecting(status),
{
    if status.associated {
        match status.address {
            None => {
                return (
                    LinkState::Failed(ConnectivityError::AddressUnavailable),
                    LinkAction::Stop,
                );
            },
            Some(info) => {
                if !info.address.is_unspecified() {
                    return (LinkState::Connected(info), LinkAction::Stop);
                }
            },
        }
    }
    if status.elapsed >= TIMEOUT_BUDGET {
        (LinkState::Failed(ConnectivityError::Timeout), LinkAction::Stop)
    } else {
        (LinkState::Connecting, LinkAction::Poll)
    }
}

/// A scan that saw the target network gives its channel: the first access
/// point with the target's name decides, and none with that name means no
/// channel.
pub proof fn lemma_find_channel(found: Seq<AccessPoint>, ssid: Seq<char>)
    ensures
        match spec_find_channel(found, ssid) {
            Some(channel) => exists|i: int|
                0 <= i < found.len() && #[trigger] found[i].ssid@ == ssid && found[i].channel
                    == channel && forall|j: int| 0 <= j < i ==> #[trigger] found[j].ssid@ != ssid,
            None => forall|i: int| 0 <= i < found.len() ==> #[trigger] found[i].ssid@ != ssid,
        },
    decreases found.len(),
{
    if found.len() == 0 {
    } else if found[0].ssid@ == ssid {
        assert(found[0].ssid@ == ssid && found[0].channel == found[0].channel);
    } else {
        let rest = found.skip(1);
        lemma_find_channel(rest, ssid);
        assert(forall|i: int| 0 <= i < rest.len() ==> rest[i] == found[i + 1]);
        match spec_find_channel(rest, ssid) {
            Some(channel) => {
                let i = choose|i: int|
                    0 <= i < rest.len() && #[trigger] rest[i].ssid@ == ssid && rest[i].channel
                        == channel && forall|j: int|
                        0 <= j < i ==> #[trigger] rest[j].ssid@ != ssid;
                assert(found[i + 1].ssid@ == ssid);
                assert forall|j: int| 0 <= j < i + 1 implies #[trigger] found[j].ssid@ != ssid by {
                    if j > 0 {
                        assert(rest[j - 1].ssid@ != ssid);
                    }
                }
            },
            None => {
                assert forall|i: int| 0 <= i < found.len() implies #[trigger] found[i].ssid@
                    != ssid by {
                    if i > 0 {
                        assert(rest[i - 1].ssid@ != ssid);
                    }
                }
            },
        }
    }
}

/// An attempt that has ended stays as it is: no report moves it, and the
/// action is `Stop`.
pub proof fn lemma_terminal_is_final(state: LinkState, ssid: Seq<char>, event: LinkEvent)
    requires
        state.spec_is_terminal(),
    ensures
        spec_step(state, ssid, event) == (state, LinkAction::Stop),
{
}

/// No step goes back: the next state is as far along as the state before,
/// and an action other than `Poll` and `Stop` means it is further along.
/// `Stop` is the action exactly when the next state is an end.
pub proof fn lemma_step_advances(state: LinkState, ssid: Seq<char>, event: LinkEvent)
    ensures
        spec_step(state, ssid, event).0.rank() >= state.rank(),
        spec_step(state, ssid, event).1 != LinkAction::Poll && spec_step(state, ssid, event).1
            != LinkAction::Stop ==> spec_step(state, ssid, event).0.rank() > state.rank(),
        spec_step(state, ssid, event).1 == LinkAction::Stop <==> spec_step(
            state,
            ssid,
            event,
        ).0.spec_is_terminal(),
{
}

/// Waiting is bounded: the machine asks to poll only while the budget is not
/// spent, and then stays where it is.
pub proof fn lemma_poll_within_budget(state: LinkState, ssid: Seq<char>, event: LinkEvent)
    requires
        spec_step(state, ssid, event).1 == LinkAction::Poll,
    ensures
        event is Status,
        event->Status_0.elapsed < TIMEOUT_BUDGET,
        state == LinkState::Starting || state == LinkState::Connecting,
        spec_step(state, ssid, event).0 == state,
{
}

/// Once the budget is spent, two status reports end the attempt whatever
/// they say: the first may still move it from `Starting` to `Connecting`,
/// the second finds it up or fails it.
pub proof fn lemma_budget_bounds_waiting(
    state: LinkState,
    ssid: Seq<char>,
    first: LinkStatus,
    second: LinkStatus,
)
    requires
        state == LinkState::Starting || state == LinkState::Connecting,
        first.elapsed >= TIMEOUT_BUDGET,
        second.elapsed >= TIMEOUT_BUDGET,
    ensures
        spec_step(
            spec_step(state, ssid, LinkEvent::Status(first)).0,
            ssid,
            LinkEvent::Status(second),
        ).0.spec_is_terminal(),
{
}

/// `Connected` is entered only from `Connecting`, on a status that shows the
/// interface associated with an address other than `0.0.0.0`, and it holds
/// that address.
pub proof fn lemma_connected_has_address(state: LinkState, ssid: Seq<char>, event: LinkEvent)
    requires
        !(state is Connected),
        spec_step(state, ssid, event).0 is Connected,
    ensures
        state == LinkState::Connecting,
        event is Status,
        event->Status_0.associated,
        event->Status_0.address == Some(spec_step(state, ssid, event).0->Connected_0),
        !spec_step(state, ssid, event).0->Connected_0.address.spec_is_unspecified(),
{
}

/// A status that is still in transition when the budget is spent ends the
/// attempt with `Timeout`.
pub proof fn lemma_timeout(state: LinkState, ssid: Seq<char>, status: LinkStatus)
    requires
        state == LinkState::Starting || state == LinkState::Connecting,
        status.elapsed >= TIMEOUT_BUDGET,
        !status.started,
        !status.associated,
    ensures
        spec_step(state, ssid, LinkEvent::Status(status)) == (
            LinkState::Failed(ConnectivityError::Timeout),
            LinkAction::Stop,
        ),
{
}

} // verus!
