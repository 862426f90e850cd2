//! A scan session: the decisions of a run that scans every Bluetooth adapter
//! for ten seconds, then visits each peripheral found: connects to it when it
//! is not connected, discovers and reports its services, and disconnects from
//! it when it is connected.
//!
//! The session does no I/O. Its driver performs each action that a step
//! returns, prints the step's log lines, and hands the outcome back as the next
//! event, until the action is `Finish` or `Abort`.

use vstd::prelude::*;
use vstd::string::StringExecFns;

verus! {

/// Where a session stands: which outcome it waits for.
#[derive(Clone, Copy, Debug, PartialEq, Eq, Structural)]
pub enum ScanPhase {
    AwaitManager,
    AwaitAdapters,
    AwaitAdapterInfo,
    AwaitScanStart,
    AwaitSleep,
    AwaitPeripherals,
    AwaitProperties,
    AwaitFirstState,
    AwaitConnect,
    AwaitSecondState,
    AwaitDiscovery,
    AwaitServiceReport,
    AwaitDisconnect,
    Finished,
}

/// The outcome of the last action, handed to the session by its driver.
#[derive(Debug)]
pub enum ScanEvent {
    /// The Bluetooth manager was created.
    ManagerReady,
    /// The manager lists this many adapters.
    AdaptersFound(usize),
    /// The description of the current adapter.
    AdapterInfo(String),
    /// Scanning started on the current adapter.
    ScanStarted,
    /// Scanning could not start on the current adapter.
    ScanStartFailed,
    /// The scan time has passed.
    Slept,
    /// The current adapter lists this many peripherals.
    PeripheralsFound(usize),
    /// The properties of the current peripheral, if it has any; of them, its local name.
    Properties(Option<Option<String>>),
    /// Whether the current peripheral is connected.
    Connected(bool),
    /// Connecting to the current peripheral succeeded.
    ConnectDone,
    /// Connecting to the current peripheral failed, with this error text.
    ConnectFailed(String),
    /// The services of the current peripheral were discovered.
    ServicesDiscovered,
    /// The services of the current peripheral were reported.
    ServicesReported,
    /// Disconnecting from the current peripheral succeeded.
    DisconnectDone,
    /// Disconnecting from the current peripheral failed.
    DisconnectFailed,
    /// The awaited call failed with this error text.
    Failed(String),
}

/// Why a session gives up in a way that its run treats as a fatal fault.
#[derive(Clone, Copy, Debug, PartialEq, Eq, Structural)]
pub enum ScanFault {
    /// Scanning could not start on an adapter.
    ScanStart,
    /// A peripheral has no properties.
    MissingProperties,
    /// Disconnecting from a peripheral failed.
    Disconnect,
}

/// What the driver is to do next. Adapters and peripherals are named by their position in the
/// lists that the driver reported.
#[derive(Debug, PartialEq)]
pub enum ScanAction {
    CreateManager,
    ListAdapters,
    QueryAdapterInfo { adapter: usize },
    StartScan { adapter: usize },
    Wait { seconds: u64 },
    ListPeripherals { adapter: usize },
    QueryProperties { adapter: usize, peripheral: usize },
    QueryConnection { adapter: usize, peripheral: usize },
    Connect { adapter: usize, peripheral: usize },
    DiscoverServices { adapter: usize, peripheral: usize },
    ReportServices { adapter: usize, peripheral: usize },
    Disconnect { adapter: usize, peripheral: usize },
    /// The run is over, successfully or with the error of a failed call.
    Finish(Result<(), String>),
    /// The run is over with a fatal fault.
    Abort(ScanFault),
}

/// A line that the driver is to print before it performs the action.
#[derive(Debug, PartialEq)]
pub enum ScanLog {
    /// No adapter was found.
    NoAdapters,
    /// Scanning starts on the adapter so described.
    StartingScan(String),
    /// The current adapter found no peripheral.
    NoPeripherals,
    /// The named peripheral was found, connected or not.
    PeripheralState { name: String, connected: bool },
    /// Connecting to the named peripheral.
    Connecting(String),
    /// Connecting failed with this error text; the peripheral is skipped.
    ConnectError(String),
    /// The named peripheral is now connected or not.
    NowConnected { connected: bool, name: String },
    /// Discovering the services of the named peripheral.
    DiscoveringServices(String),
    /// Disconnecting from the named peripheral.
    Disconnecting(String),
}

/// What one step returns: lines to print, then an action.
pub struct ScanStep {
    pub logs: Vec<ScanLog>,
    pub action: ScanAction,
}

/// The state of a session.
pub struct ScanSession {
    pub phase: ScanPhase,
    /// Number of adapters, once listed.
    pub adapters: usize,
    /// Position of the current adapter.
    pub adapter: usize,
    /// Number of peripherals of the current adapter, once listed.
    pub peripherals: usize,
    /// Position of the current peripheral.
    pub peripheral: usize,
    /// The properties of the current peripheral, once queried: present or not, and of them the
    /// local name.
    pub properties: Option<Option<String>>,
    /// The name under which the current peripheral is reported.
    pub name: String,
    /// The name reported for a peripheral without a local name.
    pub unnamed: String,
    /// Whether the current peripheral was last reported connected.
    pub connected: bool,
}

/// The name reported for a peripheral that advertises no local name.
pub open spec fn unnamed_text() -> Seq<char> {
    "(peripheral name unknown)"@
}

/// How long each adapter scans, in seconds.
pub open spec fn scan_seconds() -> u64 {
    10
}

impl ScanSession {
    /// The phases in which a current adapter exists.
    pub open spec fn at_adapter(&self) -> bool {
        match self.phase {
            ScanPhase::AwaitManager | ScanPhase::AwaitAdapters | ScanPhase::Finished => false,
            _ => true,
        }
    }

    /// The phases in which a current peripheral exists.
    pub open spec fn at_peripheral(&self) -> bool {
        match self.phase {
            ScanPhase::AwaitProperties | ScanPhase::AwaitFirstState | ScanPhase::AwaitConnect
            | ScanPhase::AwaitSecondState | ScanPhase::AwaitDiscovery
            | ScanPhase::AwaitServiceReport | ScanPhase::AwaitDisconnect => true,
            _ => false,
        }
    }

    /// Well-formedness: the current adapter and peripheral are within the listed counts.
    pub open spec fn inv(&self) -> bool {
        &&& self.unnamed@ == unnamed_text()
        &&& self.at_adapter() ==> self.adapter < self.adapters
        &&& self.at_peripheral() ==> self.peripheral < self.peripherals
    }

    /// The events that the session can take in its phase.
    pub open spec fn accepts_spec(&self, e: ScanEvent) -> bool {
        match self.phase {
            ScanPhase::AwaitManager => e is ManagerReady || e is Failed,
            ScanPhase::AwaitAdapters => e is AdaptersFound || e is Failed,
            ScanPhase::AwaitAdapterInfo => e is AdapterInfo || e is Failed,
            ScanPhase::AwaitScanStart => e is ScanStarted || e is ScanStartFailed,
            ScanPhase::AwaitSleep => e is Slept,
            ScanPhase::AwaitPeripherals => e is PeripheralsFound || e is Failed,
            ScanPhase::AwaitProperties => e is Properties || e is Failed,
            ScanPhase::AwaitFirstState => e is Connected || e is Failed,
            ScanPhase::AwaitConnect => e is ConnectDone || e is ConnectFailed,
            ScanPhase::AwaitSecondState => e is Connected || e is Failed,
            ScanPhase::AwaitDiscovery => e is ServicesDiscovered || e is Failed,
            ScanPhase::AwaitServiceReport => e is ServicesReported,
            ScanPhase::AwaitDisconnect => e is DisconnectDone || e is DisconnectFailed,
            ScanPhase::Finished => false,
        }
    }
}

/// The state after the last step of a run.
pub open spec fn finished(s: ScanSession) -> ScanSession {
    ScanSession { phase: ScanPhase::Finished, ..s }
}

/// Moving on to the next adapter, or finishing when there is none.
pub open spec fn next_adapter(s: ScanSession) -> (ScanSession, ScanAction) {
    if s.adapter + 1 < s.adapters {
        let a = (s.adapter + 1) as usize;
        (
            ScanSession { phase: ScanPhase::AwaitAdapterInfo, adapter: a, ..s },
            ScanAction::QueryAdapterInfo { adapter: a },
        )
    } else {
        (finished(s), ScanAction::Finish(Ok(())))
    }
}

/// Moving on to the next peripheral of the adapter, or to the next adapter when there is none.
pub open spec fn next_peripheral(s: ScanSession) -> (ScanSession, ScanAction) {
    if s.peripheral + 1 < s.peripherals {
        let p = (s.peripheral + 1) as usize;
        (
            ScanSession { phase: ScanPhase::AwaitProperties, peripheral: p, ..s },
            ScanAction::QueryProperties { adapter: s.adapter, peripheral: p },
        )
    } else {
        next_adapter(s)
    }
}

/// One step of a session: the state after event `e`, the lines to print, and the next action.
pub open spec fn transition(s: ScanSession, e: ScanEvent) -> (ScanSession, Seq<ScanLog>, ScanAction) {
    let a = s.adapter;
    let p = s.peripheral;
    match e {
        ScanEvent::Failed(msg) => (finished(s), Seq::empty(), ScanAction::Finish(Err(msg))),
        ScanEvent::ManagerReady => (
            ScanSession { phase: ScanPhase::AwaitAdapters, ..s },
            Seq::empty(),
            ScanAction::ListAdapters,
        ),
        ScanEvent::AdaptersFound(n) => if n == 0 {
            (
                finished(ScanSession { adapters: 0, adapter: 0, ..s }),
                seq![ScanLog::NoAdapters],
                ScanAction::Finish(Ok(())),
            )
        } else {
            (
                ScanSession { phase: ScanPhase::AwaitAdapterInfo, adapters: n, adapter: 0, ..s },
                Seq::empty(),
                ScanAction::QueryAdapterInfo { adapter: 0 },
            )
        },
        ScanEvent::AdapterInfo(info) => (
            ScanSession { phase: ScanPhase::AwaitScanStart, ..s },
            seq![ScanLog::StartingScan(info)],
            ScanAction::StartScan { adapter: a },
        ),
        ScanEvent::ScanStarted => (
            ScanSession { phase: ScanPhase::AwaitSleep, ..s },
            Seq::empty(),
            ScanAction::Wait { seconds: scan_seconds() },
        ),
        ScanEvent::ScanStartFailed => (
            finished(s),
            Seq::empty(),
            ScanAction::Abort(ScanFault::ScanStart),
        ),
        ScanEvent::Slept => (
            ScanSession { phase: ScanPhase::AwaitPeripherals, ..s },
            Seq::empty(),
            ScanAction::ListPeripherals { adapter: a },
        ),
        ScanEvent::PeripheralsFound(m) => if m == 0 {
            let (t, act) = next_adapter(ScanSession { peripherals: 0, peripheral: 0, ..s });
            (t, seq![ScanLog::NoPeripherals], act)
        } else {
            (
                ScanSession {
                    phase: ScanPhase::AwaitProperties,
                    peripherals: m,
                    peripheral: 0,
                    ..s
                },
                Seq::empty(),
                ScanAction::QueryProperties { adapter: a, peripheral: 0 },
            )
        },
        ScanEvent::Properties(props) => (
            ScanSession { phase: ScanPhase::AwaitFirstState, properties: props, ..s },
            Seq::empty(),
            ScanAction::QueryConnection { adapter: a, peripheral: p },
        ),
        ScanEvent::Connected(c) => if s.phase == ScanPhase::AwaitFirstState {
            match s.properties {
                None => (finished(s), Seq::empty(), ScanAction::Abort(ScanFault::MissingProperties)),
                Some(local) => {
                    let name = match local {
                        Some(n) => n,
                        None => s.unnamed,
                    };
                    if c {
                        (
                            ScanSession {
                                phase: ScanPhase::AwaitSecondState,
                                name: name,
                                connected: c,
                                ..s
                            },
                            seq![ScanLog::PeripheralState { name: name, connected: c }],
                            ScanAction::QueryConnection { adapter: a, peripheral: p },
                        )
                    } else {
                        (
                            ScanSession {
                                phase: ScanPhase::AwaitConnect,
                                name: name,
                                connected: c,
                                ..s
                            },
                            seq![
                                ScanLog::PeripheralState { name: name, connected: c },
                                ScanLog::Connecting(name),
                            ],
                            ScanAction::Connect { adapter: a, peripheral: p },
                        )
                    }
                },
            }
        } else {
            (
                ScanSession { phase: ScanPhase::AwaitDiscovery, connected: c, ..s },
                seq![ScanLog::NowConnected { connected: c, name: s.name }],
                ScanAction::DiscoverServices { adapter: a, peripheral: p },
            )
        },
        ScanEvent::ConnectDone => (
            ScanSession { phase: ScanPhase::AwaitSecondState, ..s },
            Seq::empty(),
            ScanAction::QueryConnection { adapter: a, peripheral: p },
        ),
        ScanEvent::ConnectFailed(err) => {
            let (t, act) = next_peripheral(s);
            (t, seq![ScanLog::ConnectError(err)], act)
        },
        ScanEvent::ServicesDiscovered => (
            ScanSession { phase: ScanPhase::AwaitServiceReport, ..s },
            seq![ScanLog::DiscoveringServices(s.name)],
            ScanAction::ReportServices { adapter: a, peripheral: p },
        ),
        ScanEvent::ServicesReported => if s.connected {
            (
                ScanSession { phase: ScanPhase::AwaitDisconnect, ..s },
                seq![ScanLog::Disconnecting(s.name)],
                ScanAction::Disconnect { adapter: a, peripheral: p },
            )
        } else {
            let (t, act) = next_peripheral(s);
            (t, Seq::empty(), act)
        },
        ScanEvent::DisconnectDone => {
            let (t, act) = next_peripheral(s);
            (t, Seq::empty(), act)
        },
        ScanEvent::DisconnectFailed => (
            finished(s),
            Seq::empty(),
            ScanAction::Abort(ScanFault::Disconnect),
        ),
    }
}

impl ScanSession {
    /// A new session and its first action: creating the Bluetooth manager.
    pub fn start() -> (res: (ScanSession, ScanAction))
        ensures
            res.0.inv(),
            res.0.phase == ScanPhase::AwaitManager,
            res.0.adapters == 0 && res.0.adapter == 0,
            res.0.peripherals == 0 && res.0.peripheral == 0,
            res.0.properties is None,
            res.0.name@ == Seq::<char>::empty(),
            !res.0.connected,
            res.1 == ScanAction::CreateManager,
    {
        let session = ScanSession {
            phase: ScanPhase::AwaitManager,
            adapters: 0,
            adapter: 0,
            peripherals: 0,
            peripheral: 0,
            properties: None,
            name: String::new(),
            unnamed: String::from_str("(peripheral name unknown)"),
            connected: false,
        };
        (session, ScanAction::CreateManager)
    }

    /// Whether the session can take the event in its phase.
    pub fn accepts(&self, e: &ScanEvent) -> (b: bool)
        ensures
            b == self.accepts_spec(*e),
    {
        match self.phase {
            ScanPhase::AwaitManager => matches!(e, ScanEvent::ManagerReady | ScanEvent::Failed(_)),
            ScanPhase::AwaitAdapters => matches!(
                e,
                ScanEvent::AdaptersFound(_) | ScanEvent::Failed(_)
            ),
            ScanPhase::AwaitAdapterInfo => matches!(
                e,
                ScanEvent::AdapterInfo(_) | ScanEvent::Failed(_)
            ),
            ScanPhase::AwaitScanStart => matches!(
                e,
                ScanEvent::ScanStarted | ScanEvent::ScanStartFailed
            ),
            ScanPhase::AwaitSleep => matches!(e, ScanEvent::Slept),
            ScanPhase::AwaitPeripherals => matches!(
                e,
                ScanEvent::PeripheralsFound(_) | ScanEvent::Failed(_)
            ),
            ScanPhase::AwaitProperties => matches!(
                e,
                ScanEvent::Properties(_) | ScanEvent::Failed(_)
            ),
            ScanPhase::AwaitFirstState => matches!(
                e,
                ScanEvent::Connected(_) | ScanEvent::Failed(_)
            ),
            ScanPhase::AwaitConnect => matches!(
                e,
                ScanEvent::ConnectDone | ScanEvent::ConnectFailed(_)
            ),
            ScanPhase::AwaitSecondState => matches!(
                e,
                ScanEvent::Connected(_) | ScanEvent::Failed(_)
            ),
            ScanPhase::AwaitDiscovery => matches!(
                e,
                ScanEvent::ServicesDiscovered | ScanEvent::Failed(_)
            ),
            ScanPhase::AwaitServiceReport => matches!(e, ScanEvent::ServicesReported),
            ScanPhase::AwaitDisconnect => matches!(
                e,
                ScanEvent::DisconnectDone | ScanEvent::DisconnectFailed
            ),
            ScanPhase::Finished => false,
        }
    }

    fn advance_adapter(&mut self) -> (act: ScanAction)
        requires
            old(self).adapter < old(self).adapters,
        ensures
            (*final(self), act) == next_adapter(*old(self)),
    {
        if self.adapter + 1 < self.adapters {
            self.adapter = self.adapter + 1;
            self.phase = ScanPhase::AwaitAdapterInfo;
            ScanAction::QueryAdapterInfo { adapter: self.adapter }
        } else {
            self.phase = ScanPhase::Finished;
            ScanAction::Finish(Ok(()))
        }
    }

    fn advance_peripheral(&mut self) -> (act: ScanAction)
        requires
            old(self).adapter < old(self).adapters,
            old(self).peripheral < old(self).peripherals,
        ensures
            (*final(self), act) == next_peripheral(*old(self)),
    {
        if self.peripheral + 1 < self.peripherals {
            self.peripheral = self.peripheral + 1;
            self.phase = ScanPhase::AwaitProperties;
            ScanAction::QueryProperties { adapter: self.adapter, peripheral: self.peripheral }
        } else {
            self.advance_adapter()
        }
    }

    /// Takes the outcome of the last action and decides what comes next.
    pub fn step(&mut self, e: ScanEvent) -> (out: ScanStep)
        requires
            old(self).inv(),
            old(self).accepts_spec(e),
        ensures
            (*final(self), out.logs@, out.action) == transition(*old(self), e),
            final(self).inv(),
    {
        let a = self.adapter;
        let p = self.peripheral;
        let mut logs: Vec<ScanLog> = Vec::new();
        let action = match e {
            ScanEvent::Failed(msg) => {
                self.phase = ScanPhase::Finished;
                ScanAction::Finish(Err(msg))
            },
            ScanEvent::ManagerReady => {
                self.phase = ScanPhase::AwaitAdapters;
                ScanAction::ListAdapters
            },
            ScanEvent::AdaptersFound(n) => {
                self.adapters = n;
                self.adapter = 0;
                if n == 0 {
                    logs.push(ScanLog::NoAdapters);
                    self.phase = ScanPhase::Finished;
                    ScanAction::Finish(Ok(()))
                } else {
                    self.phase = ScanPhase::AwaitAdapterInfo;
                    ScanAction::QueryAdapterInfo { adapter: 0 }
                }
            },
            ScanEvent::AdapterInfo(info) => {
                logs.push(ScanLog::StartingScan(info));
                self.phase = ScanPhase::AwaitScanStart;
                ScanAction::StartScan { adapter: a }
            },
            ScanEvent::ScanStarted => {
                self.phase = ScanPhase::AwaitSleep;
                ScanAction::Wait { seconds: 10 }
            },
            ScanEvent::ScanStartFailed => {
                self.phase = ScanPhase::Finished;
                ScanAction::Abort(ScanFault::ScanStart)
            },
            ScanEvent::Slept => {
                self.phase = ScanPhase::AwaitPeripherals;
                ScanAction::ListPeripherals { adapter: a }
            },
            ScanEvent::PeripheralsFound(m) => {
                self.peripherals = m;
                self.peripheral = 0;
                if m == 0 {
                    logs.push(ScanLog::NoPeripherals);
                    self.advance_adapter()
                } else {
                    self.phase = ScanPhase::AwaitProperties;
                    ScanAction::QueryProperties { adapter: a, peripheral: 0 }
                }
            },
            ScanEvent::Properties(props) => {
                self.properties = props;
                self.phase = ScanPhase::AwaitFirstState;
                ScanAction::QueryConnection { adapter: a, peripheral: p }
            },
            ScanEvent::Connected(c) => {
                if self.phase == ScanPhase::AwaitFirstState {
                    match &self.properties {
                        None => {
                            self.phase = ScanPhase::Finished;
                            ScanAction::Abort(ScanFault::MissingProperties)
                        },
                        Some(local) => {
                            let name = match local {
                                Some(n) => n.clone(),
                                None => self.unnamed.clone(),
                            };
                            logs.push(
                                ScanLog::PeripheralState { name: name.clone(), connected: c },
                            );
                            self.connected = c;
                            if c {
                                self.name = name;
                                self.phase = ScanPhase::AwaitSecondState;
                                ScanAction::QueryConnection { adapter: a, peripheral: p }
                            } else {
                                logs.push(ScanLog::Connecting(name.clone()));
                                self.name = name;
                                self.phase = ScanPhase::AwaitConnect;
                                ScanAction::Connect { adapter: a, peripheral: p }
                            }
                        },
                    }
                } else {
                    self.connected = c;
                    logs.push(ScanLog::NowConnected { connected: c, name: self.name.clone() });
                    self.phase = ScanPhase::AwaitDiscovery;
                    ScanAction::DiscoverServices { adapter: a, peripheral: p }
                }
            },
            ScanEvent::ConnectDone => {
                self.phase = ScanPhase::AwaitSecondState;
                ScanAction::QueryConnection { adapter: a, peripheral: p }
            },
            ScanEvent::ConnectFailed(err) => {
                logs.push(ScanLog::ConnectError(err));
                self.advance_peripheral()
            },
            ScanEvent::ServicesDiscovered => {
                logs.push(ScanLog::DiscoveringServices(self.name.clone()));
                self.phase = ScanPhase::AwaitServiceReport;
                ScanAction::ReportServices { adapter: a, peripheral: p }
            },
            ScanEvent::ServicesReported => {
                if self.connected {
                    logs.push(ScanLog::Disconnecting(self.name.clone()));
                    self.phase = ScanPhase::AwaitDisconnect;
                    ScanAction::Disconnect { adapter: a, peripheral: p }
                } else {
                    self.advance_peripheral()
                }
            },
            ScanEvent::DisconnectDone => self.advance_peripheral(),
            ScanEvent::DisconnectFailed => {
                self.phase = ScanPhase::Finished;
                ScanAction::Abort(ScanFault::Disconnect)
            },
        };
        assert(logs@ =~= transition(*old(self), e).1);
        ScanStep { logs, action }
    }
}

/// How much of a run is left, read lexicographically: the start-up stage, the adapters left,
/// the steps left at the current adapter, the peripherals left, the steps left at the current
/// peripheral.
pub open spec fn rank(s: ScanSession) -> (int, int, int, int, int) {
    let stage = match s.phase {
        ScanPhase::AwaitManager => 2int,
        ScanPhase::AwaitAdapters => 1int,
        _ => 0int,
    };
    let adapters_left = if s.at_adapter() {
        s.adapters - s.adapter
    } else {
        0int
    };
    let adapter_steps = match s.phase {
        ScanPhase::AwaitAdapterInfo => 4int,
        ScanPhase::AwaitScanStart => 3int,
        ScanPhase::AwaitSleep => 2int,
        ScanPhase::AwaitPeripherals => 1int,
        _ => 0int,
    };
    let peripherals_left = if s.at_peripheral() {
        s.peripherals - s.peripheral
    } else {
        0int
    };
    let peripheral_steps = match s.phase {
        ScanPhase::AwaitProperties => 7int,
        ScanPhase::AwaitFirstState => 6int,
        ScanPhase::AwaitConnect => 5int,
        ScanPhase::AwaitSecondState => 4int,
        ScanPhase::AwaitDiscovery => 3int,
        ScanPhase::AwaitServiceReport => 2int,
        ScanPhase::AwaitDisconnect => 1int,
        _ => 0int,
    };
    (stage, adapters_left, adapter_steps, peripherals_left, peripheral_steps)
}

/// Lexicographic order on ranks.
pub open spec fn rank_below(x: (int, int, int, int, int), y: (int, int, int, int, int)) -> bool {
    ||| x.0 < y.0
    ||| x.0 == y.0 && x.1 < y.1
    ||| x.0 == y.0 && x.1 == y.1 && x.2 < y.2
    ||| x.0 == y.0 && x.1 == y.1 && x.2 == y.2 && x.3 < y.3
    ||| x.0 == y.0 && x.1 == y.1 && x.2 == y.2 && x.3 == y.3 && x.4 < y.4
}

/// Every run ends: each step keeps the session well-formed and strictly lowers its rank, a
/// tuple of natural numbers ordered lexicographically, and a finished session takes no event.
pub proof fn law_session_terminates(s: ScanSession, e: ScanEvent)
    requires
        s.inv(),
        s.accepts_spec(e),
    ensures
        transition(s, e).0.inv(),
        rank_below(rank(transition(s, e).0), rank(s)),
        rank(s).0 >= 0 && rank(s).1 >= 0 && rank(s).2 >= 0 && rank(s).3 >= 0 && rank(s).4 >= 0,
        s.phase != ScanPhase::Finished,
        transition(s, e).0.phase == ScanPhase::Finished ==> forall|next: ScanEvent|
            !transition(s, e).0.accepts_spec(next),
{
}

/// The adapter and peripheral that an action names are within the counts that the driver
/// reported: the driver never looks past the end of its lists.
pub proof fn law_actions_in_range(s: ScanSession, e: ScanEvent)
    requires
        s.inv(),
        s.accepts_spec(e),
    ensures
        ({
            let (t, _, act) = transition(s, e);
            match act {
                ScanAction::QueryAdapterInfo { adapter }
                | ScanAction::StartScan { adapter }
                | ScanAction::ListPeripherals { adapter } => adapter < t.adapters,
                ScanAction::QueryProperties { adapter, peripheral }
                | ScanAction::QueryConnection { adapter, peripheral }
                | ScanAction::Connect { adapter, peripheral }
                | ScanAction::DiscoverServices { adapter, peripheral }
                | ScanAction::ReportServices { adapter, peripheral }
                | ScanAction::Disconnect { adapter, peripheral } => adapter < t.adapters
                    && peripheral < t.peripherals,
                _ => true,
            }
        }),
{
}

/// A session connects to a peripheral only right after the peripheral was reported not
/// connected, and only to that peripheral.
pub proof fn law_connect_only_when_disconnected(s: ScanSession, e: ScanEvent)
    requires
        s.inv(),
        s.accepts_spec(e),
        transition(s, e).2 is Connect,
    ensures
        s.phase == ScanPhase::AwaitFirstState,
        e == ScanEvent::Connected(false),
        transition(s, e).2 == (ScanAction::Connect { adapter: s.adapter, peripheral: s.peripheral }),
{
}

/// A session disconnects from a peripheral only once its services were reported, and only
/// when the peripheral was last reported connected; that report is the one made after the
/// connection attempt.
pub proof fn law_disconnect_only_when_connected(s: ScanSession, e: ScanEvent)
    requires
        s.inv(),
        s.accepts_spec(e),
    ensures
        transition(s, e).2 is Disconnect ==> s.phase == ScanPhase::AwaitServiceReport
            && s.connected && transition(s, e).2 == (ScanAction::Disconnect {
            adapter: s.adapter,
            peripheral: s.peripheral,
        }),
        s.phase == ScanPhase::AwaitSecondState ==> (e matches ScanEvent::Connected(c) ==> transition(
            s,
            e,
        ).0.connected == c),
        s.phase == ScanPhase::AwaitDiscovery ==> transition(s, e).0.connected == s.connected,
{
}

/// A failed call ends the run with its error, and nothing is printed for it.
pub proof fn law_failure_finishes(s: ScanSession, msg: String)
    requires
        s.inv(),
        s.accepts_spec(ScanEvent::Failed(msg)),
    ensures
        transition(s, ScanEvent::Failed(msg)).0.phase == ScanPhase::Finished,
        transition(s, ScanEvent::Failed(msg)).1.len() == 0,
        transition(s, ScanEvent::Failed(msg)).2 == ScanAction::Finish(Err(msg)),
{
}

/// Each adapter scans for ten seconds before its peripherals are listed: a session lists the
/// peripherals of an adapter only right after the wait that follows the start of its scan.
pub proof fn law_scan_waits_before_listing(s: ScanSession, e: ScanEvent)
    requires
        s.inv(),
        s.accepts_spec(e),
    ensures
        transition(s, e).2 is ListPeripherals ==> s.phase == ScanPhase::AwaitSleep && e
            is Slept,
        transition(s, e).2 is Wait ==> s.phase == ScanPhase::AwaitScanStart && e is ScanStarted
            && transition(s, e).2 == (ScanAction::Wait { seconds: scan_seconds() }),
        scan_seconds() == 10,
{
}

/// Where a run goes when it is done with the current peripheral: to the next peripheral of
/// the adapter, else to the next adapter, else it finishes successfully.
pub open spec fn moves_on(s: ScanSession, act: ScanAction) -> bool {
    if s.peripheral + 1 < s.peripherals {
        act == (ScanAction::QueryProperties {
            adapter: s.adapter,
            peripheral: (s.peripheral + 1) as usize,
        })
    } else if s.adapter + 1 < s.adapters {
        act == (ScanAction::QueryAdapterInfo { adapter: (s.adapter + 1) as usize })
    } else {
        act == ScanAction::Finish(Ok(()))
    }
}

/// The action that follows each outcome. Adapters are walked in order, each started, waited
/// for and listed in turn; each peripheral of an adapter is queried, connected when found
/// disconnected, queried again, has its services discovered and reported, and is
/// disconnected when connected; every call on an adapter or a peripheral is made on the
/// current one.
pub proof fn law_step_actions(s: ScanSession, e: ScanEvent)
    requires
        s.inv(),
        s.accepts_spec(e),
    ensures
        ({
            let act = transition(s, e).2;
            let cur_a = s.adapter;
            let cur_p = s.peripheral;
            &&& e is ManagerReady ==> act == ScanAction::ListAdapters
            &&& e == ScanEvent::AdaptersFound(0) ==> act == ScanAction::Finish(Ok(()))
            &&& (e matches ScanEvent::AdaptersFound(n) && n > 0) ==> act
                == (ScanAction::QueryAdapterInfo { adapter: 0 })
            &&& e is AdapterInfo ==> act == (ScanAction::StartScan { adapter: cur_a })
            &&& e is ScanStarted ==> act == (ScanAction::Wait { seconds: 10 })
            &&& e is ScanStartFailed ==> act == ScanAction::Abort(ScanFault::ScanStart)
            &&& e is Slept ==> act == (ScanAction::ListPeripherals { adapter: cur_a })
            &&& (e matches ScanEvent::PeripheralsFound(m) && m > 0) ==> act
                == (ScanAction::QueryProperties { adapter: cur_a, peripheral: 0 })
            &&& e == ScanEvent::PeripheralsFound(0) ==> (if cur_a + 1 < s.adapters {
                act == (ScanAction::QueryAdapterInfo { adapter: (cur_a + 1) as usize })
            } else {
                act == ScanAction::Finish(Ok(()))
            })
            &&& e is Properties ==> act == (ScanAction::QueryConnection {
                adapter: cur_a,
                peripheral: cur_p,
            })
            &&& (s.phase == ScanPhase::AwaitFirstState && e is Connected && s.properties is None)
                ==> act == ScanAction::Abort(ScanFault::MissingProperties)
            &&& (s.phase == ScanPhase::AwaitFirstState && e == ScanEvent::Connected(true)
                && s.properties is Some) ==> act == (ScanAction::QueryConnection {
                adapter: cur_a,
                peripheral: cur_p,
            })
            &&& (s.phase == ScanPhase::AwaitFirstState && e == ScanEvent::Connected(false)
                && s.properties is Some) ==> act == (ScanAction::Connect {
                adapter: cur_a,
                peripheral: cur_p,
            })
            &&& e is ConnectDone ==> act == (ScanAction::QueryConnection {
                adapter: cur_a,
                peripheral: cur_p,
            })
            &&& (s.phase == ScanPhase::AwaitSecondState && e is Connected) ==> act
                == (ScanAction::DiscoverServices { adapter: cur_a, peripheral: cur_p })
            &&& e is ServicesDiscovered ==> act == (ScanAction::ReportServices {
                adapter: cur_a,
                peripheral: cur_p,
            })
            &&& (e is ServicesReported && s.connected) ==> act == (ScanAction::Disconnect {
                adapter: cur_a,
                peripheral: cur_p,
            })
            &&& (e is ServicesReported && !s.connected) ==> moves_on(s, act)
            &&& e is ConnectFailed ==> moves_on(s, act)
            &&& e is DisconnectDone ==> moves_on(s, act)
            &&& e is DisconnectFailed ==> act == ScanAction::Abort(ScanFault::Disconnect)
        }),
{
}

/// After each step the session's current adapter and peripheral are the ones that the action
/// names.
pub proof fn law_state_follows_action(s: ScanSession, e: ScanEvent)
    requires
        s.inv(),
        s.accepts_spec(e),
    ensures
        ({
            let (t, _, act) = transition(s, e);
            match act {
                ScanAction::QueryAdapterInfo { adapter }
                | ScanAction::StartScan { adapter }
                | ScanAction::ListPeripherals { adapter } => t.adapter == adapter,
                ScanAction::QueryProperties { adapter, peripheral }
                | ScanAction::QueryConnection { adapter, peripheral }
                | ScanAction::Connect { adapter, peripheral }
                | ScanAction::DiscoverServices { adapter, peripheral }
                | ScanAction::ReportServices { adapter, peripheral }
                | ScanAction::Disconnect { adapter, peripheral } => t.adapter == adapter
                    && t.peripheral == peripheral,
                ScanAction::Finish(_) | ScanAction::Abort(_) => t.phase == ScanPhase::Finished,
                _ => true,
            }
        }),
{
}

/// The lines printed at each step: the adapter's description before its scan, a note when
/// no adapter or no peripheral is found, the peripheral's name (its local name, else
/// "(peripheral name unknown)") with its connection state, the connect attempt, the error of
/// a failed connection, the state after it, the service discovery and the disconnection.
pub proof fn law_step_logs(s: ScanSession, e: ScanEvent)
    requires
        s.inv(),
        s.accepts_spec(e),
    ensures
        ({
            let (t, logs, _) = transition(s, e);
            &&& (e matches ScanEvent::AdapterInfo(info) ==> logs == seq![ScanLog::StartingScan(info)])
            &&& e == ScanEvent::AdaptersFound(0) ==> logs == seq![ScanLog::NoAdapters]
            &&& e == ScanEvent::PeripheralsFound(0) ==> logs == seq![ScanLog::NoPeripherals]
            &&& (e matches ScanEvent::ConnectFailed(err) ==> logs == seq![
                ScanLog::ConnectError(err),
            ])
            &&& s.phase == ScanPhase::AwaitFirstState ==> (s.properties matches Some(local) ==> (
            e matches ScanEvent::Connected(c) ==> {
                &&& (local matches Some(n) ==> t.name == n)
                &&& (local is None ==> t.name@ == "(peripheral name unknown)"@)
                &&& logs[0] == (ScanLog::PeripheralState { name: t.name, connected: c })
                &&& c ==> logs.len() == 1
                &&& !c ==> logs.len() == 2 && logs[1] == ScanLog::Connecting(t.name)
            }))
            &&& s.phase == ScanPhase::AwaitSecondState ==> (e matches ScanEvent::Connected(c)
                ==> logs == seq![ScanLog::NowConnected { connected: c, name: s.name }])
            &&& e is ServicesDiscovered ==> logs == seq![ScanLog::DiscoveringServices(s.name)]
            &&& (e is ServicesReported && s.connected) ==> logs == seq![
                ScanLog::Disconnecting(s.name),
            ]
            &&& (e is ManagerReady || e is ScanStarted || e is ScanStartFailed || e is Slept
                || e is Properties || e is ConnectDone || e is DisconnectDone
                || e is DisconnectFailed || e is Failed || (e is ServicesReported
                && !s.connected) || (e matches ScanEvent::AdaptersFound(n) && n > 0) || (
            e matches ScanEvent::PeripheralsFound(m) && m > 0)) ==> logs.len() == 0
        }),
{
}

} // verus!
