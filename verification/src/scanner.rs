//! The sweep of the local /24 for attendance terminals: which addresses to
//! try, which ports to probe on each and in what order, what a reachable
//! host is recorded as, and how many hosts may be probed at once.
//!
//! Opening sockets and waiting for them is the caller's part. The caller asks
//! a `HostProbe` what to do next, does it, and reports the outcome; it asks a
//! `ScanPlan` which host to start next and hands in each probing that is
//! over.

use vstd::prelude::*;
use vstd::string::*;
use crate::identify::{DeviceInfo, DeviceInfoView};
use crate::text::{
    decimal, decimal_digits, lemma_decimal_injective, lemma_position_found, lemma_position_of,
    position_of,
};

verus! {

/// The port the device protocol is served on.
pub const PRIMARY_PORT: u16 = 4370;

/// The port some devices serve the protocol on instead.
pub const SECONDARY_PORT: u16 = 4360;

/// The first of the two ports probed only to complete the record.
pub const WEB_PORT: u16 = 80;

/// The second of the two ports probed only to complete the record.
pub const WEB_ALT_PORT: u16 = 8080;

/// Milliseconds allowed for each of the two probes that decide whether a
/// host is a candidate.
pub const PRIMARY_TIMEOUT_MS: u64 = 300;

/// Milliseconds allowed for each probe that only completes the record.
pub const AUXILIARY_TIMEOUT_MS: u64 = 200;

/// How many hosts are probed at the same time, at most.
pub const MAX_CONCURRENT: usize = 100;

/// The lowest host suffix that is tried.
pub const FIRST_HOST: u8 = 1;

/// The highest host suffix that is tried.
pub const LAST_HOST: u8 = 254;

/// Dotted-quad notation of an IPv4 address.
pub open spec fn address_text(a: u8, b: u8, c: u8, d: u8) -> Seq<char> {
    decimal_digits(a as nat) + "."@ + decimal_digits(b as nat) + "."@ + decimal_digits(c as nat)
        + "."@ + decimal_digits(d as nat)
}

/// Writes an IPv4 address in dotted-quad notation.
pub fn format_address(a: u8, b: u8, c: u8, d: u8) -> (text: String)
    ensures
        text@ == address_text(a, b, c, d),
{
    let mut text = decimal(a as u64);
    text.append(".");
    text.append(decimal(b as u64).as_str());
    text.append(".");
    text.append(decimal(c as u64).as_str());
    text.append(".");
    text.append(decimal(d as u64).as_str());
    text
}

/// The addresses to try from a machine whose own address is `local`: the
/// hosts 1 to 254 of the /24 that contains it, in ascending order. The
/// machine's own address is among them.
pub fn scan_targets(local: [u8; 4]) -> (targets: Vec<String>)
    ensures
        targets@.len() == 254,
        forall|i: int|
            0 <= i < 254 ==> (#[trigger] targets@[i])@ == address_text(
                local[0],
                local[1],
                local[2],
                (i + 1) as u8,
            ),
{
    let mut targets: Vec<String> = Vec::new();
    let mut host: u8 = FIRST_HOST;
    while host <= LAST_HOST
        invariant
            FIRST_HOST <= host <= LAST_HOST + 1,
            targets@.len() == host - 1,
            forall|i: int|
                0 <= i < host - 1 ==> (#[trigger] targets@[i])@ == address_text(
                    local[0],
                    local[1],
                    local[2],
                    (i + 1) as u8,
                ),
        decreases LAST_HOST + 1 - host,
    {
        targets.push(format_address(local[0], local[1], local[2], host));
        host += 1;
    }
    targets
}

/// One terminal found by a sweep.
#[derive(Clone, Debug, PartialEq, Eq)]
pub struct BiometricDevice {
    pub ip: String,
    /// Always `Unknown`: the sweep works on TCP and sees no link-layer
    /// address.
    pub mac: String,
    /// The ports found open, the protocol port that answered first.
    pub open_ports: Vec<u16>,
    pub device_name: Option<String>,
    pub firmware_version: Option<String>,
    pub serial_number: Option<String>,
}

/// A `BiometricDevice` with its texts as sequences of characters.
pub struct DeviceView {
    pub ip: Seq<char>,
    pub mac: Seq<char>,
    pub open_ports: Seq<u16>,
    pub device_name: Option<Seq<char>>,
    pub firmware_version: Option<Seq<char>>,
    pub serial_number: Option<Seq<char>>,
}

/// The view of an optional text.
pub open spec fn text_view(text: Option<String>) -> Option<Seq<char>> {
    match text {
        Some(t) => Some(t@),
        None => None,
    }
}

impl View for BiometricDevice {
    type V = DeviceView;

    open spec fn view(&self) -> DeviceView {
        DeviceView {
            ip: self.ip@,
            mac: self.mac@,
            open_ports: self.open_ports@,
            device_name: text_view(self.device_name),
            firmware_version: text_view(self.firmware_version),
            serial_number: text_view(self.serial_number),
        }
    }
}

/// A text that may be missing: an empty one counts as absent.
pub open spec fn present(text: Seq<char>) -> Option<Seq<char>> {
    if text.len() == 0 {
        None
    } else {
        Some(text)
    }
}

/// The record of the host at `ip` with the given open ports and what the
/// identification brought, if it brought anything.
pub open spec fn device_of(ip: Seq<char>, open_ports: Seq<u16>, info: Option<DeviceInfoView>)
    -> DeviceView {
    DeviceView {
        ip,
        mac: "Unknown"@,
        open_ports,
        device_name: match info {
            Some(i) => present(i.device_name),
            None => None,
        },
        firmware_version: match info {
            Some(i) => present(i.firmware_version),
            None => None,
        },
        serial_number: match info {
            Some(i) => present(i.serial_number),
            None => None,
        },
    }
}

/// The view of an optional identification.
pub open spec fn info_view(info: Option<DeviceInfo>) -> Option<DeviceInfoView> {
    match info {
        Some(i) => Some(i@),
        None => None,
    }
}

fn non_empty(text: String) -> (r: Option<String>)
    ensures
        text_view(r) == present(text@),
{
    if text.as_str().unicode_len() == 0 {
        None
    } else {
        Some(text)
    }
}

impl BiometricDevice {
    /// Makes the record of a reachable host. Identification fields that are
    /// empty, or all of them where there was no identification, are absent.
    pub fn new(ip: String, open_ports: Vec<u16>, info: Option<DeviceInfo>) -> (device:
        BiometricDevice)
        ensures
            device@ == device_of(ip@, open_ports@, info_view(info)),
    {
        match info {
            Some(i) => BiometricDevice {
                ip,
                mac: String::from_str("Unknown"),
                open_ports,
                device_name: non_empty(i.device_name),
                firmware_version: non_empty(i.firmware_version),
                serial_number: non_empty(i.serial_number),
            },
            None => BiometricDevice {
                ip,
                mac: String::from_str("Unknown"),
                open_ports,
                device_name: None,
                firmware_version: None,
                serial_number: None,
            },
        }
    }
}

/// How far the probing of one host has come.
#[derive(Clone, Copy, Debug, PartialEq, Eq, Structural)]
pub enum ProbeStage {
    /// The primary protocol port is being tried.
    Primary,
    /// The primary port did not answer; the secondary is being tried.
    Secondary,
    /// A protocol port answered; port 80 is being tried.
    Web,
    /// Port 8080 is being tried.
    WebAlt,
    /// The protocol port other than the one that answered is being tried.
    OtherProtocol,
    /// The device is being asked to identify itself.
    Identify,
    /// The host is a candidate, and its record is complete.
    Found,
    /// Neither protocol port answered: the host is no candidate.
    Discarded,
}

/// What the caller is to do next for a host.
#[derive(Clone, Copy, Debug, PartialEq, Eq, Structural)]
pub enum ProbeAction {
    /// Try to open a TCP connection to `port` within `timeout_ms`
    /// milliseconds and report whether it opened.
    Probe { port: u16, timeout_ms: u64 },
    /// Run the quick identification against `port` and report what it
    /// brought.
    Identify { port: u16 },
    /// Nothing: the probing of this host is over.
    Done,
}

/// The protocol port that is not `port`.
pub open spec fn other_protocol_port(port: u16) -> u16 {
    if port == PRIMARY_PORT {
        SECONDARY_PORT
    } else {
        PRIMARY_PORT
    }
}

/// The state of the probing of one host, as plain values.
pub struct HostProbeView {
    pub ip: Seq<char>,
    pub stage: ProbeStage,
    /// The protocol port that answered; meaningful from `Web` on.
    pub main_port: u16,
    pub open_ports: Seq<u16>,
    pub info: Option<DeviceInfoView>,
}

impl HostProbeView {
    /// The probing of `ip` before anything was tried.
    pub open spec fn fresh(ip: Seq<char>) -> HostProbeView {
        HostProbeView {
            ip,
            stage: ProbeStage::Primary,
            main_port: 0,
            open_ports: Seq::empty(),
            info: None,
        }
    }

    /// Until a protocol port has answered no port is on record; from then on
    /// the record starts with that port.
    pub open spec fn wf(self) -> bool {
        match self.stage {
            ProbeStage::Primary | ProbeStage::Secondary | ProbeStage::Discarded => {
                self.open_ports.len() == 0 && self.info is None
            },
            _ => {
                &&& self.main_port == PRIMARY_PORT || self.main_port == SECONDARY_PORT
                &&& self.open_ports.len() >= 1
                &&& self.open_ports[0] == self.main_port
                &&& !(self.stage is Found) ==> self.info is None
            },
        }
    }

    /// What the caller is asked to do in this state.
    pub open spec fn action(self) -> ProbeAction {
        match self.stage {
            ProbeStage::Primary => ProbeAction::Probe {
                port: PRIMARY_PORT,
                timeout_ms: PRIMARY_TIMEOUT_MS,
            },
            ProbeStage::Secondary => ProbeAction::Probe {
                port: SECONDARY_PORT,
                timeout_ms: PRIMARY_TIMEOUT_MS,
            },
            ProbeStage::Web => ProbeAction::Probe {
                port: WEB_PORT,
                timeout_ms: AUXILIARY_TIMEOUT_MS,
            },
            ProbeStage::WebAlt => ProbeAction::Probe {
                port: WEB_ALT_PORT,
                timeout_ms: AUXILIARY_TIMEOUT_MS,
            },
            ProbeStage::OtherProtocol => ProbeAction::Probe {
                port: other_protocol_port(self.main_port),
                timeout_ms: AUXILIARY_TIMEOUT_MS,
            },
            ProbeStage::Identify => ProbeAction::Identify { port: self.main_port },
            ProbeStage::Found | ProbeStage::Discarded => ProbeAction::Done,
        }
    }

    /// The ports on record after an auxiliary probe of `port`.
    pub open spec fn with_port(self, port: u16, open: bool) -> Seq<u16> {
        if open {
            self.open_ports.push(port)
        } else {
            self.open_ports
        }
    }

    /// The state after the probe that was asked for has reported `open`.
    /// Where no probe was asked for, the report changes nothing.
    pub open spec fn after_port(self, open: bool) -> HostProbeView {
        match self.stage {
            ProbeStage::Primary => if open {
                HostProbeView {
                    stage: ProbeStage::Web,
                    main_port: PRIMARY_PORT,
                    open_ports: seq![PRIMARY_PORT],
                    ..self
                }
            } else {
                HostProbeView { stage: ProbeStage::Secondary, ..self }
            },
            ProbeStage::Secondary => if open {
                HostProbeView {
                    stage: ProbeStage::Web,
                    main_port: SECONDARY_PORT,
                    open_ports: seq![SECONDARY_PORT],
                    ..self
                }
            } else {
                HostProbeView { stage: ProbeStage::Discarded, ..self }
            },
            ProbeStage::Web => HostProbeView {
                stage: ProbeStage::WebAlt,
                open_ports: self.with_port(WEB_PORT, open),
                ..self
            },
            ProbeStage::WebAlt => HostProbeView {
                stage: ProbeStage::OtherProtocol,
                open_ports: self.with_port(WEB_ALT_PORT, open),
                ..self
            },
            ProbeStage::OtherProtocol => HostProbeView {
                stage: ProbeStage::Identify,
                open_ports: self.with_port(other_protocol_port(self.main_port), open),
                ..self
            },
            _ => self,
        }
    }

    /// The state after the identification that was asked for has reported
    /// `info`. Where none was asked for, the report changes nothing.
    pub open spec fn after_identity(self, info: Option<DeviceInfoView>) -> HostProbeView {
        if self.stage is Identify {
            HostProbeView { stage: ProbeStage::Found, info, ..self }
        } else {
            self
        }
    }

    /// The record of the host, once it is complete.
    pub open spec fn device(self) -> Option<DeviceView> {
        if self.stage is Found {
            Some(device_of(self.ip, self.open_ports, self.info))
        } else {
            None
        }
    }
}

/// The probing of one host.
#[derive(Debug)]
pub struct HostProbe {
    ip: String,
    stage: ProbeStage,
    main_port: u16,
    open_ports: Vec<u16>,
    info: Option<DeviceInfo>,
}

impl View for HostProbe {
    type V = HostProbeView;

    closed spec fn view(&self) -> HostProbeView {
        HostProbeView {
            ip: self.ip@,
            stage: self.stage,
            main_port: self.main_port,
            open_ports: self.open_ports@,
            info: info_view(self.info),
        }
    }
}

impl HostProbe {
    /// Starts the probing of the host at `ip`.
    pub fn new(ip: String) -> (probe: HostProbe)
        ensures
            probe@ == HostProbeView::fresh(ip@),
    {
        HostProbe {
            ip,
            stage: ProbeStage::Primary,
            main_port: 0,
            open_ports: Vec::new(),
            info: None,
        }
    }

    /// What to do next for this host.
    pub fn next_action(&self) -> (action: ProbeAction)
        ensures
            action == self@.action(),
    {
        match self.stage {
            ProbeStage::Primary => ProbeAction::Probe {
                port: PRIMARY_PORT,
                timeout_ms: PRIMARY_TIMEOUT_MS,
            },
            ProbeStage::Secondary => ProbeAction::Probe {
                port: SECONDARY_PORT,
                timeout_ms: PRIMARY_TIMEOUT_MS,
            },
            ProbeStage::Web => ProbeAction::Probe {
                port: WEB_PORT,
                timeout_ms: AUXILIARY_TIMEOUT_MS,
            },
            ProbeStage::WebAlt => ProbeAction::Probe {
                port: WEB_ALT_PORT,
                timeout_ms: AUXILIARY_TIMEOUT_MS,
            },
            ProbeStage::OtherProtocol => ProbeAction::Probe {
                port: self.other_port(),
                timeout_ms: AUXILIARY_TIMEOUT_MS,
            },
            ProbeStage::Identify => ProbeAction::Identify { port: self.main_port },
            ProbeStage::Found | ProbeStage::Discarded => ProbeAction::Done,
        }
    }

    fn other_port(&self) -> (port: u16)
        ensures
            port == other_protocol_port(self@.main_port),
    {
        if self.main_port == PRIMARY_PORT {
            SECONDARY_PORT
        } else {
            PRIMARY_PORT
        }
    }

    fn found_on(&mut self, port: u16)
        ensures
            final(self)@ == (HostProbeView {
                stage: ProbeStage::Web,
                main_port: port,
                open_ports: seq![port],
                ..old(self)@
            }),
    {
        let mut ports: Vec<u16> = Vec::new();
        ports.push(port);
        self.main_port = port;
        self.open_ports = ports;
        self.stage = ProbeStage::Web;
    }

    fn note_port(&mut self, port: u16, open: bool, next: ProbeStage)
        ensures
            final(self)@ == (HostProbeView {
                stage: next,
                open_ports: old(self)@.with_port(port, open),
                ..old(self)@
            }),
    {
        if open {
            self.open_ports.push(port);
        }
        self.stage = next;
    }

    /// Reports whether the port that was asked for opened.
    pub fn record_port(&mut self, open: bool)
        ensures
            final(self)@ == old(self)@.after_port(open),
    {
        match self.stage {
            ProbeStage::Primary => {
                if open {
                    self.found_on(PRIMARY_PORT);
                } else {
                    self.stage = ProbeStage::Secondary;
                }
            },
            ProbeStage::Secondary => {
                if open {
                    self.found_on(SECONDARY_PORT);
                } else {
                    self.stage = ProbeStage::Discarded;
                }
            },
            ProbeStage::Web => {
                self.note_port(WEB_PORT, open, ProbeStage::WebAlt);
            },
            ProbeStage::WebAlt => {
                self.note_port(WEB_ALT_PORT, open, ProbeStage::OtherProtocol);
            },
            ProbeStage::OtherProtocol => {
                let port = self.other_port();
                self.note_port(port, open, ProbeStage::Identify);
            },
            _ => {},
        }
    }

    /// Reports what the identification that was asked for brought: the
    /// device's answers, or nothing where it could not be carried out.
    pub fn record_identity(&mut self, info: Option<DeviceInfo>)
        ensures
            final(self)@ == old(self)@.after_identity(info_view(info)),
    {
        match self.stage {
            ProbeStage::Identify => {
                self.info = info;
                self.stage = ProbeStage::Found;
            },
            _ => {},
        }
    }

    /// The address of the host.
    pub fn host(&self) -> (ip: &String)
        ensures
            ip@ == self@.ip,
    {
        &self.ip
    }

    /// Whether the probing of this host is over.
    pub fn is_done(&self) -> (done: bool)
        ensures
            done == (self@.action() is Done),
    {
        match self.stage {
            ProbeStage::Found | ProbeStage::Discarded => true,
            _ => false,
        }
    }

    /// The record of the host: present once a protocol port has answered and
    /// the identification has reported, absent for a host that was discarded
    /// or whose probing is not over.
    pub fn into_device(self) -> (device: Option<BiometricDevice>)
        ensures
            match self@.device() {
                Some(d) => device is Some && device->Some_0@ == d,
                None => device is None,
            },
    {
        match self.stage {
            ProbeStage::Found => Some(BiometricDevice::new(self.ip, self.open_ports, self.info)),
            _ => None,
        }
    }
}

/// An admission gate, as plain values: how many units it lets in at a time
/// and how many are in.
pub struct GateView {
    pub ceiling: nat,
    pub in_flight: nat,
}

impl GateView {
    /// Never more units are in than the ceiling allows.
    pub open spec fn wf(self) -> bool {
        self.in_flight <= self.ceiling
    }

    /// Whether one more unit may enter.
    pub open spec fn has_room(self) -> bool {
        self.in_flight < self.ceiling
    }

    /// This gate after a unit asked to enter: it is let in where there is
    /// room, and turned away otherwise.
    pub open spec fn after_acquire(self) -> GateView {
        if self.has_room() {
            GateView { in_flight: self.in_flight + 1, ..self }
        } else {
            self
        }
    }

    /// This gate after a unit left; with nothing in, nothing changes.
    pub open spec fn after_release(self) -> GateView {
        if self.in_flight > 0 {
            GateView { in_flight: (self.in_flight - 1) as nat, ..self }
        } else {
            self
        }
    }
}

/// Counts the units of work in flight and admits no more than a ceiling.
/// Each sweep has a gate of its own.
#[derive(Debug)]
pub struct AdmissionGate {
    ceiling: usize,
    in_flight: usize,
}

impl View for AdmissionGate {
    type V = GateView;

    closed spec fn view(&self) -> GateView {
        GateView { ceiling: self.ceiling as nat, in_flight: self.in_flight as nat }
    }
}

impl AdmissionGate {
    #[verifier::type_invariant]
    closed spec fn inv(self) -> bool {
        self@.wf()
    }

    /// A gate with nothing in flight.
    pub fn new(ceiling: usize) -> (gate: AdmissionGate)
        ensures
            gate@ == (GateView { ceiling: ceiling as nat, in_flight: 0 }),
    {
        AdmissionGate { ceiling, in_flight: 0 }
    }

    /// Asks to let one more unit in, and says whether it was let in.
    pub fn try_acquire(&mut self) -> (admitted: bool)
        ensures
            admitted == old(self)@.has_room(),
            final(self)@ == old(self)@.after_acquire(),
            final(self)@.wf(),
    {
        proof {
            use_type_invariant(&*self);
        }
        if self.in_flight < self.ceiling {
            self.in_flight += 1;
            true
        } else {
            false
        }
    }

    /// Records that a unit has left.
    pub fn release(&mut self)
        ensures
            final(self)@ == old(self)@.after_release(),
            final(self)@.wf(),
    {
        proof {
            use_type_invariant(&*self);
        }
        if self.in_flight > 0 {
            self.in_flight -= 1;
        }
    }

    /// How many units are in.
    pub fn in_flight(&self) -> (n: usize)
        ensures
            n == self@.in_flight,
            n <= self@.ceiling,
    {
        proof {
            use_type_invariant(self);
        }
        self.in_flight
    }

    /// How many units may be in at a time.
    pub fn ceiling(&self) -> (n: usize)
        ensures
            n == self@.ceiling,
    {
        self.ceiling
    }
}

/// The views of a sequence of texts, in the same order.
pub open spec fn text_views(texts: Seq<String>) -> Seq<Seq<char>> {
    texts.map_values(|t: String| t@)
}

/// The views of a sequence of devices, in the same order.
pub open spec fn device_views(devices: Seq<BiometricDevice>) -> Seq<DeviceView> {
    devices.map_values(|d: BiometricDevice| d@)
}

/// How many of the first `n` hosts are not done.
pub open spec fn pending(done: Seq<bool>, n: nat) -> nat
    decreases n,
{
    if n == 0 {
        0
    } else if done[n - 1] {
        pending(done, (n - 1) as nat)
    } else {
        pending(done, (n - 1) as nat) + 1
    }
}

/// The state of a sweep, as plain values.
pub struct ScanPlanView {
    /// The addresses to try, in the order in which they are started.
    pub targets: Seq<Seq<char>>,
    /// How many of them have been started.
    pub started: nat,
    /// For each target, whether its host was reported done.
    pub done: Seq<bool>,
    pub gate: GateView,
    /// The records of the candidates among the hosts that are done, in the
    /// order in which they were reported.
    pub devices: Seq<DeviceView>,
    /// For each record, the position of its host among the targets.
    pub owners: Seq<int>,
}

impl ScanPlanView {
    /// The sweep of `targets` before any host was started.
    pub open spec fn fresh(targets: Seq<Seq<char>>, ceiling: nat) -> ScanPlanView {
        ScanPlanView {
            targets,
            started: 0,
            done: Seq::new(targets.len(), |i: int| false),
            gate: GateView { ceiling, in_flight: 0 },
            devices: Seq::empty(),
            owners: Seq::empty(),
        }
    }

    /// What holds of every state that a sweep can reach. Hosts are started
    /// in the order of the targets and only started hosts are done; the
    /// hosts in flight are the started ones that are not done, and they are
    /// within the ceiling. Each record belongs to a host that is done and
    /// carries that host's address, and no host has two.
    pub open spec fn wf(self) -> bool {
        &&& self.started <= self.targets.len()
        &&& self.done.len() == self.targets.len()
        &&& forall|i: int| self.started <= i < self.done.len() ==> !#[trigger] self.done[i]
        &&& self.gate.wf()
        &&& self.gate.in_flight == pending(self.done, self.started)
        &&& self.owners.len() == self.devices.len()
        &&& self.devices.len() <= self.started - self.gate.in_flight
        &&& forall|j: int|
            0 <= j < self.owners.len() ==> {
                &&& 0 <= (#[trigger] self.owners[j]) < self.started
                &&& self.done[self.owners[j]]
                &&& self.devices[j].ip == self.targets[self.owners[j]]
            }
        &&& forall|j: int, k: int|
            0 <= j < k < self.owners.len() ==> #[trigger] self.owners[j] != #[trigger] self.owners[k]
    }

    /// How many hosts are done.
    pub open spec fn completed(self) -> int {
        self.started - self.gate.in_flight
    }

    /// Whether a host can be started now: one is left, and there is room for it.
    pub open spec fn can_start(self) -> bool {
        self.started < self.targets.len() && self.gate.has_room()
    }

    /// The state after the caller asked for the next host to start.
    pub open spec fn after_start(self) -> ScanPlanView {
        if self.can_start() {
            ScanPlanView {
                started: self.started + 1,
                gate: self.gate.after_acquire(),
                ..self
            }
        } else {
            self
        }
    }

    /// How many targets a report can be about: those that were started.
    pub open spec fn reach(self) -> nat {
        if self.started <= self.targets.len() {
            self.started
        } else {
            self.targets.len()
        }
    }

    /// For each target within reach, whether it is in flight under the
    /// address `ip`.
    pub open spec fn waiting(self, ip: Seq<char>) -> Seq<bool> {
        Seq::new(
            self.reach(),
            |i: int| i < self.done.len() && !self.done[i] && self.targets[i] == ip,
        )
    }

    /// The position of the host that a report under the address `ip` is
    /// about: the first in flight with that address. Where no such host is
    /// in flight, the position is `reach()`.
    pub open spec fn position_in_flight(self, ip: Seq<char>) -> int {
        position_of(self.waiting(ip), true)
    }

    /// Whether a host with the address `ip` is in flight.
    pub open spec fn is_in_flight(self, ip: Seq<char>) -> bool {
        self.position_in_flight(ip) < self.reach()
    }

    /// The state after the host at position `at` was settled with
    /// `outcome`: it is done and no longer in flight, and its record, if it
    /// has one, is the last on record.
    pub open spec fn after_settled(self, at: int, outcome: Option<DeviceView>) -> ScanPlanView {
        ScanPlanView {
            done: self.done.update(at, true),
            gate: self.gate.after_release(),
            devices: match outcome {
                Some(d) => self.devices.push(d),
                None => self.devices,
            },
            owners: match outcome {
                Some(d) => self.owners.push(at),
                None => self.owners,
            },
            ..self
        }
    }

    /// The state after the probing of a host was handed in. A probing that
    /// is over, of a host in flight, settles that host with the record that
    /// the probing made, if it made one. Any other report is ignored.
    pub open spec fn after_completion(self, report: HostProbeView) -> ScanPlanView {
        if report.action() is Done && self.is_in_flight(report.ip) {
            self.after_settled(self.position_in_flight(report.ip), report.device())
        } else {
            self
        }
    }

    /// The state after the probing of the host at `ip` was given up: a host
    /// in flight is settled without a record; otherwise nothing changes.
    pub open spec fn after_abandoned(self, ip: Seq<char>) -> ScanPlanView {
        if self.is_in_flight(ip) {
            self.after_settled(self.position_in_flight(ip), None)
        } else {
            self
        }
    }

    /// Whether every host has been started and is done.
    pub open spec fn finished(self) -> bool {
        self.started == self.targets.len() && self.gate.in_flight == 0
    }
}

/// Positions as mathematical integers.
pub open spec fn positions(owners: Seq<usize>) -> Seq<int> {
    owners.map_values(|o: usize| o as int)
}

/// The view of an optional device.
pub open spec fn outcome_view(outcome: Option<BiometricDevice>) -> Option<DeviceView> {
    match outcome {
        Some(d) => Some(d@),
        None => None,
    }
}

/// The bookkeeping of one sweep: which host to start next, which are in
/// flight, and what has been found on which.
#[derive(Debug)]
pub struct ScanPlan {
    targets: Vec<String>,
    started: usize,
    done: Vec<bool>,
    gate: AdmissionGate,
    devices: Vec<BiometricDevice>,
    owners: Vec<usize>,
}

impl View for ScanPlan {
    type V = ScanPlanView;

    closed spec fn view(&self) -> ScanPlanView {
        ScanPlanView {
            targets: text_views(self.targets@),
            started: self.started as nat,
            done: self.done@,
            gate: self.gate@,
            devices: device_views(self.devices@),
            owners: positions(self.owners@),
        }
    }
}

impl ScanPlan {
    /// A sweep of `targets` that has at most `ceiling` hosts in flight.
    pub fn new(targets: Vec<String>, ceiling: usize) -> (plan: ScanPlan)
        ensures
            plan@ == ScanPlanView::fresh(text_views(targets@), ceiling as nat),
    {
        let mut done: Vec<bool> = Vec::new();
        let mut i: usize = 0;
        while i < targets.len()
            invariant
                i <= targets@.len(),
                done@.len() == i,
                forall|j: int| 0 <= j < i ==> !done@[j],
            decreases targets@.len() - i,
        {
            done.push(false);
            i += 1;
        }
        let plan = ScanPlan {
            targets,
            started: 0,
            done,
            gate: AdmissionGate::new(ceiling),
            devices: Vec::new(),
            owners: Vec::new(),
        };
        assert(device_views(plan.devices@) =~= Seq::<DeviceView>::empty());
        assert(positions(plan.owners@) =~= Seq::<int>::empty());
        assert(plan.done@ =~= Seq::new(targets@.len(), |i: int| false));
        plan
    }

    /// The sweep that a machine with the address `local` runs: the 254 hosts
    /// of its /24, at most 100 of them in flight.
    pub fn for_local_address(local: [u8; 4]) -> (plan: ScanPlan)
        ensures
            plan@.wf(),
            plan@.started == 0,
            plan@.gate == (GateView { ceiling: MAX_CONCURRENT as nat, in_flight: 0 }),
            plan@.devices == Seq::<DeviceView>::empty(),
            plan@.targets.len() == 254,
            forall|i: int|
                0 <= i < 254 ==> #[trigger] plan@.targets[i] == address_text(
                    local[0],
                    local[1],
                    local[2],
                    (i + 1) as u8,
                ),
    {
        let targets = scan_targets(local);
        ScanPlan::new(targets, MAX_CONCURRENT)
    }

    /// Asks for the next host to start. The address is handed out, and the
    /// host counts as in flight, where one is left and there is room for it;
    /// otherwise nothing is handed out and nothing changes.
    pub fn next_host(&mut self) -> (host: Option<String>)
        ensures
            final(self)@ == old(self)@.after_start(),
            host is Some <==> old(self)@.can_start(),
            host is Some ==> host->Some_0@ == old(self)@.targets[old(self)@.started as int],
            final(self)@.gate.wf(),
    {
        if self.started >= self.targets.len() {
            proof {
                use_type_invariant(&self.gate);
            }
            return None;
        }
        if !self.gate.try_acquire() {
            return None;
        }
        let host = self.targets[self.started].clone();
        self.started += 1;
        Some(host)
    }

    /// Finds the host in flight that a report under the address `ip` is
    /// about.
    fn find_in_flight(&self, ip: &String) -> (at: usize)
        ensures
            at == self@.position_in_flight(ip@),
            at <= self@.reach(),
            at < self@.reach() ==> at < self@.done.len(),
    {
        let reach: usize = if self.started <= self.targets.len() {
            self.started
        } else {
            self.targets.len()
        };
        let ghost mask = self@.waiting(ip@);
        let mut at: usize = 0;
        while at < reach && !(at < self.done.len() && !self.done[at] && self.targets[at] == *ip)
            invariant
                at <= reach,
                reach == self@.reach(),
                mask == self@.waiting(ip@),
                forall|j: int| 0 <= j < at ==> mask[j] != true,
            decreases reach - at,
        {
            at += 1;
        }
        proof {
            lemma_position_found(mask, true, at as int);
        }
        at
    }

    fn settle(&mut self, at: usize, outcome: Option<BiometricDevice>)
        requires
            at < old(self)@.done.len(),
        ensures
            final(self)@ == old(self)@.after_settled(at as int, outcome_view(outcome)),
            final(self)@.gate.wf(),
    {
        self.done.set(at, true);
        self.gate.release();
        match outcome {
            Some(device) => {
                let ghost before = self.devices@;
                let ghost owners_before = self.owners@;
                self.devices.push(device);
                self.owners.push(at);
                assert(device_views(self.devices@) =~= device_views(before).push(device@));
                assert(positions(self.owners@) =~= positions(owners_before).push(at as int));
            },
            None => {},
        }
    }

    /// Hands in the probing of a host. Where the probing is over and its
    /// host is in flight, the host is done, and the record that the probing
    /// made, if it made one, is kept as the last on record. Any other
    /// probing is dropped and changes nothing.
    pub fn complete(&mut self, probe: HostProbe)
        ensures
            final(self)@ == old(self)@.after_completion(probe@),
            final(self)@.gate.wf(),
    {
        proof {
            use_type_invariant(&self.gate);
        }
        if !probe.is_done() {
            return ;
        }
        let at: usize = self.find_in_flight(probe.host());
        let reach: usize = if self.started <= self.targets.len() {
            self.started
        } else {
            self.targets.len()
        };
        if at < reach {
            self.settle(at, probe.into_device());
        }
    }

    /// Gives up the probing of the host at `ip`, as when the unit of work
    /// that probed it was lost. A host in flight is done without a record;
    /// otherwise nothing changes.
    pub fn abandon(&mut self, ip: &String)
        ensures
            final(self)@ == old(self)@.after_abandoned(ip@),
            final(self)@.gate.wf(),
    {
        proof {
            use_type_invariant(&self.gate);
        }
        let at: usize = self.find_in_flight(ip);
        let reach: usize = if self.started <= self.targets.len() {
            self.started
        } else {
            self.targets.len()
        };
        if at < reach {
            self.settle(at, None);
        }
    }

    /// How many hosts are in flight.
    pub fn in_flight(&self) -> (n: usize)
        ensures
            n == self@.gate.in_flight,
            n <= self@.gate.ceiling,
    {
        self.gate.in_flight()
    }

    /// Whether every host has been started and is done.
    pub fn is_finished(&self) -> (done: bool)
        ensures
            done == self@.finished(),
    {
        self.started == self.targets.len() && self.gate.in_flight() == 0
    }

    /// Hands out the records of the candidates, in the order in which their
    /// hosts were reported done.
    pub fn into_devices(self) -> (devices: Vec<BiometricDevice>)
        ensures
            device_views(devices@) == self@.devices,
    {
        self.devices
    }
}

/// The answers of one host to everything it may be asked, in the order of
/// asking. Answers to questions that are never put are not looked at.
pub struct HostAnswers {
    /// The primary protocol port, at the start.
    pub primary: bool,
    /// The secondary protocol port, asked where the primary did not answer.
    pub secondary: bool,
    pub web: bool,
    pub web_alt: bool,
    /// The protocol port other than the one that answered first.
    pub other_protocol: bool,
    pub info: Option<DeviceInfoView>,
}

/// `ports` with `port` appended where `open` holds.
pub open spec fn and_if(ports: Seq<u16>, open: bool, port: u16) -> Seq<u16> {
    if open {
        ports.push(port)
    } else {
        ports
    }
}

impl HostAnswers {
    /// The protocol port that makes the host a candidate, if any.
    pub open spec fn main_port(self) -> Option<u16> {
        if self.primary {
            Some(PRIMARY_PORT)
        } else if self.secondary {
            Some(SECONDARY_PORT)
        } else {
            None
        }
    }

    /// The ports on record for a candidate whose protocol port is `main`.
    pub open spec fn open_ports(self, main: u16) -> Seq<u16> {
        and_if(
            and_if(and_if(seq![main], self.web, WEB_PORT), self.web_alt, WEB_ALT_PORT),
            self.other_protocol,
            other_protocol_port(main),
        )
    }

    /// What the sweep records for a host at `ip` that answers like this.
    pub open spec fn record(self, ip: Seq<char>) -> Option<DeviceView> {
        match self.main_port() {
            Some(main) => Some(device_of(ip, self.open_ports(main), self.info)),
            None => None,
        }
    }

    /// The state in which the probing of such a host ends.
    pub open spec fn final_state(self, ip: Seq<char>) -> HostProbeView {
        let start = HostProbeView::fresh(ip).after_port(self.primary);
        let found = if self.primary {
            start
        } else {
            start.after_port(self.secondary)
        };
        found.after_port(self.web).after_port(self.web_alt).after_port(
            self.other_protocol,
        ).after_identity(self.info)
    }
}

/// What may happen to a sweep.
pub enum PlanEvent {
    /// The caller asks for the next host to start.
    Start,
    /// The caller hands in the probing of a host.
    Completion(HostProbeView),
    /// The caller gives up the probing of the host at this address.
    Abandon(Seq<char>),
}

impl ScanPlanView {
    /// The state after one event.
    pub open spec fn after(self, event: PlanEvent) -> ScanPlanView {
        match event {
            PlanEvent::Start => self.after_start(),
            PlanEvent::Completion(report) => self.after_completion(report),
            PlanEvent::Abandon(ip) => self.after_abandoned(ip),
        }
    }

    /// The state after a run of events.
    pub open spec fn after_all(self, events: Seq<PlanEvent>) -> ScanPlanView
        decreases events.len(),
    {
        if events.len() == 0 {
            self
        } else {
            self.after_all(events.drop_last()).after(events.last())
        }
    }

    /// Whether the host at position `at` has a record.
    pub open spec fn has_record(self, at: int) -> bool {
        exists|j: int| 0 <= j < self.owners.len() && #[trigger] self.owners[j] == at
    }
}

/// An admission gate never holds more than its ceiling: a new gate does not,
/// and neither letting a unit in nor letting one go changes that.
pub proof fn lemma_gate_within_ceiling(gate: GateView, ceiling: nat)
    requires
        gate.wf(),
    ensures
        (GateView { ceiling, in_flight: 0 }).wf(),
        gate.after_acquire().wf(),
        gate.after_release().wf(),
        gate.after_acquire().ceiling == gate.ceiling,
        gate.after_release().ceiling == gate.ceiling,
{
}

/// Hosts that are not started do not count as pending, and one more host
/// that is not done is one more pending.
proof fn lemma_pending_same(done: Seq<bool>, other: Seq<bool>, n: nat)
    requires
        n <= done.len(),
        n <= other.len(),
        forall|i: int| 0 <= i < n ==> done[i] == other[i],
    ensures
        pending(done, n) == pending(other, n),
    decreases n,
{
    if n > 0 {
        lemma_pending_same(done, other, (n - 1) as nat);
    }
}

/// Marking a pending host among the first `n` as done leaves one fewer
/// pending.
proof fn lemma_pending_settled(done: Seq<bool>, n: nat, at: int)
    requires
        0 <= at < n <= done.len(),
        !done[at],
    ensures
        pending(done, n) == pending(done.update(at, true), n) + 1,
    decreases n,
{
    let after = done.update(at, true);
    if at == n - 1 {
        lemma_pending_same(done, after, (n - 1) as nat);
    } else {
        lemma_pending_settled(done, (n - 1) as nat, at);
    }
}

/// With nothing pending among the first `n` hosts, each of them is done.
proof fn lemma_none_pending(done: Seq<bool>, n: nat)
    requires
        n <= done.len(),
        pending(done, n) == 0,
    ensures
        forall|i: int| 0 <= i < n ==> done[i],
    decreases n,
{
    if n > 0 {
        lemma_none_pending(done, (n - 1) as nat);
    }
}

/// Settling a host in flight keeps the invariant of a sweep, and says of
/// that host what the report said: it is done, and it has a record if and
/// only if the report brought one, which then is the last on record. Of
/// every other host nothing changes.
pub proof fn lemma_settled(plan: ScanPlanView, ip: Seq<char>, outcome: Option<DeviceView>)
    requires
        plan.wf(),
        plan.is_in_flight(ip),
        outcome matches Some(d) ==> d.ip == ip,
    ensures
        ({
            let at = plan.position_in_flight(ip);
            let after = plan.after_settled(at, outcome);
            &&& 0 <= at < plan.started
            &&& plan.targets[at] == ip
            &&& !plan.done[at]
            &&& !plan.has_record(at)
            &&& after.wf()
            &&& after.done[at]
            &&& after.has_record(at) <==> outcome is Some
            &&& outcome matches Some(d) ==> after.devices.last() == d && after.owners.last() == at
            &&& after.gate.in_flight + 1 == plan.gate.in_flight
            &&& forall|i: int|
                0 <= i < plan.done.len() && i != at ==> after.done[i] == plan.done[i]
                    && after.has_record(i) == plan.has_record(i)
        }),
{
    let at = plan.position_in_flight(ip);
    let after = plan.after_settled(at, outcome);
    lemma_position_of(plan.waiting(ip), true);
    assert(plan.waiting(ip)[at]);
    lemma_pending_settled(plan.done, plan.started, at);
    assert(!plan.has_record(at)) by {
        if plan.has_record(at) {
            let j = choose|j: int| 0 <= j < plan.owners.len() && #[trigger] plan.owners[j] == at;
            assert(plan.done[plan.owners[j]]);
        }
    }
    assert forall|i: int| 0 <= i < plan.done.len() && i != at implies after.has_record(i)
        == plan.has_record(i) by {
        if plan.has_record(i) {
            let j = choose|j: int| 0 <= j < plan.owners.len() && #[trigger] plan.owners[j] == i;
            assert(after.owners[j] == i);
        }
        if after.has_record(i) {
            let j = choose|j: int| 0 <= j < after.owners.len() && #[trigger] after.owners[j] == i;
            if j < plan.owners.len() {
                assert(plan.owners[j] == i);
            }
        }
    }
    if outcome is Some {
        assert(after.owners[after.owners.len() - 1] == at);
        assert forall|j: int, k: int| 0 <= j < k < after.owners.len() implies #[trigger] after.owners[j]
            != #[trigger] after.owners[k] by {
            if k == after.owners.len() - 1 {
                assert(plan.owners[j] == after.owners[j]);
                assert(plan.done[plan.owners[j]]);
            } else {
                assert(plan.owners[j] == after.owners[j]);
                assert(plan.owners[k] == after.owners[k]);
            }
        }
        assert forall|j: int| 0 <= j < after.owners.len() implies {
            &&& 0 <= (#[trigger] after.owners[j]) < after.started
            &&& after.done[after.owners[j]]
            &&& after.devices[j].ip == after.targets[after.owners[j]]
        } by {
            if j < plan.owners.len() {
                assert(plan.owners[j] == after.owners[j]);
            }
        }
    } else {
        assert(!after.has_record(at)) by {
            if after.has_record(at) {
                let j = choose|j: int|
                    0 <= j < after.owners.len() && #[trigger] after.owners[j] == at;
                assert(plan.owners[j] == at);
            }
        }
    }
}

/// Hosts with different suffixes have different addresses.
pub proof fn lemma_addresses_differ(a: u8, b: u8, c: u8, d1: u8, d2: u8)
    requires
        address_text(a, b, c, d1) == address_text(a, b, c, d2),
    ensures
        d1 == d2,
{
    let head = decimal_digits(a as nat) + "."@ + decimal_digits(b as nat) + "."@ + decimal_digits(
        c as nat,
    ) + "."@;
    let x = decimal_digits(d1 as nat);
    let y = decimal_digits(d2 as nat);
    assert((head + x).len() == (head + y).len());
    assert forall|i: int| 0 <= i < x.len() implies x[i] == y[i] by {
        assert((head + x)[head.len() + i] == x[i]);
        assert((head + y)[head.len() + i] == y[i]);
    }
    assert(x =~= y);
    lemma_decimal_injective(d1 as nat, d2 as nat);
}

/// The targets of the sweep that a machine with the address `local` runs
/// are pairwise different.
pub proof fn lemma_targets_differ(local: [u8; 4], targets: Seq<Seq<char>>)
    requires
        targets.len() == 254,
        forall|i: int|
            0 <= i < 254 ==> #[trigger] targets[i] == address_text(
                local[0],
                local[1],
                local[2],
                (i + 1) as u8,
            ),
    ensures
        forall|i: int, j: int|
            0 <= i < j < targets.len() ==> #[trigger] targets[i] != #[trigger] targets[j],
{
    assert forall|i: int, j: int| 0 <= i < j < targets.len() implies #[trigger] targets[i]
        != #[trigger] targets[j] by {
        if targets[i] == targets[j] {
            lemma_addresses_differ(local[0], local[1], local[2], (i + 1) as u8, (j + 1) as u8);
        }
    }
}

/// In a sweep of targets that are pairwise different, no two records carry
/// the same address.
pub proof fn lemma_records_differ(plan: ScanPlanView)
    requires
        plan.wf(),
        forall|i: int, j: int|
            0 <= i < j < plan.targets.len() ==> #[trigger] plan.targets[i]
                != #[trigger] plan.targets[j],
    ensures
        forall|j: int, k: int|
            0 <= j < k < plan.devices.len() ==> (#[trigger] plan.devices[j]).ip != (
            #[trigger] plan.devices[k]).ip,
{
    assert forall|j: int, k: int| 0 <= j < k < plan.devices.len() implies (
    #[trigger] plan.devices[j]).ip != (#[trigger] plan.devices[k]).ip by {
        let x = plan.owners[j];
        let y = plan.owners[k];
        assert(x != y);
        if x < y {
            assert(plan.targets[x] != plan.targets[y]);
        } else {
            assert(plan.targets[y] != plan.targets[x]);
        }
    }
}

/// What handing in a probing does to a sweep. The probing of a host in
/// flight, once it is over, makes that host done. The host has a record
/// afterwards if and only if the probing found a candidate, which is where a
/// protocol port answered; the record is the one that the probing made, it
/// carries the address of the host, and it is the last on record.
pub proof fn lemma_completion(plan: ScanPlanView, report: HostProbeView)
    requires
        plan.wf(),
        report.action() is Done,
        plan.is_in_flight(report.ip),
    ensures
        ({
            let at = plan.position_in_flight(report.ip);
            let after = plan.after_completion(report);
            &&& after.wf()
            &&& plan.targets[at] == report.ip
            &&& after.done[at]
            &&& after.has_record(at) <==> report.stage is Found
            &&& report.device() matches Some(d) ==> after.devices.last() == d && d.ip
                == plan.targets[at]
            &&& report.device() is None ==> after.devices == plan.devices
        }),
{
    lemma_settled(plan, report.ip, report.device());
}

/// Every step of a sweep keeps its invariant.
pub proof fn lemma_sweep_steps_keep_wf(plan: ScanPlanView, event: PlanEvent)
    requires
        plan.wf(),
    ensures
        plan.after(event).wf(),
        plan.after(event).targets == plan.targets,
        plan.after(event).gate.ceiling == plan.gate.ceiling,
{
    match event {
        PlanEvent::Start => {
            if plan.can_start() {
                lemma_pending_same(plan.done, plan.done, plan.started);
            }
        },
        PlanEvent::Completion(report) => {
            if report.action() is Done && plan.is_in_flight(report.ip) {
                lemma_settled(plan, report.ip, report.device());
            }
        },
        PlanEvent::Abandon(ip) => {
            if plan.is_in_flight(ip) {
                lemma_settled(plan, ip, None);
            }
        },
    }
}

/// Whatever is asked of a sweep and reported to it, in whatever order, the
/// number of hosts in flight never exceeds the ceiling, and the targets and
/// the ceiling stay as they were. Every record carries the address of a
/// target that was started and is done, and no target has two.
pub proof fn lemma_sweep_within_ceiling(
    targets: Seq<Seq<char>>,
    ceiling: nat,
    events: Seq<PlanEvent>,
)
    ensures
        ScanPlanView::fresh(targets, ceiling).wf(),
        ScanPlanView::fresh(targets, ceiling).after_all(events).wf(),
        ScanPlanView::fresh(targets, ceiling).after_all(events).gate.in_flight <= ceiling,
        ScanPlanView::fresh(targets, ceiling).after_all(events).gate.ceiling == ceiling,
        ScanPlanView::fresh(targets, ceiling).after_all(events).targets == targets,
    decreases events.len(),
{
    if events.len() > 0 {
        lemma_sweep_within_ceiling(targets, ceiling, events.drop_last());
        lemma_sweep_steps_keep_wf(
            ScanPlanView::fresh(targets, ceiling).after_all(events.drop_last()),
            events.last(),
        );
    }
}

/// A sweep that was driven to its end has started every target once and has
/// nothing in flight: every target is done. It holds at most one record per
/// target, and each record carries the address of its target.
pub proof fn lemma_sweep_finished(plan: ScanPlanView)
    requires
        plan.wf(),
        plan.finished(),
    ensures
        plan.completed() == plan.targets.len(),
        forall|i: int| 0 <= i < plan.targets.len() ==> plan.done[i],
        plan.devices.len() <= plan.targets.len(),
        forall|j: int|
            0 <= j < plan.devices.len() ==> 0 <= (#[trigger] plan.owners[j]) < plan.targets.len()
                && plan.devices[j].ip == plan.targets[plan.owners[j]],
        !plan.can_start(),
        plan.after_start() == plan,
{
    lemma_none_pending(plan.done, plan.started);
}

/// Every step of a probing keeps its invariant.
pub proof fn lemma_probe_steps_keep_wf(s: HostProbeView, open: bool, info: Option<DeviceInfoView>)
    requires
        s.wf(),
    ensures
        HostProbeView::fresh(s.ip).wf(),
        s.after_port(open).wf(),
        s.after_identity(info).wf(),
{
}

/// The course of a probing, whatever the host answers.
///
/// The primary protocol port is tried first and the secondary only where the
/// primary did not answer, both with the long timeout. A host on which
/// neither answers is discarded at once and yields no record. Any other host
/// is a candidate: the two web ports and the other protocol port are tried
/// with the short timeout, the identification runs against the port that
/// answered, and the record lists that port first and then the auxiliary
/// ports that opened, whether or not any of them did, and whatever the
/// identification brought.
pub proof fn lemma_probe_course(ip: Seq<char>, answers: HostAnswers)
    ensures
        HostProbeView::fresh(ip).action() == (ProbeAction::Probe {
            port: PRIMARY_PORT,
            timeout_ms: PRIMARY_TIMEOUT_MS,
        }),
        HostProbeView::fresh(ip).after_port(false).action() == (ProbeAction::Probe {
            port: SECONDARY_PORT,
            timeout_ms: PRIMARY_TIMEOUT_MS,
        }),
        HostProbeView::fresh(ip).after_port(false).after_port(false).action() is Done,
        answers.final_state(ip).action() is Done,
        answers.final_state(ip).device() == answers.record(ip),
        answers.main_port() is None <==> answers.record(ip) is None,
        answers.main_port() matches Some(main) ==> {
            let found = if answers.primary {
                HostProbeView::fresh(ip).after_port(true)
            } else {
                HostProbeView::fresh(ip).after_port(false).after_port(true)
            };
            &&& found.action() == (ProbeAction::Probe {
                port: WEB_PORT,
                timeout_ms: AUXILIARY_TIMEOUT_MS,
            })
            &&& found.after_port(answers.web).action() == (ProbeAction::Probe {
                port: WEB_ALT_PORT,
                timeout_ms: AUXILIARY_TIMEOUT_MS,
            })
            &&& found.after_port(answers.web).after_port(answers.web_alt).action() == (
            ProbeAction::Probe {
                port: other_protocol_port(main),
                timeout_ms: AUXILIARY_TIMEOUT_MS,
            })
            &&& found.after_port(answers.web).after_port(answers.web_alt).after_port(
                answers.other_protocol,
            ).action() == (ProbeAction::Identify { port: main })
            &&& answers.record(ip)->Some_0.open_ports[0] == main
        },
{
}

} // verus!
