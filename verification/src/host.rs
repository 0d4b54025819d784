//! The host command surface: starting and stopping connections, and
//! choosing the serial ports that are dongles.

use crate::ble::stop_connections;
use crate::ble::stop_scanning;
use crate::ble::stopped;
use crate::ble::BleState;
use crate::ble::BleView;
use crate::dispatch::start_interpreting;
use crate::dispatch::start_outcome;
use crate::dispatch::stop_interpreting;
use crate::dispatch::stop_outcome;
use crate::dispatch::Interpreters;
use crate::dispatch::InterpretersView;
use crate::emulator::clear_trackers;
use crate::emulator::live_names;
use crate::emulator::TrackerRegistry;
use crate::error::ErrorKind;
use crate::search::first_where;
use crate::search::lemma_first_where_is;
use crate::serial::SerialRegistry;
use crate::serial::TrackerInfoView;
use crate::text::texts;
use crate::text::has_text;
use crate::text::same_text;
use vstd::prelude::*;

verus! {

/// The USB vendor and product numbers of a dongle.
#[derive(Debug, Clone, Copy, PartialEq, Eq, Structural)]
pub struct UsbId {
    pub vid: u16,
    pub pid: u16,
}

/// What the operating system tells of a serial port.
#[derive(Debug, PartialEq, Eq)]
pub struct PortInfo {
    pub port_name: String,
    /// The USB numbers of the port, if it is a USB port.
    pub usb: Option<UsbId>,
}

/// The mathematical content of a [`PortInfo`].
pub struct PortInfoView {
    pub port_name: Seq<char>,
    pub usb: Option<UsbId>,
}

impl View for PortInfo {
    type V = PortInfoView;

    open spec fn view(&self) -> PortInfoView {
        PortInfoView { port_name: self.port_name@, usb: self.usb }
    }
}

/// The content of a list of port records.
pub open spec fn port_views(ports: Seq<PortInfo>) -> Seq<PortInfoView> {
    ports.map_values(|p: PortInfo| p@)
}

/// Whether the USB numbers are those of a known dongle: the GX2
/// (1915:520F) or the GX6 (04DA:3F18).
pub open spec fn is_dongle(id: UsbId) -> bool {
    (id.vid == 0x1915 && id.pid == 0x520F) || (id.vid == 0x04DA && id.pid == 0x3F18)
}

/// Whether the port of the given name is a dongle's, by what the
/// operating system tells of the first port of that name.
pub open spec fn is_dongle_port(available: Seq<PortInfoView>, name: Seq<char>) -> bool {
    match first_where(available, |p: PortInfoView| p.port_name == name) {
        Some(at) => match available[at].usb {
            Some(id) => is_dongle(id),
            None => false,
        },
        None => false,
    }
}

/// The dongles' ports among the given ones, in their order.
pub open spec fn dongle_ports(ports: Seq<Seq<char>>, available: Seq<PortInfoView>) -> Seq<Seq<char>>
    decreases ports.len(),
{
    if ports.len() == 0 {
        Seq::empty()
    } else {
        let before = dongle_ports(ports.drop_last(), available);
        if is_dongle_port(available, ports.last()) {
            before.push(ports.last())
        } else {
            before
        }
    }
}

/// What a result with a list of strings holds.
pub open spec fn result_texts(r: Result<Vec<String>, ErrorKind>) -> Result<Seq<Seq<char>>, ErrorKind> {
    match r {
        Ok(list) => Ok(texts(list@)),
        Err(e) => Err(e),
    }
}

/// What `filter_ports` returns: the dongles' ports among the given
/// ones, and `NotFound` where there is none.
pub open spec fn filtered_ports(ports: Seq<Seq<char>>, available: Seq<PortInfoView>) -> Result<
    Seq<Seq<char>>,
    ErrorKind,
> {
    if dongle_ports(ports, available).len() == 0 {
        Err(ErrorKind::NotFound)
    } else {
        Ok(dongle_ports(ports, available))
    }
}

fn dongle_port(available: &Vec<PortInfo>, name: &str) -> (r: bool)
    ensures
        r == is_dongle_port(port_views(available@), name@),
{
    let ghost named = |p: PortInfoView| p.port_name == name@;
    let mut at: usize = 0;
    while at < available.len()
        invariant
            at <= available.len(),
            forall|k: int| 0 <= k < at ==> !named(#[trigger] port_views(available@)[k]),
            named == (|p: PortInfoView| p.port_name == name@),
        ensures
            at < available.len() ==> named(port_views(available@)[at as int]),
        decreases available.len() - at,
    {
        if same_text(available[at].port_name.as_str(), name) {
            break;
        }
        at += 1;
    }
    proof {
        lemma_first_where_is(port_views(available@), named, at as int);
    }
    if at < available.len() {
        match available[at].usb {
            Some(id) => (id.vid == 0x1915 && id.pid == 0x520F) || (id.vid == 0x04DA && id.pid
                == 0x3F18),
            None => false,
        }
    } else {
        false
    }
}

/// Keeps the ports that are dongles', given what the operating system
/// tells of the ports at present.
pub fn filter_ports(ports: Vec<String>, available: &Vec<PortInfo>) -> (r: Result<
    Vec<String>,
    ErrorKind,
>)
    ensures
        result_texts(r) == filtered_ports(texts(ports@), port_views(available@)),
{
    let mut kept: Vec<String> = Vec::new();
    let ghost all = texts(ports@);
    assert(all.take(0) =~= Seq::<Seq<char>>::empty());
    assert(texts(kept@) =~= Seq::<Seq<char>>::empty());
    let mut i: usize = 0;
    while i < ports.len()
        invariant
            i <= ports.len(),
            all == texts(ports@),
            texts(kept@) == dongle_ports(all.take(i as int), port_views(available@)),
        decreases ports.len() - i,
    {
        proof {
            assert(all.take(i + 1).drop_last() =~= all.take(i as int));
            assert(all.take(i + 1).last() == ports@[i as int]@);
        }
        if dongle_port(available, ports[i].as_str()) {
            let ghost before = texts(kept@);
            let port = ports[i].clone();
            kept.push(port);
            assert(texts(kept@) =~= before.push(port@));
        }
        i += 1;
    }
    assert(all.take(i as int) =~= all);
    if kept.len() == 0 {
        Err(ErrorKind::NotFound)
    } else {
        Ok(kept)
    }
}

/// Filtering what was filtered changes nothing, as long as the operating
/// system tells the same of the ports.
pub proof fn lemma_filter_idempotent(ports: Seq<Seq<char>>, available: Seq<PortInfoView>)
    ensures
        dongle_ports(dongle_ports(ports, available), available) == dongle_ports(ports, available),
        filtered_ports(ports, available) matches Ok(kept) ==> filtered_ports(kept, available)
            == filtered_ports(ports, available),
    decreases ports.len(),
{
    if ports.len() > 0 {
        let before = dongle_ports(ports.drop_last(), available);
        lemma_filter_idempotent(ports.drop_last(), available);
        if is_dongle_port(available, ports.last()) {
            assert(before.push(ports.last()).drop_last() =~= before);
        }
    }
}

/// The names of the ports that the operating system knows, and
/// `NotFound` where it knows none.
pub open spec fn known_ports(available: Seq<PortInfoView>) -> Result<Seq<Seq<char>>, ErrorKind> {
    if available.len() == 0 {
        Err(ErrorKind::NotFound)
    } else {
        Ok(available.map_values(|p: PortInfoView| p.port_name))
    }
}

/// Lists the names of the serial ports, given what the operating system
/// tells of them.
pub fn get_serial_ports(available: &Vec<PortInfo>) -> (r: Result<Vec<String>, ErrorKind>)
    ensures
        result_texts(r) == known_ports(port_views(available@)),
{
    if available.len() == 0 {
        return Err(ErrorKind::NotFound);
    }
    let mut names: Vec<String> = Vec::new();
    let mut i: usize = 0;
    while i < available.len()
        invariant
            i <= available.len(),
            names.len() == i,
            forall|k: int| 0 <= k < i ==> names@[k]@ == available@[k]@.port_name,
        decreases available.len() - i,
    {
        names.push(available[i].port_name.clone());
        i += 1;
    }
    assert(texts(names@) =~= port_views(available@).map_values(|p: PortInfoView| p.port_name));
    Ok(names)
}

/// Which backends a start command sets going.
#[derive(Debug, PartialEq, Eq)]
pub struct StartPlan {
    /// The addresses to start the Bluetooth supervisor with.
    pub ble: Option<Vec<String>>,
    /// The ports to open.
    pub serial: Option<Vec<String>>,
}

/// The mathematical content of a [`StartPlan`].
pub struct StartPlanView {
    pub ble: Option<Seq<Seq<char>>>,
    pub serial: Option<Seq<Seq<char>>>,
}

/// What an optional list of strings holds.
pub open spec fn list_texts(list: Option<Vec<String>>) -> Option<Seq<Seq<char>>> {
    match list {
        Some(items) => Some(texts(items@)),
        None => None,
    }
}

impl View for StartPlan {
    type V = StartPlanView;

    open spec fn view(&self) -> StartPlanView {
        StartPlanView { ble: list_texts(self.ble), serial: list_texts(self.serial) }
    }
}

/// What a result with a start plan holds.
pub open spec fn plan_view(r: Result<StartPlan, ErrorKind>) -> Result<StartPlanView, ErrorKind> {
    match r {
        Ok(plan) => Ok(plan@),
        Err(e) => Err(e),
    }
}

/// Whether a list of identifiers names nothing.
pub open spec fn names_nothing(list: Option<Seq<Seq<char>>>) -> bool {
    match list {
        Some(items) => items.len() == 0,
        None => true,
    }
}

/// The identifiers that a backend is started with: those given, if its
/// mode was asked for and there are any.
pub open spec fn backend_targets(modes: Seq<Seq<char>>, mode: Seq<char>, list: Option<Seq<Seq<char>>>) -> Option<
    Seq<Seq<char>>,
> {
    if modes.contains(mode) && !names_nothing(list) {
        list
    } else {
        None
    }
}

/// The registry of interpreters and the plan after a start command.
///
/// * Without any address or port the command is refused with
///   `NotFound`.
/// * Without one of the modes `ble` and `serial` it is refused with
///   `UnknownIdentifier`.
/// * Then the model is made active, or the command refused with
///   `NoInterpreter`.
/// * A backend is started if its mode was asked for and it has
///   something to connect to. If that holds of neither, the command is
///   refused with `NotFound`; the model stays active.
pub open spec fn start_plan(
    set: InterpretersView,
    model: Seq<char>,
    modes: Seq<Seq<char>>,
    ports: Option<Seq<Seq<char>>>,
    mac_addresses: Option<Seq<Seq<char>>>,
) -> (InterpretersView, Result<StartPlanView, ErrorKind>) {
    if names_nothing(ports) && names_nothing(mac_addresses) {
        (set, Err(ErrorKind::NotFound))
    } else if !modes.contains("ble"@) && !modes.contains("serial"@) {
        (set, Err(ErrorKind::UnknownIdentifier))
    } else {
        let started = start_outcome(set, model);
        match started.1 {
            Err(e) => (started.0, Err(e)),
            Ok(()) => {
                let ble = backend_targets(modes, "ble"@, mac_addresses);
                let serial = backend_targets(modes, "serial"@, ports);
                if ble is None && serial is None {
                    (started.0, Err(ErrorKind::NotFound))
                } else {
                    (started.0, Ok(StartPlanView { ble, serial }))
                }
            },
        }
    }
}

fn nothing_named(list: &Option<Vec<String>>) -> (r: bool)
    ensures
        r == names_nothing(list_texts(*list)),
{
    match list {
        Some(items) => items.len() == 0,
        None => true,
    }
}

fn targets(modes: &Vec<String>, mode: &str, list: Option<Vec<String>>) -> (r: Option<Vec<String>>)
    ensures
        list_texts(r) == backend_targets(texts(modes@), mode@, list_texts(list)),
{
    if has_text(modes, mode) && !nothing_named(&list) {
        list
    } else {
        None
    }
}

/// Decides what a start command sets going: the model named `model` is
/// interpreted from now on, and the backends of the given modes are
/// started with the given addresses and ports.
pub fn start_connection(
    set: &mut Interpreters,
    model: &str,
    modes: &Vec<String>,
    ports: Option<Vec<String>>,
    mac_addresses: Option<Vec<String>>,
) -> (r: Result<StartPlan, ErrorKind>)
    ensures
        old(set)@.wf() ==> final(set)@.wf(),
        final(set)@ == start_plan(
            old(set)@,
            model@,
            texts(modes@),
            list_texts(ports),
            list_texts(mac_addresses),
        ).0,
        plan_view(r) == start_plan(
            old(set)@,
            model@,
            texts(modes@),
            list_texts(ports),
            list_texts(mac_addresses),
        ).1,
{
    if nothing_named(&ports) && nothing_named(&mac_addresses) {
        return Err(ErrorKind::NotFound);
    }
    if !has_text(modes, "ble") && !has_text(modes, "serial") {
        return Err(ErrorKind::UnknownIdentifier);
    }
    match start_interpreting(set, model) {
        Err(e) => {
            return Err(e);
        },
        Ok(()) => {},
    }
    let ble = targets(modes, "ble", mac_addresses);
    let serial = targets(modes, "serial", ports);
    if ble.is_none() && serial.is_none() {
        return Err(ErrorKind::NotFound);
    }
    Ok(StartPlan { ble, serial })
}

/// What stopping the backends asks of the caller.
#[derive(Debug, Clone, Copy, PartialEq, Eq, Structural)]
pub struct StopPlan {
    /// Whether the serial readers are to be stopped and the ports
    /// closed.
    pub serial: bool,
    /// Whether scanning is to be stopped and every device
    /// disconnected.
    pub ble: bool,
    /// The token of the Bluetooth supervisor to cancel.
    pub cancel_supervisor: Option<u64>,
}

/// The Bluetooth state after the backends of the given modes were
/// stopped.
pub open spec fn ble_after_stop(ble: BleView, modes: Seq<Seq<char>>) -> BleView {
    if modes.contains("ble"@) {
        BleView { scanning: false, ..stopped(ble) }
    } else {
        ble
    }
}

/// The serial records after the backends of the given modes were
/// stopped.
pub open spec fn serial_after_stop(serial: Seq<TrackerInfoView>, modes: Seq<Seq<char>>) -> Seq<
    TrackerInfoView,
> {
    if modes.contains("serial"@) {
        Seq::empty()
    } else {
        serial
    }
}

/// Stops the backends of the given modes: the serial backend forgets
/// its trackers, the Bluetooth backend its supervisor and its devices.
pub fn stop_connection(ble: &mut BleState, serial: &mut SerialRegistry, modes: &Vec<String>) -> (r:
    StopPlan)
    requires
        old(serial).wf(),
    ensures
        final(serial).wf(),
        old(ble)@.wf() ==> final(ble)@.wf(),
        final(ble)@ == ble_after_stop(old(ble)@, texts(modes@)),
        final(serial)@ == serial_after_stop(old(serial)@, texts(modes@)),
        r.serial == texts(modes@).contains("serial"@),
        r.ble == texts(modes@).contains("ble"@),
        r.cancel_supervisor == if r.ble {
            old(ble)@.supervisor
        } else {
            None
        },
{
    let stop_serial = has_text(modes, "serial");
    let stop_ble = has_text(modes, "ble");
    if stop_serial {
        serial.clear();
    }
    let mut cancel_supervisor = None;
    if stop_ble {
        stop_scanning(ble);
        cancel_supervisor = stop_connections(ble);
    }
    StopPlan { serial: stop_serial, ble: stop_ble, cancel_supervisor }
}

/// The registry of interpreters after the models were stopped one by
/// one, up to the first name that is no model's, which is refused with
/// `NoInterpreter`.
pub open spec fn after_stops(set: InterpretersView, models: Seq<Seq<char>>) -> (
    InterpretersView,
    Result<(), ErrorKind>,
)
    decreases models.len(),
{
    if models.len() == 0 {
        (set, Ok(()))
    } else {
        let first = stop_outcome(set, models[0]);
        match first.1 {
            Ok(()) => after_stops(first.0, models.drop_first()),
            Err(e) => (first.0, Err(e)),
        }
    }
}

/// Ends a stop command once the backends are stopped: the given models
/// are not interpreted any more, status watchers end, and the registry
/// of emulated trackers is emptied. Returns the names of the trackers to
/// shut down. A name that is no model's is refused with `NoInterpreter`
/// and leaves the registry as it is.
pub fn connection_stopped(
    set: &mut Interpreters,
    registry: &mut TrackerRegistry,
    models: &Vec<String>,
) -> (r: Result<Vec<String>, ErrorKind>)
    ensures
        old(set)@.wf() ==> final(set)@.wf(),
        final(set)@ == after_stops(old(set)@, texts(models@)).0,
        r is Ok <==> after_stops(old(set)@, texts(models@)).1 is Ok,
        r matches Err(e) ==> after_stops(old(set)@, texts(models@)).1 == Err::<(), ErrorKind>(e)
            && final(registry)@ == old(registry)@ && final(registry).watching() == old(
            registry,
        ).watching(),
        r matches Ok(names) ==> final(registry)@ == Map::<Seq<char>, bool>::empty()
            && !final(registry).watching() && texts(names@).no_duplicates() && texts(
            names@,
        ).to_set() == live_names(old(registry)@),
{
    let ghost all = texts(models@);
    let mut i: usize = 0;
    assert(all.skip(0) =~= all);
    while i < models.len()
        invariant
            i <= models.len(),
            all == texts(models@),
            after_stops(old(set)@, all) == after_stops(set@, all.skip(i as int)),
            old(set)@.wf() ==> set@.wf(),
            registry@ == old(registry)@,
            registry.watching() == old(registry).watching(),
        decreases models.len() - i,
    {
        proof {
            assert(all.skip(i as int)[0] == models@[i as int]@);
            assert(all.skip(i as int).drop_first() =~= all.skip(i + 1));
        }
        match stop_interpreting(set, models[i].as_str()) {
            Ok(()) => {},
            Err(e) => {
                return Err(e);
            },
        }
        i += 1;
    }
    Ok(clear_trackers(registry))
}

/// What a cleanup asks of the caller.
#[derive(Debug, PartialEq, Eq)]
pub struct CleanupPlan {
    /// The token of the Bluetooth supervisor to cancel.
    pub cancel_supervisor: Option<u64>,
    /// The names of the emulated trackers to shut down.
    pub shut_down: Vec<String>,
}

/// Stops everything: both backends, the status watchers and every
/// emulated tracker.
pub fn cleanup_connections(
    ble: &mut BleState,
    serial: &mut SerialRegistry,
    registry: &mut TrackerRegistry,
) -> (r: CleanupPlan)
    ensures
        final(serial)@ == Seq::<TrackerInfoView>::empty(),
        final(serial).wf(),
        old(ble)@.wf() ==> final(ble)@.wf(),
        final(ble)@ == (BleView { scanning: false, ..stopped(old(ble)@) }),
        final(registry)@ == Map::<Seq<char>, bool>::empty(),
        !final(registry).watching(),
        r.cancel_supervisor == old(ble)@.supervisor,
        texts(r.shut_down@).no_duplicates(),
        texts(r.shut_down@).to_set() == live_names(old(registry)@),
{
    serial.clear();
    stop_scanning(ble);
    let cancel_supervisor = stop_connections(ble);
    let shut_down = clear_trackers(registry);
    CleanupPlan { cancel_supervisor, shut_down }
}

/// After the Bluetooth backend was stopped by a stop command, nothing
/// is connected and no supervisor is in charge.
pub proof fn lemma_stop_disconnects(ble: BleView, modes: Seq<Seq<char>>)
    requires
        modes.contains("ble"@),
    ensures
        ble_after_stop(ble, modes).connected.len() == 0,
        ble_after_stop(ble, modes).supervisor is None,
        !ble_after_stop(ble, modes).scanning,
{
}

} // verus!
