//! The Bluetooth backend: what was discovered, what is connected, and
//! the supervisor that keeps paired trackers connected.
//!
//! The backend's state is a value of [`BleState`]. Scanning, connecting
//! and subscribing are the caller's work; the functions here decide what
//! is to be done and take note of how it went.

use crate::bindings::hex_encode;
use crate::bindings::hex_text;
use crate::bindings::uuid_parsed;
use crate::decoders::assignment_label;
use crate::decoders::get_assignment_by_id;
use crate::text::slice_text;
use crate::dispatch::device_model;
use crate::dispatch::model_of_device;
use crate::error::ErrorKind;
use crate::gatt::characteristic_table;
use crate::gatt::characteristic_views;
use crate::gatt::subscribable_among;
use crate::gatt::subscribable_characteristics;
use crate::gatt::CharacteristicView;
use crate::model::TrackerModel;
use crate::search::first_where;
use crate::search::lemma_first_where_is;
use crate::text::texts;
use crate::text::chars_of;
use crate::text::same_text;
use crate::util::long_form;
use crate::util::normalize_uuid;
use vstd::prelude::*;

verus! {

/// How long a scan lasts unless told otherwise, in milliseconds.
pub const DEFAULT_SCAN_MS: u64 = 5000;

/// How long a scan of the supervisor lasts, in milliseconds.
pub const SUPERVISOR_SCAN_MS: u64 = 3000;

/// The time between two scans of the supervisor, in milliseconds.
pub const SCAN_TICK_MS: u64 = 3500;

/// The time between two rounds of connection attempts, in milliseconds.
pub const RECONNECT_TICK_MS: u64 = 5000;

/// How long the backend rests after it has stopped, in milliseconds.
pub const SETTLE_MS: u64 = 100;

/// The vendor's Tracker Service, `00dbec3a-90aa-11ed-a1eb-0242ac120002`.
pub const TRACKER_SERVICE: u128 = 0x00dbec3a_90aa_11ed_a1eb_0242ac120002;

/// The vendor's Setting Service, `ef84369a-90a9-11ed-a1eb-0242ac120002`.
pub const SETTING_SERVICE: u128 = 0xef84369a_90a9_11ed_a1eb_0242ac120002;

/// What a scan tells of a device.
#[derive(Debug, PartialEq, Eq)]
pub struct Advertisement {
    pub name: String,
    pub address: String,
    /// Received signal strength.
    pub rssi: Option<i16>,
    /// The 128-bit values of the advertised service UUIDs.
    pub services: Vec<u128>,
}

/// The mathematical content of an [`Advertisement`].
pub struct AdvertisementView {
    pub name: Seq<char>,
    pub address: Seq<char>,
    pub rssi: Option<i16>,
    pub services: Seq<u128>,
}

impl View for Advertisement {
    type V = AdvertisementView;

    open spec fn view(&self) -> AdvertisementView {
        AdvertisementView {
            name: self.name@,
            address: self.address@,
            rssi: self.rssi,
            services: self.services@,
        }
    }
}

/// A tracker that a scan has found.
#[derive(Debug, PartialEq, Eq)]
pub struct TrackerDevice {
    pub device_name: String,
    pub mac_address: String,
    /// The model, where the name tells it.
    pub tracker_type: Option<TrackerModel>,
    /// Received signal strength.
    pub rssi: Option<i16>,
}

/// The mathematical content of a [`TrackerDevice`].
pub struct TrackerDeviceView {
    pub device_name: Seq<char>,
    pub mac_address: Seq<char>,
    pub tracker_type: Option<TrackerModel>,
    pub rssi: Option<i16>,
}

impl View for TrackerDevice {
    type V = TrackerDeviceView;

    open spec fn view(&self) -> TrackerDeviceView {
        TrackerDeviceView {
            device_name: self.device_name@,
            mac_address: self.mac_address@,
            tracker_type: self.tracker_type,
            rssi: self.rssi,
        }
    }
}

impl Clone for TrackerDevice {
    fn clone(&self) -> (r: Self)
        ensures
            r@ == self@,
    {
        TrackerDevice {
            device_name: self.device_name.clone(),
            mac_address: self.mac_address.clone(),
            tracker_type: self.tracker_type,
            rssi: self.rssi,
        }
    }
}

/// The content of a list of advertisements.
pub open spec fn advertisement_views(adverts: Seq<Advertisement>) -> Seq<AdvertisementView> {
    adverts.map_values(|a: Advertisement| a@)
}

/// The content of a list of devices.
pub open spec fn device_views(devices: Seq<TrackerDevice>) -> Seq<TrackerDeviceView> {
    devices.map_values(|d: TrackerDevice| d@)
}

/// Whether an advertisement is a tracker's: its name begins like that of
/// a HaritoraX model, or it advertises the Setting Service.
pub open spec fn is_tracker(advert: AdvertisementView) -> bool {
    device_model(advert.name) is Some || advert.services.contains(SETTING_SERVICE)
}

/// The device that an advertisement tells of.
pub open spec fn device_of(advert: AdvertisementView) -> TrackerDeviceView {
    TrackerDeviceView {
        device_name: advert.name,
        mac_address: advert.address,
        tracker_type: device_model(advert.name),
        rssi: advert.rssi,
    }
}

/// The trackers among the devices that a scan has found, in the scan's
/// order.
pub open spec fn trackers_among(adverts: Seq<AdvertisementView>) -> Seq<TrackerDeviceView>
    decreases adverts.len(),
{
    if adverts.len() == 0 {
        Seq::empty()
    } else {
        let before = trackers_among(adverts.drop_last());
        if is_tracker(adverts.last()) {
            before.push(device_of(adverts.last()))
        } else {
            before
        }
    }
}

fn advertises(services: &Vec<u128>, service: u128) -> (r: bool)
    ensures
        r == services@.contains(service),
{
    let mut i: usize = 0;
    while i < services.len()
        invariant
            i <= services.len(),
            forall|k: int| 0 <= k < i ==> services@[k] != service,
        decreases services.len() - i,
    {
        if services[i] == service {
            return true;
        }
        i += 1;
    }
    false
}

/// Picks the trackers out of what a scan has found.
pub fn filter_devices(adverts: &Vec<Advertisement>) -> (r: Vec<TrackerDevice>)
    ensures
        device_views(r@) == trackers_among(advertisement_views(adverts@)),
{
    let mut devices: Vec<TrackerDevice> = Vec::new();
    let ghost all = advertisement_views(adverts@);
    assert(all.take(0) =~= Seq::<AdvertisementView>::empty());
    assert(device_views(devices@) =~= Seq::<TrackerDeviceView>::empty());
    let mut i: usize = 0;
    while i < adverts.len()
        invariant
            i <= adverts.len(),
            all == advertisement_views(adverts@),
            device_views(devices@) == trackers_among(all.take(i as int)),
        decreases adverts.len() - i,
    {
        proof {
            assert(all.take(i + 1).drop_last() =~= all.take(i as int));
            assert(all.take(i + 1).last() == adverts@[i as int]@);
        }
        let advert = &adverts[i];
        let tracker_type = model_of_device(advert.name.as_str());
        if tracker_type.is_some() || advertises(&advert.services, SETTING_SERVICE) {
            let device = TrackerDevice {
                device_name: advert.name.clone(),
                mac_address: advert.address.clone(),
                tracker_type,
                rssi: advert.rssi,
            };
            let ghost before = device_views(devices@);
            devices.push(device);
            assert(device_views(devices@) =~= before.push(device@));
        }
        i += 1;
    }
    assert(all.take(i as int) =~= all);
    devices
}

/// The supervisor that is in charge.
#[derive(Debug, PartialEq, Eq)]
pub struct Supervisor {
    /// The token that tells this supervisor from those before it.
    pub token: u64,
    /// The addresses of the devices to keep connected.
    pub paired: Vec<String>,
}

/// The state of the Bluetooth backend.
#[derive(Debug, PartialEq, Eq)]
pub struct BleState {
    /// The trackers found by the last scan.
    pub discovered_devices: Vec<TrackerDevice>,
    /// The addresses of the connected devices.
    pub connected_devices: Vec<String>,
    /// Whether a scan is running.
    pub scanning: bool,
    /// The supervisor in charge, if there is one.
    pub supervisor: Option<Supervisor>,
    /// The token of the last supervisor that was started.
    pub last_token: u64,
}

/// The mathematical content of a [`BleState`].
pub struct BleView {
    pub discovered: Seq<TrackerDeviceView>,
    pub connected: Seq<Seq<char>>,
    pub scanning: bool,
    /// The token of the supervisor in charge.
    pub supervisor: Option<u64>,
    /// The addresses that the supervisor keeps connected.
    pub paired: Seq<Seq<char>>,
    pub last_token: u64,
}

impl View for BleState {
    type V = BleView;

    open spec fn view(&self) -> BleView {
        BleView {
            discovered: device_views(self.discovered_devices@),
            connected: texts(self.connected_devices@),
            scanning: self.scanning,
            supervisor: match self.supervisor {
                Some(s) => Some(s.token),
                None => None,
            },
            paired: match self.supervisor {
                Some(s) => texts(s.paired@),
                None => Seq::empty(),
            },
            last_token: self.last_token,
        }
    }
}

impl BleView {
    /// The supervisor in charge, if there is one, is the last that was
    /// started: its token is the last token handed out.
    pub open spec fn wf(self) -> bool {
        self.supervisor matches Some(token) ==> token == self.last_token
    }
}

/// The state of a backend that has done nothing yet.
pub open spec fn idle() -> BleView {
    BleView {
        discovered: Seq::empty(),
        connected: Seq::empty(),
        scanning: false,
        supervisor: None,
        paired: Seq::empty(),
        last_token: 0,
    }
}

/// The state and the answer after a scan was asked for: a scan that is
/// running already refuses another with `ScanAlreadyRunning`; otherwise
/// the scan runs from now on, for the given time or, by default, for
/// [`DEFAULT_SCAN_MS`].
pub open spec fn scan_started(state: BleView, timeout: Option<u64>) -> (
    BleView,
    Result<u64, ErrorKind>,
) {
    if state.scanning {
        (state, Err(ErrorKind::ScanAlreadyRunning))
    } else {
        (
            BleView { scanning: true, ..state },
            Ok(
                match timeout {
                    Some(ms) => ms,
                    None => DEFAULT_SCAN_MS,
                },
            ),
        )
    }
}

/// The state after a scan has ended with the given devices, or without
/// any if it failed: no scan runs, and the trackers among the devices
/// are what is discovered.
pub open spec fn scan_ended(state: BleView, found: Option<Seq<AdvertisementView>>) -> BleView {
    BleView {
        scanning: false,
        discovered: match found {
            Some(adverts) => trackers_among(adverts),
            None => Seq::empty(),
        },
        ..state
    }
}

/// The token after `token`.
pub open spec fn next_token(token: u64) -> u64 {
    if token == u64::MAX {
        0
    } else {
        (token + 1) as u64
    }
}

/// The state after a supervisor was started for the given addresses: it
/// has a fresh token and is the one in charge.
pub open spec fn supervisor_started(state: BleView, paired: Seq<Seq<char>>) -> BleView {
    BleView {
        supervisor: Some(next_token(state.last_token)),
        paired,
        last_token: next_token(state.last_token),
        ..state
    }
}

/// The state after the backend was stopped: no supervisor is in
/// charge, and nothing is discovered or connected.
pub open spec fn stopped(state: BleView) -> BleView {
    BleView {
        discovered: Seq::empty(),
        connected: Seq::empty(),
        supervisor: None,
        paired: Seq::empty(),
        ..state
    }
}

/// The addresses of `paired` that are not connected, in the order of
/// `paired`.
pub open spec fn unconnected(paired: Seq<Seq<char>>, connected: Seq<Seq<char>>) -> Seq<Seq<char>>
    decreases paired.len(),
{
    if paired.len() == 0 {
        Seq::empty()
    } else {
        let before = unconnected(paired.drop_last(), connected);
        if connected.contains(paired.last()) {
            before
        } else {
            before.push(paired.last())
        }
    }
}

/// The list without its element at `at`.
pub open spec fn without_at(list: Seq<Seq<char>>, at: int) -> Seq<Seq<char>> {
    list.subrange(0, at) + list.subrange(at + 1, list.len() as int)
}

/// The connected addresses after a device was lost: the first
/// occurrence of its address is gone.
pub open spec fn after_loss(connected: Seq<Seq<char>>, mac: Seq<char>) -> Seq<Seq<char>> {
    match first_where(connected, |a: Seq<char>| a == mac) {
        Some(at) => without_at(connected, at),
        None => connected,
    }
}

/// What the beginning of a supervisor asks of the caller.
#[derive(Debug, Clone, Copy, PartialEq, Eq, Structural)]
pub struct SupervisorStart {
    /// The token of the supervisor to cancel, if one was in charge.
    pub cancel: Option<u64>,
    /// The token of the new supervisor.
    pub token: u64,
}

fn find_text(list: &Vec<String>, text: &str) -> (r: Option<usize>)
    ensures
        r matches Some(at) ==> first_where(texts(list@), |a: Seq<char>| a == text@) == Some(
            at as int,
        ) && at < list.len(),
        r is None ==> first_where(texts(list@), |a: Seq<char>| a == text@) is None,
        r is Some <==> texts(list@).contains(text@),
{
    let ghost same = |a: Seq<char>| a == text@;
    let mut at: usize = 0;
    while at < list.len()
        invariant
            at <= list.len(),
            forall|k: int| 0 <= k < at ==> !same(#[trigger] texts(list@)[k]),
            same == (|a: Seq<char>| a == text@),
        ensures
            at < list.len() ==> same(texts(list@)[at as int]),
        decreases list.len() - at,
    {
        if same_text(list[at].as_str(), text) {
            break;
        }
        at += 1;
    }
    proof {
        lemma_first_where_is(texts(list@), same, at as int);
    }
    if at < list.len() {
        assert(texts(list@)[at as int] == text@);
        Some(at)
    } else {
        assert forall|k: int| 0 <= k < texts(list@).len() implies texts(list@)[k] != text@ by {
            assert(!same(texts(list@)[k]));
        }
        None
    }
}

impl BleState {
    /// The state of a backend that has done nothing yet.
    pub fn new() -> (r: Self)
        ensures
            r@.wf(),
            r@ == idle(),
    {
        let r = BleState {
            discovered_devices: Vec::new(),
            connected_devices: Vec::new(),
            scanning: false,
            supervisor: None,
            last_token: 0,
        };
        assert(device_views(r.discovered_devices@) =~= Seq::empty());
        assert(texts(r.connected_devices@) =~= Seq::empty());
        r
    }

    /// Whether the supervisor with `token` is the one in charge. A
    /// supervisor that is not stops.
    pub fn in_charge(&self, token: u64) -> (r: bool)
        ensures
            r == (self@.supervisor == Some(token)),
    {
        match &self.supervisor {
            Some(s) => s.token == token,
            None => false,
        }
    }

    /// Whether the device with the address `mac` is connected.
    pub fn is_connected(&self, mac: &str) -> (r: bool)
        ensures
            r == self@.connected.contains(mac@),
    {
        find_text(&self.connected_devices, mac).is_some()
    }

    /// The name under which the device with the address `mac` was
    /// discovered: that of the first such device.
    pub fn device_name(&self, mac: &str) -> (r: Option<String>)
        ensures
            match first_where(self@.discovered, |d: TrackerDeviceView| d.mac_address == mac@) {
                Some(at) => r matches Some(name) && name@ == self@.discovered[at].device_name,
                None => r is None,
            },
    {
        let ghost here = |d: TrackerDeviceView| d.mac_address == mac@;
        let mut at: usize = 0;
        while at < self.discovered_devices.len()
            invariant
                at <= self.discovered_devices.len(),
                forall|k: int| 0 <= k < at ==> !here(#[trigger] self@.discovered[k]),
                here == (|d: TrackerDeviceView| d.mac_address == mac@),
            ensures
                at < self.discovered_devices.len() ==> here(self@.discovered[at as int]),
            decreases self.discovered_devices.len() - at,
        {
            if same_text(self.discovered_devices[at].mac_address.as_str(), mac) {
                break;
            }
            at += 1;
        }
        proof {
            lemma_first_where_is(self@.discovered, here, at as int);
        }
        if at < self.discovered_devices.len() {
            Some(self.discovered_devices[at].device_name.clone())
        } else {
            None
        }
    }
}

/// Asks for a scan that lasts `timeout` milliseconds. Returns how long
/// the caller is to scan.
pub fn start_scanning(state: &mut BleState, timeout: Option<u64>) -> (r: Result<u64, ErrorKind>)
    ensures
        old(state)@.wf() ==> final(state)@.wf(),
        final(state)@ == scan_started(old(state)@, timeout).0,
        r == scan_started(old(state)@, timeout).1,
{
    if state.scanning {
        return Err(ErrorKind::ScanAlreadyRunning);
    }
    state.scanning = true;
    Ok(
        match timeout {
            Some(ms) => ms,
            None => DEFAULT_SCAN_MS,
        },
    )
}

/// What an optional list of advertisements holds.
pub open spec fn found_views(found: Option<Vec<Advertisement>>) -> Option<Seq<AdvertisementView>> {
    match found {
        Some(adverts) => Some(advertisement_views(adverts@)),
        None => None,
    }
}

/// Takes note of the end of a scan: `found` holds what it found, or
/// nothing if it failed. Returns the trackers that are discovered now.
pub fn scan_finished(state: &mut BleState, found: Option<Vec<Advertisement>>) -> (r: Vec<
    TrackerDevice,
>)
    ensures
        old(state)@.wf() ==> final(state)@.wf(),
        final(state)@ == scan_ended(old(state)@, found_views(found)),
        device_views(r@) == final(state)@.discovered,
{
    state.scanning = false;
    let devices = match found {
        Some(adverts) => filter_devices(&adverts),
        None => {
            let none: Vec<TrackerDevice> = Vec::new();
            assert(device_views(none@) =~= Seq::empty());
            none
        },
    };
    let mut copy: Vec<TrackerDevice> = Vec::new();
    assert(device_views(copy@) =~= device_views(devices@).take(0));
    let mut i: usize = 0;
    while i < devices.len()
        invariant
            i <= devices.len(),
            device_views(copy@) == device_views(devices@).take(i as int),
        decreases devices.len() - i,
    {
        let ghost before = device_views(copy@);
        let device = devices[i].clone();
        copy.push(device);
        assert(device_views(copy@) =~= before.push(device@));
        assert(device_views(devices@).take(i + 1) =~= device_views(devices@).take(i as int).push(
            devices@[i as int]@,
        ));
        i += 1;
    }
    assert(device_views(devices@).take(i as int) =~= device_views(devices@));
    state.discovered_devices = devices;
    copy
}

/// Stops scanning: no scan runs and nothing is discovered any more.
pub fn stop_scanning(state: &mut BleState)
    ensures
        old(state)@.wf() ==> final(state)@.wf(),
        final(state)@ == scan_ended(old(state)@, None),
{
    state.scanning = false;
    state.discovered_devices = Vec::new();
    assert(device_views(state.discovered_devices@) =~= Seq::empty());
}

/// Takes note of what a scan of the supervisor has found: the trackers
/// among it are what is discovered now.
pub fn scan_tick(state: &mut BleState, found: Vec<Advertisement>)
    ensures
        old(state)@.wf() ==> final(state)@.wf(),
        final(state)@ == (BleView {
            discovered: trackers_among(advertisement_views(found@)),
            ..old(state)@
        }),
{
    state.discovered_devices = filter_devices(&found);
}

/// Starts a supervisor that keeps the devices with the given addresses
/// connected. The supervisor that was in charge, if any, is to be
/// cancelled.
pub fn start_connections(state: &mut BleState, mac_addresses: Vec<String>) -> (r: SupervisorStart)
    ensures
        final(state)@.wf(),
        old(state)@.wf() ==> r.cancel != Some(r.token),
        final(state)@ == supervisor_started(old(state)@, texts(mac_addresses@)),
        r.cancel == old(state)@.supervisor,
        r.token == next_token(old(state)@.last_token),
{
    let cancel = match &state.supervisor {
        Some(s) => Some(s.token),
        None => None,
    };
    let token = if state.last_token == u64::MAX {
        0
    } else {
        state.last_token + 1
    };
    state.last_token = token;
    state.supervisor = Some(Supervisor { token, paired: mac_addresses });
    SupervisorStart { cancel, token }
}

/// Tells the addresses that the supervisor is to connect to in this
/// round: the paired devices that are not connected.
pub fn reconnect_targets(state: &BleState) -> (r: Vec<String>)
    ensures
        texts(r@) == unconnected(state@.paired, state@.connected),
{
    let mut targets: Vec<String> = Vec::new();
    assert(texts(targets@) =~= Seq::empty());
    match &state.supervisor {
        None => targets,
        Some(supervisor) => {
            let ghost paired = texts(supervisor.paired@);
            assert(paired.take(0) =~= Seq::<Seq<char>>::empty());
            let mut i: usize = 0;
            while i < supervisor.paired.len()
                invariant
                    i <= supervisor.paired.len(),
                    paired == texts(supervisor.paired@),
                    texts(targets@) == unconnected(paired.take(i as int), state@.connected),
                decreases supervisor.paired.len() - i,
            {
                proof {
                    assert(paired.take(i + 1).drop_last() =~= paired.take(i as int));
                    assert(paired.take(i + 1).last() == supervisor.paired@[i as int]@);
                }
                if !state.is_connected(supervisor.paired[i].as_str()) {
                    let ghost before = texts(targets@);
                    let mac = supervisor.paired[i].clone();
                    targets.push(mac);
                    assert(texts(targets@) =~= before.push(mac@));
                }
                i += 1;
            }
            assert(paired.take(i as int) =~= paired);
            targets
        },
    }
}

/// Takes note that the device with the address `mac` is connected.
pub fn device_connected(state: &mut BleState, mac: &str)
    ensures
        old(state)@.wf() ==> final(state)@.wf(),
        final(state)@ == (BleView { connected: old(state)@.connected.push(mac@), ..old(state)@ }),
{
    let owned = String::from_str(mac);
    state.connected_devices.push(owned);
    assert(texts(state.connected_devices@) =~= texts(old(state).connected_devices@).push(mac@));
}

/// Takes note that the device with the address `mac` was lost. Returns
/// whether it was connected; if so, the `disconnect` event is due.
pub fn handle_device_disconnect(state: &mut BleState, mac: &str) -> (r: bool)
    ensures
        old(state)@.wf() ==> final(state)@.wf(),
        final(state)@ == (BleView {
            connected: after_loss(old(state)@.connected, mac@),
            ..old(state)@
        }),
        r == old(state)@.connected.contains(mac@),
{
    match find_text(&state.connected_devices, mac) {
        Some(at) => {
            state.connected_devices.remove(at);
            assert(texts(state.connected_devices@) =~= without_at(
                texts(old(state).connected_devices@),
                at as int,
            ));
            true
        },
        None => false,
    }
}

/// Stops the backend. Returns the token of the supervisor to cancel, if
/// one was in charge; the caller disconnects every device and rests for
/// [`SETTLE_MS`].
pub fn stop_connections(state: &mut BleState) -> (r: Option<u64>)
    ensures
        old(state)@.wf() ==> final(state)@.wf(),
        final(state)@ == stopped(old(state)@),
        r == old(state)@.supervisor,
{
    let cancel = match &state.supervisor {
        Some(s) => Some(s.token),
        None => None,
    };
    state.supervisor = None;
    state.connected_devices = Vec::new();
    state.discovered_devices = Vec::new();
    assert(device_views(state.discovered_devices@) =~= Seq::empty());
    assert(texts(state.connected_devices@) =~= Seq::empty());
    cancel
}

/// The identifier of a body part as a device reports it: the bytes in
/// hexadecimal, a single byte below 16 as one digit.
pub open spec fn assignment_id(bytes: Seq<u8>) -> Seq<char> {
    let digits = hex_text(bytes);
    if digits.len() == 2 && digits[0] == '0' {
        digits.subrange(1, 2)
    } else {
        digits
    }
}

/// The body part that a device reports in its assignment
/// characteristic; none where it reports no bytes.
pub open spec fn assignment_in(bytes: Seq<u8>) -> Option<Seq<char>> {
    if bytes.len() == 0 {
        None
    } else {
        assignment_label(assignment_id(bytes))
    }
}

/// Reads the body part off the bytes of the assignment characteristic.
pub fn assignment_from_bytes(bytes: &[u8]) -> (r: Option<&'static str>)
    ensures
        slice_text(r) == assignment_in(bytes@),
{
    if bytes.len() == 0 {
        return None;
    }
    let digits = hex_encode(bytes);
    let chars = chars_of(digits.as_str());
    if chars.len() == 2 && chars[0] == '0' {
        get_assignment_by_id(digits.as_str().substring_char(1, 2))
    } else {
        get_assignment_by_id(digits.as_str())
    }
}

/// The body part under which a connected device is announced: the one
/// that its assignment characteristic reports, and none, the empty
/// text, where the characteristic could not be read or reports none.
pub open spec fn announced_assignment(read: Option<Seq<u8>>) -> Seq<char> {
    match read {
        Some(bytes) => match assignment_in(bytes) {
            Some(label) => label,
            None => Seq::empty(),
        },
        None => Seq::empty(),
    }
}

/// What an optional byte slice holds.
pub open spec fn bytes_of(read: Option<&[u8]>) -> Option<Seq<u8>> {
    match read {
        Some(bytes) => Some(bytes@),
        None => None,
    }
}

/// Resolves the body part of a device that has just been connected from
/// what was read off its assignment characteristic, if anything.
pub fn resolve_assignment(read: Option<&[u8]>) -> (r: &'static str)
    ensures
        r@ == announced_assignment(bytes_of(read)),
{
    let label = match read {
        Some(bytes) => assignment_from_bytes(bytes),
        None => None,
    };
    match label {
        Some(label) => label,
        None => {
            let nothing = "";
            proof {
                reveal_strlit("");
            }
            assert(nothing@ =~= Seq::<char>::empty());
            nothing
        },
    }
}

/// A characteristic to subscribe to.
#[derive(Debug, Clone, Copy, PartialEq, Eq)]
pub struct Subscription {
    /// The 128-bit value of the characteristic's UUID.
    pub uuid: u128,
    /// The name under which its notifications are interpreted.
    pub name: &'static str,
}

/// The mathematical content of a [`Subscription`].
pub struct SubscriptionView {
    pub uuid: u128,
    pub name: Seq<char>,
}

impl View for Subscription {
    type V = SubscriptionView;

    open spec fn view(&self) -> SubscriptionView {
        SubscriptionView { uuid: self.uuid, name: self.name@ }
    }
}

/// The content of a list of subscriptions.
pub open spec fn subscription_views(list: Seq<Subscription>) -> Seq<SubscriptionView> {
    list.map_values(|s: Subscription| s@)
}

/// The subscriptions for the given characteristics, in their order; none
/// at all if the UUID of one of them does not parse.
pub open spec fn subscriptions_for(list: Seq<CharacteristicView>) -> Option<Seq<SubscriptionView>>
    decreases list.len(),
{
    if list.len() == 0 {
        Some(Seq::empty())
    } else {
        match (subscriptions_for(list.drop_last()), uuid_parsed(long_form(list.last().uuid))) {
            (Some(before), Some(uuid)) => Some(
                before.push(SubscriptionView { uuid, name: list.last().name }),
            ),
            _ => None,
        }
    }
}

/// What a result with a list of subscriptions holds.
pub open spec fn plan_views(r: Result<Vec<Subscription>, ErrorKind>) -> Result<
    Seq<SubscriptionView>,
    ErrorKind,
> {
    match r {
        Ok(list) => Ok(subscription_views(list@)),
        Err(e) => Err(e),
    }
}

/// What `setup_notifications` returns, given the subscriptions for the
/// subscribable characteristics: `InvalidUuid` where there are none.
pub open spec fn notification_plan(subscriptions: Option<Seq<SubscriptionView>>) -> Result<
    Seq<SubscriptionView>,
    ErrorKind,
> {
    match subscriptions {
        Some(list) => Ok(list),
        None => Err(ErrorKind::InvalidUuid),
    }
}

/// Tells the characteristics to subscribe to once a device is
/// connected: the subscribable ones of the table, each with the value of
/// its UUID.
pub fn setup_notifications() -> (r: Result<Vec<Subscription>, ErrorKind>)
    ensures
        plan_views(r) == notification_plan(
            subscriptions_for(subscribable_among(characteristic_table())),
        ),
{
    let chosen = subscribable_characteristics();
    let ghost all = characteristic_views(chosen@);
    let mut plan: Vec<Subscription> = Vec::new();
    assert(all.take(0) =~= Seq::<CharacteristicView>::empty());
    assert(subscription_views(plan@) =~= Seq::<SubscriptionView>::empty());
    let mut i: usize = 0;
    while i < chosen.len()
        invariant
            i <= chosen.len(),
            all == characteristic_views(chosen@),
            all == subscribable_among(characteristic_table()),
            subscriptions_for(all.take(i as int)) == Some(subscription_views(plan@)),
        decreases chosen.len() - i,
    {
        proof {
            assert(all.take(i + 1).drop_last() =~= all.take(i as int));
            assert(all.take(i + 1).last() == chosen@[i as int]@);
        }
        match normalize_uuid(chosen[i].uuid) {
            Ok(uuid) => {
                let ghost before = subscription_views(plan@);
                let subscription = Subscription { uuid, name: chosen[i].name };
                plan.push(subscription);
                assert(subscription_views(plan@) =~= before.push(subscription@));
            },
            Err(_) => {
                proof {
                    assert(uuid_parsed(long_form(all.take(i + 1).last().uuid)) is None);
                    assert(subscriptions_for(all.take(i + 1)) is None);
                    lemma_subscriptions_prefix(all, i + 1);
                }
                return Err(ErrorKind::InvalidUuid);
            },
        }
        i += 1;
    }
    assert(all.take(i as int) =~= all);
    Ok(plan)
}

/// There are no subscriptions for a list once there are none for one of
/// its prefixes.
proof fn lemma_subscriptions_prefix(list: Seq<CharacteristicView>, n: int)
    requires
        0 <= n <= list.len(),
        subscriptions_for(list.take(n)) is None,
    ensures
        subscriptions_for(list) is None,
    decreases list.len() - n,
{
    if n < list.len() {
        assert(list.take(n + 1).drop_last() =~= list.take(n));
        lemma_subscriptions_prefix(list, n + 1);
    } else {
        assert(list.take(n) =~= list);
    }
}

/// The name under which a device's notifications are interpreted: the
/// name it was discovered under, or else its address.
pub fn notification_source<'a>(device_name: Option<&'a str>, mac: &'a str) -> (r: &'a str)
    ensures
        r@ == match device_name {
            Some(name) => name@,
            None => mac@,
        },
{
    match device_name {
        Some(name) => name,
        None => mac,
    }
}

/// A scan asked for while another one runs is refused: of two requests
/// in a row, the second returns `ScanAlreadyRunning`.
pub proof fn lemma_second_scan_refused(state: BleView, first: Option<u64>, second: Option<u64>)
    requires
        scan_started(state, first).1 is Ok,
    ensures
        scan_started(scan_started(state, first).0, second).1 == Err::<u64, ErrorKind>(
            ErrorKind::ScanAlreadyRunning,
        ),
{
}

/// Starting a supervisor twice leaves exactly the second in charge: the
/// second start asks to cancel the first, the tokens differ, and only
/// the second token is the state's. Whatever the state before, the state
/// after a start is well formed, and from a well-formed state the token
/// handed out differs from the one to cancel.
pub proof fn lemma_supervisor_replaced(state: BleView, first: Seq<Seq<char>>, second: Seq<Seq<char>>)
    ensures
        ({
            let once = supervisor_started(state, first);
            let twice = supervisor_started(once, second);
            &&& once.wf()
            &&& twice.wf()
            &&& once.supervisor is Some
            &&& twice.supervisor is Some
            &&& twice.supervisor != once.supervisor
            &&& twice.paired == second
            &&& state.wf() ==> once.supervisor != state.supervisor
        }),
{
}

/// Every step of the backend keeps the state well formed.
pub proof fn lemma_backend_stays_well_formed(
    state: BleView,
    timeout: Option<u64>,
    found: Option<Seq<AdvertisementView>>,
    mac: Seq<char>,
)
    requires
        state.wf(),
    ensures
        idle().wf(),
        scan_started(state, timeout).0.wf(),
        scan_ended(state, found).wf(),
        stopped(state).wf(),
        (BleView { connected: state.connected.push(mac), ..state }).wf(),
        (BleView { connected: after_loss(state.connected, mac), ..state }).wf(),
{
}

/// After a stop nothing is connected and no supervisor is in charge.
pub proof fn lemma_stop_clears(state: BleView)
    ensures
        stopped(state).connected.len() == 0,
        stopped(state).discovered.len() == 0,
        stopped(state).supervisor is None,
{
}

} // verus!
