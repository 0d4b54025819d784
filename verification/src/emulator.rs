//! The registry of emulated SlimeVR trackers.
//!
//! Every physical sensor is mirrored by one emulated tracker, kept under
//! the sensor's name. A name goes through two states: *claimed*, while
//! the tracker is being created and initialized, and *live*, once its
//! handle exists. The registry decides; creating, driving and tearing
//! down the tracker itself is the caller's work.

use crate::error::ErrorKind;
use crate::tables::slot_table;
use crate::tables::slots_clear;
use crate::tables::slots_get;
use crate::tables::slots_insert;
use crate::tables::slots_keys;
use crate::tables::slots_new;
use crate::tables::slots_remove;
use crate::text::texts;
use vstd::prelude::*;

verus! {

/// The UDP port of a SlimeVR server.
pub const SERVER_PORT: u16 = 6969;

/// The sensor of an emulated tracker that stands for the physical one.
pub const SENSOR_ID: u8 = 0;

/// How an emulated tracker is to be set up.
#[derive(Debug, Clone, Copy, PartialEq, Eq)]
pub struct TrackerSetup {
    /// The six bytes that the tracker's hardware address is made from.
    pub mac_seed: [u8; 6],
    /// The address that handshakes are sent to.
    pub server_address: [u8; 4],
    pub server_port: u16,
    /// What is added to the tracker's clock, in milliseconds.
    pub time_offset: u32,
    /// Whether packets are to be sent without acknowledgement.
    pub unreliable: bool,
    /// Whether the tracker's status is to be watched. It is while a
    /// heartbeat runs.
    pub watch_status: bool,
}

/// The registry of emulated trackers.
pub struct TrackerRegistry {
    slots: dashmap::DashMap<String, bool>,
    /// Whether status watchers may run: set by the heartbeat, cleared by
    /// a cancellation.
    watching: bool,
}

/// The name of the tracker that shows the server that the bridge is
/// there.
pub open spec fn heartbeat_name() -> Seq<char> {
    "(HEARTBEAT)"@
}

/// The setup of a tracker with the given seed: broadcast to port 6969,
/// no clock offset, acknowledged transport.
pub open spec fn setup_for(mac_seed: [u8; 6], watch_status: bool) -> TrackerSetup {
    TrackerSetup {
        mac_seed,
        server_address: [255u8, 255u8, 255u8, 255u8],
        server_port: SERVER_PORT,
        time_offset: 0,
        unreliable: false,
        watch_status,
    }
}

/// The names of a table whose tracker is live.
pub open spec fn live_names(slots: Map<Seq<char>, bool>) -> Set<Seq<char>> {
    Set::new(|name: Seq<char>| slots.contains_key(name) && slots[name])
}

/// The name that a tracker announces as its firmware.
pub open spec fn firmware_text(version: Seq<char>) -> Seq<char> {
    "SlimeTora "@ + version
}

/// The name that a tracker announces as its firmware, for the given
/// version of the bridge.
pub fn firmware_name(version: &str) -> (r: String)
    ensures
        r@ == firmware_text(version@),
{
    String::from_str("SlimeTora ").concat(version)
}

impl TrackerRegistry {
    /// The state of every name: `false` while claimed, `true` once live.
    pub closed spec fn view(&self) -> Map<Seq<char>, bool> {
        slot_table(self.slots)
    }

    /// Whether status watchers may run.
    pub closed spec fn watching(&self) -> bool {
        self.watching
    }

    /// A registry without trackers and without a heartbeat.
    pub fn new() -> (r: Self)
        ensures
            r@ == Map::<Seq<char>, bool>::empty(),
            !r.watching(),
    {
        TrackerRegistry { slots: slots_new(), watching: false }
    }

    /// The state of `tracker_name`, if it is registered.
    pub fn slot(&self, tracker_name: &str) -> (r: Option<bool>)
        ensures
            r is Some <==> self@.contains_key(tracker_name@),
            r matches Some(live) ==> live == self@[tracker_name@],
    {
        slots_get(&self.slots, tracker_name)
    }

    /// Whether status watchers may run.
    pub fn is_watching(&self) -> (r: bool)
        ensures
            r == self.watching(),
    {
        self.watching
    }

    /// Records that the tracker claimed under `tracker_name` has been
    /// created and initialized: the name is live from now on.
    pub fn tracker_initialized(&mut self, tracker_name: &str)
        ensures
            final(self)@ == old(self)@.insert(tracker_name@, true),
            final(self).watching() == old(self).watching(),
    {
        slots_insert(&mut self.slots, String::from_str(tracker_name), true);
    }

    /// Tells whether the tracker under `tracker_name` can be sent data:
    /// `NotFound` where the name is not registered, `EmulatorFailed`
    /// where its tracker is not live yet.
    pub fn require_live(&self, tracker_name: &str) -> (r: Result<(), ErrorKind>)
        ensures
            r == live_outcome(self@, tracker_name@),
    {
        match self.slot(tracker_name) {
            Some(true) => Ok(()),
            Some(false) => Err(ErrorKind::EmulatorFailed),
            None => Err(ErrorKind::NotFound),
        }
    }
}

/// Whether a name is claimed for a tracker that is still being created.
pub open spec fn is_claimed(slots: Map<Seq<char>, bool>, name: Seq<char>) -> bool {
    slots.contains_key(name) && !slots[name]
}

/// The table after the creation of the tracker of `name` has failed: a
/// claim is released, so that a name is claimed only while its tracker
/// is being created; a live tracker stays.
pub open spec fn after_failed_creation(slots: Map<Seq<char>, bool>, name: Seq<char>) -> Map<
    Seq<char>,
    bool,
> {
    if is_claimed(slots, name) {
        slots.remove(name)
    } else {
        slots
    }
}

/// Records that the tracker claimed under `tracker_name` could not be
/// created or initialized: the claim is released, and a later frame
/// tries again. Returns whether there was a claim.
pub fn creation_failed(registry: &mut TrackerRegistry, tracker_name: &str) -> (r: bool)
    ensures
        r == is_claimed(old(registry)@, tracker_name@),
        final(registry)@ == after_failed_creation(old(registry)@, tracker_name@),
        final(registry).watching() == old(registry).watching(),
{
    match registry.slot(tracker_name) {
        Some(false) => {
            slots_remove(&mut registry.slots, tracker_name);
            true
        },
        _ => false,
    }
}

/// Whether a tracker can be sent data.
pub open spec fn live_outcome(slots: Map<Seq<char>, bool>, name: Seq<char>) -> Result<(), ErrorKind> {
    if !slots.contains_key(name) {
        Err(ErrorKind::NotFound)
    } else if slots[name] {
        Ok(())
    } else {
        Err(ErrorKind::EmulatorFailed)
    }
}

/// Claims `tracker_name` for a tracker that is about to be created, and
/// says how to set it up. A name that is registered already, claimed or
/// live, is refused with `AlreadyExists`.
pub fn add_tracker(registry: &mut TrackerRegistry, tracker_name: &str, mac_address: [u8; 6]) -> (r:
    Result<TrackerSetup, ErrorKind>)
    ensures
        final(registry).watching() == old(registry).watching(),
        old(registry)@.contains_key(tracker_name@) ==> r == Err::<TrackerSetup, ErrorKind>(
            ErrorKind::AlreadyExists,
        ) && final(registry)@ == old(registry)@,
        !old(registry)@.contains_key(tracker_name@) ==> r == Ok::<TrackerSetup, ErrorKind>(
            setup_for(mac_address, old(registry).watching()),
        ) && final(registry)@ == old(registry)@.insert(tracker_name@, false),
{
    if registry.slot(tracker_name).is_some() {
        return Err(ErrorKind::AlreadyExists);
    }
    slots_insert(&mut registry.slots, String::from_str(tracker_name), false);
    Ok(
        TrackerSetup {
            mac_seed: mac_address,
            server_address: [255, 255, 255, 255],
            server_port: SERVER_PORT,
            time_offset: 0,
            unreliable: false,
            watch_status: registry.watching,
        },
    )
}

/// How the sensor of an emulated tracker is to be set up.
#[derive(Debug, Clone, Copy, PartialEq, Eq, Structural)]
pub struct SensorSetup {
    pub sensor_id: u8,
    /// The number of the IMU type `Unknown` that the sensor announces.
    pub imu_type: u8,
    /// Whether the sensor announces itself as working.
    pub working: bool,
}

/// The setup of the one sensor that every emulated tracker has: the
/// sensor [`SENSOR_ID`], of unknown IMU type 0, working.
pub open spec fn sensor_setup() -> SensorSetup {
    SensorSetup { sensor_id: SENSOR_ID, imu_type: 0, working: true }
}

/// Tells whether the tracker under `tracker_name` can be given its
/// sensor, and how to set the sensor up.
pub fn add_sensor(registry: &TrackerRegistry, tracker_name: &str) -> (r: Result<
    SensorSetup,
    ErrorKind,
>)
    ensures
        r is Ok <==> live_outcome(registry@, tracker_name@) is Ok,
        r matches Ok(setup) ==> setup == sensor_setup(),
        r matches Err(e) ==> live_outcome(registry@, tracker_name@) == Err::<(), ErrorKind>(e),
{
    match registry.require_live(tracker_name) {
        Ok(()) => Ok(SensorSetup { sensor_id: SENSOR_ID, imu_type: 0, working: true }),
        Err(e) => Err(e),
    }
}

/// Takes `tracker_name` out of the registry. Returns whether a live
/// tracker was behind the name, which the caller then shuts down.
/// A name that is not registered gives `NotFound`.
pub fn remove_tracker(registry: &mut TrackerRegistry, tracker_name: &str) -> (r: Result<
    bool,
    ErrorKind,
>)
    ensures
        final(registry).watching() == old(registry).watching(),
        final(registry)@ == old(registry)@.remove(tracker_name@),
        r is Ok <==> old(registry)@.contains_key(tracker_name@),
        r matches Ok(live) ==> live == old(registry)@[tracker_name@],
        r matches Err(e) ==> e == ErrorKind::NotFound,
{
    match slots_remove(&mut registry.slots, tracker_name) {
        Some(live) => Ok(live),
        None => Err(ErrorKind::NotFound),
    }
}

/// Forbids the status watchers to run. Returns whether they were
/// allowed to.
pub fn cancel_all_tasks(registry: &mut TrackerRegistry) -> (r: bool)
    ensures
        r == old(registry).watching(),
        !final(registry).watching(),
        final(registry)@ == old(registry)@,
{
    let was = registry.watching;
    registry.watching = false;
    was
}

/// Stops the status watchers and empties the registry. Returns the names
/// that had a live tracker, each once, for the caller to shut down.
pub fn clear_trackers(registry: &mut TrackerRegistry) -> (r: Vec<String>)
    ensures
        final(registry)@ == Map::<Seq<char>, bool>::empty(),
        !final(registry).watching(),
        texts(r@).no_duplicates(),
        texts(r@).to_set() == live_names(old(registry)@),
{
    cancel_all_tasks(registry);
    let names = slots_keys(&registry.slots);
    let ghost table = registry@;
    let mut live: Vec<String> = Vec::new();
    let mut i: usize = 0;
    while i < names.len()
        invariant
            i <= names.len(),
            table == registry@,
            texts(names@).no_duplicates(),
            texts(names@).to_set() == table.dom(),
            texts(live@).no_duplicates(),
            forall|n: Seq<char>| #[trigger]
                texts(live@).contains(n) <==> (table.contains_key(n) && table[n] && exists|j: int|
                    0 <= j < i && texts(names@)[j] == n),
        decreases names.len() - i,
    {
        let ghost name = texts(names@)[i as int];
        assert(texts(names@).to_set().contains(name));
        if let Some(true) = registry.slot(names[i].as_str()) {
            let ghost before = texts(live@);
            assert(!before.contains(name)) by {
                if before.contains(name) {
                    let j = choose|j: int| 0 <= j < i && texts(names@)[j] == name;
                    assert(texts(names@)[j] == texts(names@)[i as int]);
                }
            }
            live.push(names[i].clone());
            assert(texts(live@) =~= before.push(name));
            assert forall|n: Seq<char>| #[trigger]
                texts(live@).contains(n) <==> (table.contains_key(n) && table[n] && exists|j: int|
                    0 <= j < i + 1 && texts(names@)[j] == n) by {
                if texts(live@).contains(n) {
                    let k = choose|k: int| 0 <= k < texts(live@).len() && texts(live@)[k] == n;
                    if k < before.len() {
                        assert(before[k] == n);
                        assert(before.contains(n));
                        let j = choose|j: int| 0 <= j < i && texts(names@)[j] == n;
                        assert(0 <= j < i + 1 && texts(names@)[j] == n);
                    } else {
                        assert(n == name);
                        assert(0 <= i < i + 1 && texts(names@)[i as int] == n);
                    }
                }
                if table.contains_key(n) && table[n] && exists|j: int|
                    0 <= j < i + 1 && texts(names@)[j] == n {
                    let j = choose|j: int| 0 <= j < i + 1 && texts(names@)[j] == n;
                    if j < i {
                        assert(before.contains(n));
                        let k = choose|k: int| 0 <= k < before.len() && before[k] == n;
                        assert(texts(live@)[k] == n);
                    } else {
                        assert(texts(live@)[before.len() as int] == n);
                    }
                }
            }
        } else {
            assert forall|n: Seq<char>| #[trigger]
                texts(live@).contains(n) <==> (table.contains_key(n) && table[n] && exists|j: int|
                    0 <= j < i + 1 && texts(names@)[j] == n) by {
                if texts(live@).contains(n) {
                    let j = choose|j: int| 0 <= j < i && texts(names@)[j] == n;
                    assert(0 <= j < i + 1 && texts(names@)[j] == n);
                }
                if table.contains_key(n) && table[n] && exists|j: int|
                    0 <= j < i + 1 && texts(names@)[j] == n {
                    let j = choose|j: int| 0 <= j < i + 1 && texts(names@)[j] == n;
                    assert(j < i);
                }
            }
        }
        i += 1;
    }
    assert(texts(live@).to_set() =~= live_names(table)) by {
        assert forall|n: Seq<char>| live_names(table).contains(n) implies texts(live@).contains(
            n,
        ) by {
            assert(texts(names@).to_set().contains(n));
            let j = choose|j: int| 0 <= j < texts(names@).len() && texts(names@)[j] == n;
            assert(0 <= j < i && texts(names@)[j] == n);
        }
    }
    slots_clear(&mut registry.slots);
    live
}

/// What starting the heartbeat asks of the caller.
#[derive(Debug, Clone, Copy, PartialEq, Eq)]
pub struct HeartbeatPlan {
    /// How to set the heartbeat tracker up, unless it is registered
    /// already.
    pub create: Option<TrackerSetup>,
}

/// Starts the heartbeat: claims the name `(HEARTBEAT)` for a tracker with
/// the all-zero seed, unless it is registered already, and allows status
/// watchers from now on.
pub fn start_heartbeat(registry: &mut TrackerRegistry) -> (r: HeartbeatPlan)
    ensures
        final(registry).watching(),
        old(registry)@.contains_key(heartbeat_name()) ==> r.create is None && final(registry)@
            == old(registry)@,
        !old(registry)@.contains_key(heartbeat_name()) ==> r.create == Some(
            setup_for([0u8, 0u8, 0u8, 0u8, 0u8, 0u8], old(registry).watching()),
        ) && final(registry)@ == old(registry)@.insert(heartbeat_name(), false),
{
    let plan = match add_tracker(registry, "(HEARTBEAT)", [0, 0, 0, 0, 0, 0]) {
        Ok(setup) => HeartbeatPlan { create: Some(setup) },
        Err(_) => HeartbeatPlan { create: None },
    };
    registry.watching = true;
    plan
}

} // verus!
