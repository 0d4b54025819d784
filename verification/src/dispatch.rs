//! The interpreter registry: which models are interpreted, and which
//! interpreter gets a frame.

use crate::effects::Report;
use crate::effects::ReportView;
use crate::error::ErrorKind;
use crate::interpreters::ble_outcome;
use crate::interpreters::interpret_ble;
use crate::interpreters::interpret_serial;
use crate::interpreters::serial_outcome;
use crate::interpreters::BridgeState;
use crate::interpreters::BridgeView;
use crate::model::TrackerModel;
use crate::tables::model_set;
use crate::tables::models_contains;
use crate::tables::models_insert;
use crate::tables::models_new;
use crate::tables::models_remove;
use crate::tables::models_walk;
use crate::text::contains;
use crate::text::has_prefix;
use crate::text::has_substring;
use crate::text::same_text;
use crate::text::starts_with;
use vstd::prelude::*;

verus! {

/// A set of tracker models.
#[derive(Debug, Clone, Copy, PartialEq, Eq, Structural)]
pub struct ModelSet {
    pub x2: bool,
    pub wireless: bool,
    pub wired: bool,
}

impl ModelSet {
    /// Whether `model` is in the set.
    pub open spec fn has(&self, model: TrackerModel) -> bool {
        match model {
            TrackerModel::X2 => self.x2,
            TrackerModel::Wireless => self.wireless,
            TrackerModel::Wired => self.wired,
        }
    }

    /// The set with `model` in it.
    pub open spec fn with(&self, model: TrackerModel) -> ModelSet {
        match model {
            TrackerModel::X2 => ModelSet { x2: true, ..*self },
            TrackerModel::Wireless => ModelSet { wireless: true, ..*self },
            TrackerModel::Wired => ModelSet { wired: true, ..*self },
        }
    }

    /// The set without `model`.
    pub open spec fn without(&self, model: TrackerModel) -> ModelSet {
        match model {
            TrackerModel::X2 => ModelSet { x2: false, ..*self },
            TrackerModel::Wireless => ModelSet { wireless: false, ..*self },
            TrackerModel::Wired => ModelSet { wired: false, ..*self },
        }
    }

    /// Whether the set has no member.
    pub open spec fn is_empty(&self) -> bool {
        !self.x2 && !self.wireless && !self.wired
    }

    /// The set of all models.
    pub open spec fn all() -> ModelSet {
        ModelSet { x2: true, wireless: true, wired: true }
    }

    /// The set without members.
    pub open spec fn none() -> ModelSet {
        ModelSet { x2: false, wireless: false, wired: false }
    }

    /// Whether `model` is in the set.
    pub fn contains(&self, model: TrackerModel) -> (r: bool)
        ensures
            r == self.has(model),
    {
        match model {
            TrackerModel::X2 => self.x2,
            TrackerModel::Wireless => self.wireless,
            TrackerModel::Wired => self.wired,
        }
    }

    /// Whether the set has no member.
    pub fn empty(&self) -> (r: bool)
        ensures
            r == self.is_empty(),
    {
        !self.x2 && !self.wireless && !self.wired
    }
}

/// The interpreters that exist and the models that are interpreted,
/// each model by its code in a concurrent set.
pub struct Interpreters {
    registered: dashmap::DashSet<u8>,
    active: dashmap::DashSet<u8>,
}

/// The mathematical content of an [`Interpreters`].
pub struct InterpretersView {
    /// The models that have an interpreter.
    pub registered: ModelSet,
    /// The models whose frames are interpreted at present.
    pub active: ModelSet,
}

/// The code under which a model stands in a set.
pub open spec fn model_code(model: TrackerModel) -> u8 {
    match model {
        TrackerModel::X2 => 0,
        TrackerModel::Wireless => 1,
        TrackerModel::Wired => 2,
    }
}

/// The models whose codes a set holds.
pub open spec fn models_in(codes: Set<u8>) -> ModelSet {
    ModelSet {
        x2: codes.contains(model_code(TrackerModel::X2)),
        wireless: codes.contains(model_code(TrackerModel::Wireless)),
        wired: codes.contains(model_code(TrackerModel::Wired)),
    }
}

fn code_of(model: TrackerModel) -> (r: u8)
    ensures
        r == model_code(model),
{
    match model {
        TrackerModel::X2 => 0,
        TrackerModel::Wireless => 1,
        TrackerModel::Wired => 2,
    }
}

fn models_of(codes: &dashmap::DashSet<u8>) -> (r: ModelSet)
    ensures
        r == models_in(model_set(*codes)),
{
    ModelSet {
        x2: models_contains(codes, code_of(TrackerModel::X2)),
        wireless: models_contains(codes, code_of(TrackerModel::Wireless)),
        wired: models_contains(codes, code_of(TrackerModel::Wired)),
    }
}

/// The model that a name given to a command stands for.
pub open spec fn model_named(name: Seq<char>) -> Option<TrackerModel> {
    if name == "X2"@ {
        Some(TrackerModel::X2)
    } else if name == "Wireless"@ {
        Some(TrackerModel::Wireless)
    } else if name == "Wired"@ {
        Some(TrackerModel::Wired)
    } else {
        None
    }
}

/// Tells which model a name given to a command stands for.
pub fn model_of_name(name: &str) -> (r: Option<TrackerModel>)
    ensures
        r == model_named(name@),
{
    if same_text(name, "X2") {
        Some(TrackerModel::X2)
    } else if same_text(name, "Wireless") {
        Some(TrackerModel::Wireless)
    } else if same_text(name, "Wired") {
        Some(TrackerModel::Wired)
    } else {
        None
    }
}

impl InterpretersView {
    /// The interpreters are registered all at once: either none exists
    /// or all three do.
    pub open spec fn wf(self) -> bool {
        self.registered == ModelSet::none() || self.registered == ModelSet::all()
    }

    /// Whether frames of `model` can be given to an interpreter.
    pub open spec fn serves(self, model: TrackerModel) -> bool {
        self.active.has(model) && self.registered.has(model)
    }
}

impl Interpreters {
    /// The models that have an interpreter and the models that are
    /// active.
    pub closed spec fn view(&self) -> InterpretersView {
        InterpretersView {
            registered: models_in(model_set(self.registered)),
            active: models_in(model_set(self.active)),
        }
    }

    /// No interpreter exists and no model is active.
    pub fn new() -> (r: Self)
        ensures
            r@.registered == ModelSet::none(),
            r@.active == ModelSet::none(),
            r@.wf(),
    {
        Interpreters { registered: models_new(), active: models_new() }
    }

    /// The models that have an interpreter.
    pub fn registered_models(&self) -> (r: ModelSet)
        ensures
            r == self@.registered,
    {
        models_of(&self.registered)
    }

    /// The models whose frames are interpreted at present.
    pub fn active_models(&self) -> (r: ModelSet)
        ensures
            r == self@.active,
    {
        models_of(&self.active)
    }

    /// The active models, each once, in the order in which their set
    /// hands them out.
    pub fn walk_active(&self) -> (r: Vec<TrackerModel>)
        ensures
            is_walk(r@, self@.active),
    {
        let codes = models_walk(&self.active);
        let ghost held = model_set(self.active);
        let mut order: Vec<TrackerModel> = Vec::new();
        let mut i: usize = 0;
        while i < codes.len()
            invariant
                i <= codes.len(),
                codes@.no_duplicates(),
                codes@.to_set() == held,
                order@.no_duplicates(),
                forall|model: TrackerModel| #[trigger]
                    order@.contains(model) <==> exists|j: int|
                        0 <= j < i && codes@[j] == model_code(model),
            decreases codes.len() - i,
        {
            let ghost before = order@;
            let found = if codes[i] == 0 {
                Some(TrackerModel::X2)
            } else if codes[i] == 1 {
                Some(TrackerModel::Wireless)
            } else if codes[i] == 2 {
                Some(TrackerModel::Wired)
            } else {
                None
            };
            if let Some(model) = found {
                assert(!before.contains(model)) by {
                    if before.contains(model) {
                        let j = choose|j: int| 0 <= j < i && codes@[j] == model_code(model);
                        assert(codes@[j] == codes@[i as int]);
                    }
                }
                order.push(model);
                assert(order@ =~= before.push(model));
            }
            assert forall|model: TrackerModel| #[trigger]
                order@.contains(model) <==> exists|j: int|
                    0 <= j < i + 1 && codes@[j] == model_code(model) by {
                if order@.contains(model) {
                    let k = choose|k: int| 0 <= k < order@.len() && order@[k] == model;
                    if k < before.len() {
                        assert(before[k] == model);
                        assert(before.contains(model));
                        let j = choose|j: int| 0 <= j < i && codes@[j] == model_code(model);
                        assert(0 <= j < i + 1 && codes@[j] == model_code(model));
                    } else {
                        assert(0 <= i < i + 1 && codes@[i as int] == model_code(model));
                    }
                }
                if exists|j: int| 0 <= j < i + 1 && codes@[j] == model_code(model) {
                    let j = choose|j: int| 0 <= j < i + 1 && codes@[j] == model_code(model);
                    if j < i {
                        assert(before.contains(model));
                        let k = choose|k: int| 0 <= k < before.len() && before[k] == model;
                        assert(order@[k] == model);
                    } else {
                        assert(found == Some(model));
                        assert(order@[before.len() as int] == model);
                    }
                }
            }
            i += 1;
        }
        assert forall|model: TrackerModel| #[trigger]
            order@.contains(model) <==> self@.active.has(model) by {
            if order@.contains(model) {
                let j = choose|j: int| 0 <= j < i && codes@[j] == model_code(model);
                assert(codes@.contains(model_code(model)));
                assert(codes@.to_set().contains(model_code(model)));
            }
            if self@.active.has(model) {
                assert(held.contains(model_code(model)));
                assert(codes@.to_set().contains(model_code(model)));
                assert(codes@.contains(model_code(model)));
                let j = choose|j: int| 0 <= j < codes@.len() && codes@[j] == model_code(model);
                assert(0 <= j < i && codes@[j] == model_code(model));
            }
        }
        order
    }

    /// Whether frames of `model` can be given to an interpreter.
    pub fn is_served(&self, model: TrackerModel) -> (r: bool)
        ensures
            r == self@.serves(model),
    {
        models_contains(&self.active, code_of(model)) && models_contains(
            &self.registered,
            code_of(model),
        )
    }
}

/// Registers the interpreters of all three models.
pub fn init_interpreters(set: &mut Interpreters)
    ensures
        final(set)@.registered == ModelSet::all(),
        final(set)@.active == old(set)@.active,
        final(set)@.wf(),
{
    models_insert(&mut set.registered, code_of(TrackerModel::X2));
    models_insert(&mut set.registered, code_of(TrackerModel::Wireless));
    models_insert(&mut set.registered, code_of(TrackerModel::Wired));
}

/// The registry after `start_interpreting` and what it returns.
///
/// Where no interpreter is registered, all are first. A name that is no
/// model's, or a model without interpreter, is refused with
/// `NoInterpreter`; otherwise the model is active from now on.
pub open spec fn start_outcome(set: InterpretersView, name: Seq<char>) -> (
    InterpretersView,
    Result<(), ErrorKind>,
) {
    let ready = if set.registered.is_empty() {
        InterpretersView { registered: ModelSet::all(), ..set }
    } else {
        set
    };
    match model_named(name) {
        Some(model) => if ready.registered.has(model) {
            (InterpretersView { active: ready.active.with(model), ..ready }, Ok(()))
        } else {
            (ready, Err(ErrorKind::NoInterpreter))
        },
        None => (ready, Err(ErrorKind::NoInterpreter)),
    }
}

/// Starts interpreting the frames of the model named `model`.
pub fn start_interpreting(set: &mut Interpreters, model: &str) -> (r: Result<(), ErrorKind>)
    ensures
        final(set)@ == start_outcome(old(set)@, model@).0,
        r == start_outcome(old(set)@, model@).1,
        old(set)@.wf() ==> final(set)@.wf(),
        old(set)@.wf() ==> (r is Ok <==> model_named(model@) is Some),
        old(set)@.wf() && model_named(model@) is Some ==> final(set)@.serves(
            model_named(model@)->0,
        ),
{
    if set.registered_models().empty() {
        init_interpreters(set);
    }
    match model_of_name(model) {
        Some(tracker_model) => {
            if !models_contains(&set.registered, code_of(tracker_model)) {
                return Err(ErrorKind::NoInterpreter);
            }
            models_insert(&mut set.active, code_of(tracker_model));
            Ok(())
        },
        None => Err(ErrorKind::NoInterpreter),
    }
}

/// The registry after `stop_interpreting` and what it returns: a name
/// that is no model's is refused with `NoInterpreter`; otherwise the
/// model is not active any more.
pub open spec fn stop_outcome(set: InterpretersView, name: Seq<char>) -> (
    InterpretersView,
    Result<(), ErrorKind>,
) {
    match model_named(name) {
        Some(model) => (InterpretersView { active: set.active.without(model), ..set }, Ok(())),
        None => (set, Err(ErrorKind::NoInterpreter)),
    }
}

/// Stops interpreting the frames of the model named `model`.
pub fn stop_interpreting(set: &mut Interpreters, model: &str) -> (r: Result<(), ErrorKind>)
    ensures
        final(set)@ == stop_outcome(old(set)@, model@).0,
        r == stop_outcome(old(set)@, model@).1,
        old(set)@.wf() ==> final(set)@.wf(),
{
    match model_of_name(model) {
        Some(tracker_model) => {
            models_remove(&mut set.active, code_of(tracker_model));
            Ok(())
        },
        None => Err(ErrorKind::NoInterpreter),
    }
}

/// What became of a frame: the report of every interpreter that was
/// tried, in order, and whether one of them accepted it.
#[derive(Debug, PartialEq, Eq)]
pub struct Dispatch {
    pub attempts: Vec<Report>,
    pub result: Result<(), ErrorKind>,
}

/// The mathematical content of a [`Dispatch`].
pub struct DispatchView {
    pub attempts: Seq<ReportView>,
    pub result: Result<(), ErrorKind>,
}

/// The content of a list of reports.
pub open spec fn report_views(reports: Seq<Report>) -> Seq<ReportView> {
    reports.map_values(|r: Report| r@)
}

impl View for Dispatch {
    type V = DispatchView;

    open spec fn view(&self) -> DispatchView {
        DispatchView { attempts: report_views(self.attempts@), result: self.result }
    }
}

/// The model that a tracker's name hints at: `X2` in it means X2, else
/// `XW` Wireless, else `X` Wired.
pub open spec fn name_hint(name: Seq<char>) -> Option<TrackerModel> {
    if has_substring(name, "X2"@) {
        Some(TrackerModel::X2)
    } else if has_substring(name, "XW"@) {
        Some(TrackerModel::Wireless)
    } else if has_substring(name, "X"@) {
        Some(TrackerModel::Wired)
    } else {
        None
    }
}

/// The model that a serial line is first offered to: the tracker's
/// model where it is known, else the one that its name hints at.
pub open spec fn serial_hint(name: Seq<char>, tracker_type: Option<TrackerModel>) -> Option<
    TrackerModel,
> {
    match tracker_type {
        Some(model) => Some(model),
        None => name_hint(name),
    }
}

/// The model that a Bluetooth device's name tells: `HaritoraX2-` begins
/// the name of an X2, `HaritoraXW-` of a Wireless and `HaritoraX-` of a
/// Wired tracker.
pub open spec fn device_model(device_name: Seq<char>) -> Option<TrackerModel> {
    if has_prefix(device_name, "HaritoraX2-"@) {
        Some(TrackerModel::X2)
    } else if has_prefix(device_name, "HaritoraXW-"@) {
        Some(TrackerModel::Wireless)
    } else if has_prefix(device_name, "HaritoraX-"@) {
        Some(TrackerModel::Wired)
    } else {
        None
    }
}

/// Tells the model of a Bluetooth device by its name.
pub fn model_of_device(device_name: &str) -> (r: Option<TrackerModel>)
    ensures
        r == device_model(device_name@),
{
    if starts_with(device_name, "HaritoraX2-") {
        Some(TrackerModel::X2)
    } else if starts_with(device_name, "HaritoraXW-") {
        Some(TrackerModel::Wireless)
    } else if starts_with(device_name, "HaritoraX-") {
        Some(TrackerModel::Wired)
    } else {
        None
    }
}

/// Tells the model that a tracker's name hints at.
pub fn model_of_tracker_name(name: &str) -> (r: Option<TrackerModel>)
    ensures
        r == name_hint(name@),
{
    if contains(name, "X2") {
        Some(TrackerModel::X2)
    } else if contains(name, "XW") {
        Some(TrackerModel::Wireless)
    } else if contains(name, "X") {
        Some(TrackerModel::Wired)
    } else {
        None
    }
}

/// A frame on its way through the interpreters: the state so far, the
/// reports so far, and whether an interpreter has accepted the frame.
pub struct Progress {
    pub state: BridgeView,
    pub attempts: Seq<ReportView>,
    pub accepted: bool,
}

/// Offers a serial line to the interpreter of `model`, unless the line
/// is accepted already or the model is not served.
pub open spec fn offer_serial(
    progress: Progress,
    set: InterpretersView,
    model: TrackerModel,
    tracker_name: Seq<char>,
    assignment: Seq<char>,
    line: Seq<char>,
    now: u64,
) -> Progress {
    if progress.accepted || !set.serves(model) {
        progress
    } else {
        let outcome = serial_outcome(progress.state, model, tracker_name, assignment, line, now);
        Progress {
            state: outcome.0,
            attempts: progress.attempts.push(outcome.1),
            accepted: outcome.1.error is None,
        }
    }
}

/// Offers a Bluetooth notification to the interpreter of `model`, unless
/// it is accepted already or the model is not served.
pub open spec fn offer_ble(
    progress: Progress,
    set: InterpretersView,
    model: TrackerModel,
    device_id: Seq<char>,
    assignment: Seq<char>,
    char_name: Seq<char>,
    data: Seq<char>,
) -> Progress {
    if progress.accepted || !set.serves(model) {
        progress
    } else {
        let outcome = ble_outcome(progress.state, model, device_id, assignment, char_name, data);
        Progress {
            state: outcome.0,
            attempts: progress.attempts.push(outcome.1),
            accepted: outcome.1.error is None,
        }
    }
}

/// Whether a sequence of models is a walk through a set: it holds
/// every member once and nothing else. In which order a walk hands the
/// members out is up to the set.
pub open spec fn is_walk(order: Seq<TrackerModel>, models: ModelSet) -> bool {
    order.no_duplicates() && forall|model: TrackerModel|
        #[trigger] order.contains(model) <==> models.has(model)
}

/// Offers a serial line to the interpreters of the models of `order`,
/// one after the other.
pub open spec fn offer_serial_in_turn(
    progress: Progress,
    set: InterpretersView,
    order: Seq<TrackerModel>,
    tracker_name: Seq<char>,
    assignment: Seq<char>,
    line: Seq<char>,
    now: u64,
) -> Progress
    decreases order.len(),
{
    if order.len() == 0 {
        progress
    } else {
        offer_serial(
            offer_serial_in_turn(
                progress,
                set,
                order.drop_last(),
                tracker_name,
                assignment,
                line,
                now,
            ),
            set,
            order.last(),
            tracker_name,
            assignment,
            line,
            now,
        )
    }
}

/// Offers a Bluetooth notification to the interpreters of the models of
/// `order`, one after the other.
pub open spec fn offer_ble_in_turn(
    progress: Progress,
    set: InterpretersView,
    order: Seq<TrackerModel>,
    device_id: Seq<char>,
    assignment: Seq<char>,
    char_name: Seq<char>,
    data: Seq<char>,
) -> Progress
    decreases order.len(),
{
    if order.len() == 0 {
        progress
    } else {
        offer_ble(
            offer_ble_in_turn(
                progress,
                set,
                order.drop_last(),
                device_id,
                assignment,
                char_name,
                data,
            ),
            set,
            order.last(),
            device_id,
            assignment,
            char_name,
            data,
        )
    }
}

/// The way of a serial line through the interpreters: first the hinted
/// model's, then those of the models of `order` in turn, until one
/// accepts the line. A hinted interpreter that refuses is asked again in
/// its turn.
pub open spec fn serial_progress(
    state: BridgeView,
    set: InterpretersView,
    order: Seq<TrackerModel>,
    tracker_name: Seq<char>,
    assignment: Seq<char>,
    tracker_type: Option<TrackerModel>,
    line: Seq<char>,
    now: u64,
) -> Progress {
    let start = Progress { state, attempts: Seq::empty(), accepted: false };
    let hinted = match serial_hint(tracker_name, tracker_type) {
        Some(model) => offer_serial(start, set, model, tracker_name, assignment, line, now),
        None => start,
    };
    offer_serial_in_turn(hinted, set, order, tracker_name, assignment, line, now)
}

/// The state and the dispatch after a serial line was given to the
/// interpreters, the active models taken in the given order. Without an
/// active model, and where no interpreter accepts the line, the result
/// is `NoInterpreter`.
pub open spec fn serial_dispatch(
    state: BridgeView,
    set: InterpretersView,
    order: Seq<TrackerModel>,
    tracker_name: Seq<char>,
    assignment: Seq<char>,
    tracker_type: Option<TrackerModel>,
    line: Seq<char>,
    now: u64,
) -> (BridgeView, DispatchView) {
    if set.active.is_empty() {
        (state, DispatchView { attempts: Seq::empty(), result: Err(ErrorKind::NoInterpreter) })
    } else {
        let progress = serial_progress(
            state,
            set,
            order,
            tracker_name,
            assignment,
            tracker_type,
            line,
            now,
        );
        (
            progress.state,
            DispatchView {
                attempts: progress.attempts,
                result: if progress.accepted {
                    Ok(())
                } else {
                    Err(ErrorKind::NoInterpreter)
                },
            },
        )
    }
}

/// The model that a device's name tells, if that model is served.
pub open spec fn served_model(set: InterpretersView, device_id: Seq<char>) -> Option<TrackerModel> {
    match device_model(device_id) {
        Some(model) => if set.serves(model) {
            Some(model)
        } else {
            None
        },
        None => None,
    }
}

/// The state and the dispatch after a Bluetooth notification was given
/// to the interpreters, the active models taken in the given order.
///
/// Without an active model the result is `NoInterpreter`. A device
/// whose name tells a served model gets that model's interpreter and no
/// other, and its error is the result. Otherwise the interpreters of the
/// models of `order` are asked in turn until one accepts; if none does,
/// the result is `NoInterpreter`.
pub open spec fn ble_dispatch(
    state: BridgeView,
    set: InterpretersView,
    order: Seq<TrackerModel>,
    device_id: Seq<char>,
    assignment: Seq<char>,
    char_name: Seq<char>,
    data: Seq<char>,
) -> (BridgeView, DispatchView) {
    let start = Progress { state, attempts: Seq::empty(), accepted: false };
    if set.active.is_empty() {
        (state, DispatchView { attempts: Seq::empty(), result: Err(ErrorKind::NoInterpreter) })
    } else {
        match served_model(set, device_id) {
            Some(model) => {
                let outcome = ble_outcome(state, model, device_id, assignment, char_name, data);
                (
                    outcome.0,
                    DispatchView {
                        attempts: Seq::empty().push(outcome.1),
                        result: match outcome.1.error {
                            Some(e) => Err(e),
                            None => Ok(()),
                        },
                    },
                )
            },
            None => {
                let last = offer_ble_in_turn(
                    start,
                    set,
                    order,
                    device_id,
                    assignment,
                    char_name,
                    data,
                );
                (
                    last.state,
                    DispatchView {
                        attempts: last.attempts,
                        result: if last.accepted {
                            Ok(())
                        } else {
                            Err(ErrorKind::NoInterpreter)
                        },
                    },
                )
            },
        }
    }
}

/// What `process_serial` does to the state and returns: what
/// [`serial_dispatch`] gives for a walk through the active models.
pub open spec fn is_serial_dispatch(
    state: BridgeView,
    set: InterpretersView,
    order: Seq<TrackerModel>,
    tracker_name: Seq<char>,
    assignment: Seq<char>,
    tracker_type: Option<TrackerModel>,
    line: Seq<char>,
    now: u64,
    after: BridgeView,
    dispatch: DispatchView,
) -> bool {
    is_walk(order, set.active) && serial_dispatch(
        state,
        set,
        order,
        tracker_name,
        assignment,
        tracker_type,
        line,
        now,
    ) == (after, dispatch)
}

/// What `process_ble` does to the state and returns: what
/// [`ble_dispatch`] gives for a walk through the active models.
pub open spec fn is_ble_dispatch(
    state: BridgeView,
    set: InterpretersView,
    order: Seq<TrackerModel>,
    device_id: Seq<char>,
    assignment: Seq<char>,
    char_name: Seq<char>,
    data: Seq<char>,
    after: BridgeView,
    dispatch: DispatchView,
) -> bool {
    is_walk(order, set.active) && ble_dispatch(
        state,
        set,
        order,
        device_id,
        assignment,
        char_name,
        data,
    ) == (after, dispatch)
}

fn keep(attempts: &mut Vec<Report>, report: Report)
    ensures
        report_views(final(attempts)@) == report_views(old(attempts)@).push(report@),
{
    attempts.push(report);
    assert(report_views(attempts@) =~= report_views(old(attempts)@).push(report@));
}

fn try_serial(
    set: &Interpreters,
    state: &mut BridgeState,
    attempts: &mut Vec<Report>,
    accepted: bool,
    model: TrackerModel,
    tracker_name: &str,
    assignment: &str,
    line: &str,
    now: u64,
) -> (r: bool)
    ensures
        (Progress { state: final(state)@, attempts: report_views(final(attempts)@), accepted: r })
            == offer_serial(
            Progress { state: old(state)@, attempts: report_views(old(attempts)@), accepted },
            set@,
            model,
            tracker_name@,
            assignment@,
            line@,
            now,
        ),
{
    if accepted || !set.is_served(model) {
        return accepted;
    }
    let report = interpret_serial(state, model, tracker_name, assignment, line, now);
    let ok = report.accepted();
    keep(attempts, report);
    ok
}

fn try_ble(
    set: &Interpreters,
    state: &mut BridgeState,
    attempts: &mut Vec<Report>,
    accepted: bool,
    model: TrackerModel,
    device_id: &str,
    assignment: &str,
    char_name: &str,
    data: &str,
) -> (r: bool)
    ensures
        (Progress { state: final(state)@, attempts: report_views(final(attempts)@), accepted: r })
            == offer_ble(
            Progress { state: old(state)@, attempts: report_views(old(attempts)@), accepted },
            set@,
            model,
            device_id@,
            assignment@,
            char_name@,
            data@,
        ),
{
    if accepted || !set.is_served(model) {
        return accepted;
    }
    let report = interpret_ble(state, model, device_id, assignment, char_name, data);
    let ok = report.accepted();
    keep(attempts, report);
    ok
}

/// Gives the serial line `line` of the tracker `tracker_name`, received
/// at the time `now`, to the interpreters, the active models taken in
/// the given order. `assignment` is the body part that the tracker is
/// mounted on, `tracker_type` its model where the dongle has told it.
pub fn dispatch_serial(
    set: &Interpreters,
    state: &mut BridgeState,
    order: &Vec<TrackerModel>,
    tracker_name: &str,
    assignment: &str,
    tracker_type: Option<TrackerModel>,
    line: &str,
    now: u64,
) -> (r: Dispatch)
    ensures
        final(state)@ == serial_dispatch(
            old(state)@,
            set@,
            order@,
            tracker_name@,
            assignment@,
            tracker_type,
            line@,
            now,
        ).0,
        r@ == serial_dispatch(
            old(state)@,
            set@,
            order@,
            tracker_name@,
            assignment@,
            tracker_type,
            line@,
            now,
        ).1,
{
    let mut attempts: Vec<Report> = Vec::new();
    assert(report_views(attempts@) =~= Seq::empty());
    if set.active_models().empty() {
        return Dispatch { attempts, result: Err(ErrorKind::NoInterpreter) };
    }
    let hint = match tracker_type {
        Some(model) => Some(model),
        None => model_of_tracker_name(tracker_name),
    };
    let mut accepted = false;
    if let Some(model) = hint {
        accepted =
        try_serial(set, state, &mut attempts, accepted, model, tracker_name, assignment, line, now);
    }
    let ghost hinted = Progress {
        state: state@,
        attempts: report_views(attempts@),
        accepted,
    };
    assert(order@.take(0) =~= Seq::<TrackerModel>::empty());
    let mut i: usize = 0;
    while i < order.len()
        invariant
            i <= order.len(),
            (Progress { state: state@, attempts: report_views(attempts@), accepted })
                == offer_serial_in_turn(
                hinted,
                set@,
                order@.take(i as int),
                tracker_name@,
                assignment@,
                line@,
                now,
            ),
        decreases order.len() - i,
    {
        proof {
            assert(order@.take(i + 1).drop_last() =~= order@.take(i as int));
            assert(order@.take(i + 1).last() == order@[i as int]);
        }
        accepted =
        try_serial(
            set,
            state,
            &mut attempts,
            accepted,
            order[i],
            tracker_name,
            assignment,
            line,
            now,
        );
        i += 1;
    }
    assert(order@.take(i as int) =~= order@);
    Dispatch {
        attempts,
        result: if accepted {
            Ok(())
        } else {
            Err(ErrorKind::NoInterpreter)
        },
    }
}

/// Gives the serial line `line` of the tracker `tracker_name`, received
/// at the time `now`, to the interpreters. `assignment` is the body part
/// that the tracker is mounted on, `tracker_type` its model where the
/// dongle has told it. The active models are taken in the order of a
/// walk through their set.
pub fn process_serial(
    set: &Interpreters,
    state: &mut BridgeState,
    tracker_name: &str,
    assignment: &str,
    tracker_type: Option<TrackerModel>,
    line: &str,
    now: u64,
) -> (r: Dispatch)
    ensures
        exists|order: Seq<TrackerModel>|
            is_serial_dispatch(
                old(state)@,
                set@,
                order,
                tracker_name@,
                assignment@,
                tracker_type,
                line@,
                now,
                final(state)@,
                r@,
            ),
{
    let order = set.walk_active();
    let r = dispatch_serial(set, state, &order, tracker_name, assignment, tracker_type, line, now);
    assert(is_serial_dispatch(
        old(state)@,
        set@,
        order@,
        tracker_name@,
        assignment@,
        tracker_type,
        line@,
        now,
        state@,
        r@,
    ));
    r
}

/// Gives a Bluetooth notification to the interpreters, the active
/// models taken in the given order: the characteristic `char_name` of
/// the device `device_id`, which is mounted on the body part
/// `assignment`, has sent `data`, in base-64.
pub fn dispatch_ble(
    set: &Interpreters,
    state: &mut BridgeState,
    order: &Vec<TrackerModel>,
    device_id: &str,
    assignment: &str,
    char_name: &str,
    data: &str,
) -> (r: Dispatch)
    ensures
        final(state)@ == ble_dispatch(
            old(state)@,
            set@,
            order@,
            device_id@,
            assignment@,
            char_name@,
            data@,
        ).0,
        r@ == ble_dispatch(
            old(state)@,
            set@,
            order@,
            device_id@,
            assignment@,
            char_name@,
            data@,
        ).1,
{
    let mut attempts: Vec<Report> = Vec::new();
    assert(report_views(attempts@) =~= Seq::empty());
    if set.active_models().empty() {
        return Dispatch { attempts, result: Err(ErrorKind::NoInterpreter) };
    }
    if let Some(model) = model_of_device(device_id) {
        if set.is_served(model) {
            let report = interpret_ble(state, model, device_id, assignment, char_name, data);
            let result = match report.error {
                Some(e) => Err(e),
                None => Ok(()),
            };
            keep(&mut attempts, report);
            return Dispatch { attempts, result };
        }
    }
    let ghost start = Progress { state: state@, attempts: report_views(attempts@), accepted: false };
    let mut accepted = false;
    assert(order@.take(0) =~= Seq::<TrackerModel>::empty());
    let mut i: usize = 0;
    while i < order.len()
        invariant
            i <= order.len(),
            (Progress { state: state@, attempts: report_views(attempts@), accepted })
                == offer_ble_in_turn(
                start,
                set@,
                order@.take(i as int),
                device_id@,
                assignment@,
                char_name@,
                data@,
            ),
        decreases order.len() - i,
    {
        proof {
            assert(order@.take(i + 1).drop_last() =~= order@.take(i as int));
            assert(order@.take(i + 1).last() == order@[i as int]);
        }
        accepted =
        try_ble(
            set,
            state,
            &mut attempts,
            accepted,
            order[i],
            device_id,
            assignment,
            char_name,
            data,
        );
        i += 1;
    }
    assert(order@.take(i as int) =~= order@);
    Dispatch {
        attempts,
        result: if accepted {
            Ok(())
        } else {
            Err(ErrorKind::NoInterpreter)
        },
    }
}

/// Gives a Bluetooth notification to the interpreters: the
/// characteristic `char_name` of the device `device_id`, which is mounted
/// on the body part `assignment`, has sent `data`, in base-64. The
/// active models are taken in the order of a walk through their set.
pub fn process_ble(
    set: &Interpreters,
    state: &mut BridgeState,
    device_id: &str,
    assignment: &str,
    char_name: &str,
    data: &str,
) -> (r: Dispatch)
    ensures
        exists|order: Seq<TrackerModel>|
            is_ble_dispatch(
                old(state)@,
                set@,
                order,
                device_id@,
                assignment@,
                char_name@,
                data@,
                final(state)@,
                r@,
            ),
{
    let order = set.walk_active();
    let r = dispatch_ble(set, state, &order, device_id, assignment, char_name, data);
    assert(is_ble_dispatch(
        old(state)@,
        set@,
        order@,
        device_id@,
        assignment@,
        char_name@,
        data@,
        state@,
        r@,
    ));
    r
}

/// With one active model a walk has no choice: it is that model alone,
/// so that a frame takes the same way whatever walk is taken.
pub proof fn lemma_single_walk(order: Seq<TrackerModel>, model: TrackerModel)
    requires
        is_walk(order, ModelSet::none().with(model)),
    ensures
        order == seq![model],
{
    assert(order.contains(model));
    let at = choose|at: int| 0 <= at < order.len() && order[at] == model;
    assert forall|k: int| 0 <= k < order.len() implies order[k] == model by {
        assert(order.contains(order[k]));
    }
    if order.len() > 1 {
        assert(order[0] == order[1]);
    }
    assert(order =~= seq![model]);
}

} // verus!
