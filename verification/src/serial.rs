//! The serial backend: the dongle's line protocol and the trackers
//! behind each port.
//!
//! A dongle speaks in lines, `<identifier>:<payload>`, each ended by a
//! newline. It exposes several trackers over one port, told apart by a
//! digit in the identifier. Before their frames can be interpreted the
//! backend has to learn, per port and digit, the tracker's serial number
//! and model (from an `i` frame) and its body-part assignment (from an
//! `r` frame).

use crate::bindings::json_string;
use crate::bindings::json_string_member;
use crate::bindings::json_valid;
use crate::bindings::lowercased;
use crate::bindings::string_from_utf8;
use crate::bindings::to_lowercase;
use crate::bindings::to_uppercase;
use crate::bindings::uppercased;
use crate::decoders::assignment_of_digit;
use crate::decoders::label_of_digit;
use crate::error::ErrorKind;
use crate::interpreters::line_identifier;
use crate::interpreters::line_payload;
use crate::interpreters::split_line;
use crate::model::TrackerModel;
use crate::search::first_where;
use crate::search::lemma_first_where;
use crate::search::lemma_first_where_is;
use crate::text::chars_of;
use crate::text::find_char;
use crate::text::first_index_of;
use crate::text::same_text;
use crate::text::texts;
use vstd::prelude::*;
use vstd::utf8::decode_utf8;
use vstd::utf8::valid_utf8;

verus! {

/// The speed of a dongle's serial line, in baud.
pub const BAUD_RATE: u32 = 500_000;

/// How long a read waits for data, in milliseconds.
pub const READ_TIMEOUT_MS: u64 = 2000;

/// How long the backend rests after it has stopped, in milliseconds.
pub const SETTLE_MS: u64 = 100;

/// The byte that ends a line.
pub const NEWLINE: u8 = 10;

/// What is known of one tracker behind a dongle.
#[derive(Debug, PartialEq, Eq)]
pub struct TrackerInfo {
    pub serial_number: String,
    /// The port of the dongle.
    pub port: String,
    /// The digit by which the dongle tells the tracker apart.
    pub port_id: String,
    /// The body part that the tracker is mounted on; empty until known.
    pub assignment: String,
    pub tracker_type: Option<TrackerModel>,
}

/// The mathematical content of a [`TrackerInfo`].
pub struct TrackerInfoView {
    pub serial_number: Seq<char>,
    pub port: Seq<char>,
    pub port_id: Seq<char>,
    pub assignment: Seq<char>,
    pub tracker_type: Option<TrackerModel>,
}

impl View for TrackerInfo {
    type V = TrackerInfoView;

    open spec fn view(&self) -> TrackerInfoView {
        TrackerInfoView {
            serial_number: self.serial_number@,
            port: self.port@,
            port_id: self.port_id@,
            assignment: self.assignment@,
            tracker_type: self.tracker_type,
        }
    }
}

impl Clone for TrackerInfo {
    fn clone(&self) -> (r: Self)
        ensures
            r@ == self@,
    {
        TrackerInfo {
            serial_number: self.serial_number.clone(),
            port: self.port.clone(),
            port_id: self.port_id.clone(),
            assignment: self.assignment.clone(),
            tracker_type: self.tracker_type,
        }
    }
}

/// The content of a list of tracker records.
pub open spec fn info_views(entries: Seq<TrackerInfo>) -> Seq<TrackerInfoView> {
    entries.map_values(|e: TrackerInfo| e@)
}

/// The property of standing behind the given port under the given digit.
pub open spec fn at_slot(port: Seq<char>, port_id: Seq<char>) -> spec_fn(TrackerInfoView) -> bool {
    |e: TrackerInfoView| e.port == port && e.port_id == port_id
}

/// The property of being mounted on the given body part.
pub open spec fn mounted_on(assignment: Seq<char>) -> spec_fn(TrackerInfoView) -> bool {
    |e: TrackerInfoView| e.assignment == assignment
}

/// No two records stand behind the same port under the same digit.
pub open spec fn unique_slots(entries: Seq<TrackerInfoView>) -> bool {
    forall|i: int, j: int|
        0 <= i < j < entries.len() ==> !(#[trigger] entries[i].port == #[trigger] entries[j].port
            && entries[i].port_id == entries[j].port_id)
}

/// The commands that solicit model, serial number and assignment from a
/// dongle that has just been opened.
pub open spec fn handshake() -> Seq<Seq<char>> {
    seq![
        "r0:"@,
        "r1:"@,
        "r:"@,
        "o:"@,
        "i:"@,
        "i0:"@,
        "i1:"@,
        "o0:"@,
        "o1:"@,
        "v0:"@,
        "v1:"@,
    ]
}

/// The text of every string slice of a list.
pub open spec fn slice_texts(items: Seq<&'static str>) -> Seq<Seq<char>> {
    items.map_values(|s: &'static str| s@)
}

/// The commands of the handshake, in order.
pub fn handshake_commands() -> (r: Vec<&'static str>)
    ensures
        slice_texts(r@) == handshake(),
{
    let mut commands: Vec<&'static str> = Vec::new();
    commands.push("r0:");
    commands.push("r1:");
    commands.push("r:");
    commands.push("o:");
    commands.push("i:");
    commands.push("i0:");
    commands.push("i1:");
    commands.push("o0:");
    commands.push("o1:");
    commands.push("v0:");
    commands.push("v1:");
    assert(slice_texts(commands@) =~= handshake());
    commands
}

/// A command as a line of the protocol: the command, ended by a
/// newline.
pub open spec fn terminated(command: Seq<char>) -> Seq<char> {
    command + seq!['\n']
}

/// What is written to a dongle that has just been opened: every command
/// of the handshake as a line, in order.
pub open spec fn handshake_lines() -> Seq<Seq<char>> {
    handshake().map_values(|command: Seq<char>| terminated(command))
}

/// Ends a command with a newline.
pub fn terminate_command(command: &str) -> (r: String)
    ensures
        r@ == terminated(command@),
{
    proof {
        reveal_strlit("\n");
    }
    let r = String::from_str(command).concat("\n");
    assert(r@ =~= terminated(command@));
    r
}

/// The lines to write to a dongle that has just been opened, in order:
/// `r0:`, `r1:`, `r:`, `o:`, `i:`, `i0:`, `i1:`, `o0:`, `o1:`, `v0:` and
/// `v1:`, each ended by one newline. Every line is written, whether or
/// not the one before it could be.
pub fn handshake_batch() -> (r: Vec<String>)
    ensures
        texts(r@) == handshake_lines(),
{
    let commands = handshake_commands();
    let mut lines: Vec<String> = Vec::new();
    let mut i: usize = 0;
    while i < commands.len()
        invariant
            i <= commands.len(),
            slice_texts(commands@) == handshake(),
            lines.len() == i,
            forall|k: int| 0 <= k < i ==> #[trigger] lines@[k]@ == terminated(commands@[k]@),
        decreases commands.len() - i,
    {
        lines.push(terminate_command(commands[i]));
        i += 1;
    }
    assert(texts(lines@) =~= handshake_lines()) by {
        assert forall|k: int| 0 <= k < lines.len() implies texts(lines@)[k] == handshake_lines()[k] by {
            assert(slice_texts(commands@)[k] == commands@[k]@);
        }
    }
    lines
}

/// A command as `write_serial` sends it: a newline before and after, so
/// that it stands on a line of its own whatever was sent before.
pub open spec fn framed(command: Seq<char>) -> Seq<char> {
    seq!['\n'] + command + seq!['\n']
}

/// Frames a command that the host sends on its own.
pub fn frame_command(command: &str) -> (r: String)
    ensures
        r@ == framed(command@),
{
    proof {
        reveal_strlit("\n");
    }
    let r = String::from_str("\n").concat(command).concat("\n");
    assert(r@ =~= framed(command@));
    r
}

/// The position of the first newline among the bytes.
pub open spec fn newline_at(bytes: Seq<u8>) -> Option<int> {
    first_where(bytes, |b: u8| b == NEWLINE)
}

/// Cuts the first complete line off the bytes received so far. Returns
/// the line without its newline and keeps what follows; without a
/// newline nothing is cut.
pub fn take_line(received: &mut Vec<u8>) -> (r: Option<Vec<u8>>)
    ensures
        match newline_at(old(received)@) {
            Some(at) => r matches Some(line) && line@ == old(received)@.subrange(0, at)
                && final(received)@ == old(received)@.subrange(
                at + 1,
                old(received)@.len() as int,
            ),
            None => r is None && final(received)@ == old(received)@,
        },
{
    let ghost is_newline = |b: u8| b == NEWLINE;
    let mut at: usize = 0;
    while at < received.len()
        invariant
            at <= received.len(),
            received@ == old(received)@,
            forall|k: int| 0 <= k < at ==> !is_newline(#[trigger] received@[k]),
            is_newline == (|b: u8| b == NEWLINE),
        ensures
            at < received.len() ==> is_newline(received@[at as int]),
        decreases received.len() - at,
    {
        if received[at] == NEWLINE {
            break;
        }
        at += 1;
    }
    proof {
        lemma_first_where_is(received@, is_newline, at as int);
    }
    if at == received.len() {
        return None;
    }
    let mut rest = received.split_off(at + 1);
    received.pop();
    std::mem::swap(received, &mut rest);
    assert(rest@ =~= old(received)@.subrange(0, at as int));
    assert(received@ =~= old(received)@.subrange(at + 1, old(received)@.len() as int));
    Some(rest)
}

/// Reads a line's bytes as text. Bytes that are not UTF-8 give nothing:
/// such a line is dropped.
pub fn decode_line(bytes: Vec<u8>) -> (r: Option<String>)
    ensures
        r is Some <==> valid_utf8(bytes@),
        r matches Some(line) ==> line@ == decode_utf8(bytes@),
{
    match string_from_utf8(bytes) {
        Ok(line) => Some(line),
        Err(_) => None,
    }
}

/// The model that a model code in upper case stands for.
pub open spec fn model_of_code(code: Seq<char>) -> Option<TrackerModel> {
    if code == "MC1S"@ || code == "MC2S"@ || code == "MC2BS"@ {
        Some(TrackerModel::Wired)
    } else if code == "MC3S"@ {
        Some(TrackerModel::Wireless)
    } else if code == "AF01SB"@ {
        Some(TrackerModel::X2)
    } else {
        None
    }
}

/// Tells the model that a model code in upper case stands for.
pub fn model_from_code(code: &str) -> (r: Option<TrackerModel>)
    ensures
        r == model_of_code(code@),
{
    if same_text(code, "MC1S") || same_text(code, "MC2S") || same_text(code, "MC2BS") {
        Some(TrackerModel::Wired)
    } else if same_text(code, "MC3S") {
        Some(TrackerModel::Wireless)
    } else if same_text(code, "AF01SB") {
        Some(TrackerModel::X2)
    } else {
        None
    }
}

/// Tells the tracker model from the `model` member of an `i` frame. The
/// code is compared without regard to case.
pub fn get_tracker_type_from_model(model: &str) -> (r: Option<TrackerModel>)
    ensures
        r == model_of_code(uppercased(model@)),
{
    let upper = to_uppercase(model);
    model_from_code(upper.as_str())
}

/// Whether a character is one of `0` to `9`.
pub open spec fn is_decimal_digit(c: char) -> bool {
    0x30 <= c as u32 <= 0x39
}

/// The digit that tells a tracker apart: the first decimal digit of the
/// identifier, and `0` where it has none.
pub open spec fn port_id_of(identifier: Seq<char>) -> Seq<char> {
    match first_where(identifier, |c: char| is_decimal_digit(c)) {
        Some(at) => identifier.subrange(at, at + 1),
        None => "0"@,
    }
}

/// Reads the digit that tells a tracker apart off an identifier.
pub fn port_id_from<'a>(identifier: &'a str) -> (r: &'a str)
    ensures
        r@ == port_id_of(identifier@),
{
    let chars = chars_of(identifier);
    let ghost is_digit = |c: char| is_decimal_digit(c);
    let mut at: usize = 0;
    while at < chars.len()
        invariant
            at <= chars.len(),
            forall|k: int| 0 <= k < at ==> !is_digit(#[trigger] chars@[k]),
            is_digit == (|c: char| is_decimal_digit(c)),
        ensures
            at < chars.len() ==> is_digit(chars@[at as int]),
        decreases chars.len() - at,
    {
        let n = chars[at] as u32;
        if 0x30 <= n && n <= 0x39 {
            break;
        }
        at += 1;
    }
    proof {
        lemma_first_where_is(chars@, is_digit, at as int);
    }
    if at < chars.len() {
        identifier.substring_char(at, at + 1)
    } else {
        "0"
    }
}

/// Whether an identifier in lower case is that of an `i` frame of one
/// tracker: an `i` and one more one-byte character.
pub open spec fn is_info_frame(identifier: Seq<char>) -> bool {
    identifier.len() == 2 && identifier[0] == 'i' && (identifier[1] as u32) < 0x80
}

/// Whether an identifier in lower case is that of an `r` frame.
pub open spec fn is_assignment_frame(identifier: Seq<char>) -> bool {
    identifier.len() > 0 && identifier[0] == 'r'
}

/// The serial number that no tracker has: the dongle's own.
pub open spec fn dongle_serial() -> Seq<char> {
    "A00000"@
}

/// The model told by the `model` member of an `i` frame.
pub open spec fn model_in(member: Option<Seq<char>>) -> Option<TrackerModel> {
    match member {
        Some(code) => model_of_code(uppercased(code)),
        None => None,
    }
}

/// The record that the payload of an `i` frame announces for the given
/// slot: there is one if the payload is a JSON object with a serial
/// number other than the dongle's own.
pub open spec fn announced(port: Seq<char>, port_id: Seq<char>, payload: Seq<char>) -> Option<
    TrackerInfoView,
> {
    if !json_valid(payload) {
        None
    } else {
        match json_string_member(payload, "serial no"@) {
            Some(serial) => if serial == dongle_serial() {
                None
            } else {
                Some(
                    TrackerInfoView {
                        serial_number: serial,
                        port,
                        port_id,
                        assignment: Seq::empty(),
                        tracker_type: model_in(json_string_member(payload, "model"@)),
                    },
                )
            },
            None => None,
        }
    }
}

/// The records after an `i` frame: what it announces is registered,
/// unless the slot has a record already.
pub open spec fn after_info(
    entries: Seq<TrackerInfoView>,
    port: Seq<char>,
    port_id: Seq<char>,
    payload: Seq<char>,
) -> Seq<TrackerInfoView> {
    match announced(port, port_id, payload) {
        Some(entry) => if first_where(entries, at_slot(port, port_id)) is None {
            entries.push(entry)
        } else {
            entries
        },
        None => entries,
    }
}

/// The body part that the payload of an `r` frame assigns: the entry of
/// its fifth character in the body-part table.
pub open spec fn assigned_label(payload: Seq<char>) -> Option<Seq<char>> {
    if payload.len() > 4 {
        label_of_digit(payload[4])
    } else {
        None
    }
}

/// The records after an `r` frame: the record of the slot gets the
/// assigned body part if it has none yet.
pub open spec fn after_assignment(
    entries: Seq<TrackerInfoView>,
    port: Seq<char>,
    port_id: Seq<char>,
    payload: Seq<char>,
) -> Seq<TrackerInfoView> {
    match (assigned_label(payload), first_where(entries, at_slot(port, port_id))) {
        (Some(label), Some(at)) => if entries[at].assignment.len() == 0 {
            entries.update(at, TrackerInfoView { assignment: label, ..entries[at] })
        } else {
            entries
        },
        _ => entries,
    }
}

/// The records after a line from `port`. A line without colon changes
/// nothing.
pub open spec fn after_line(entries: Seq<TrackerInfoView>, port: Seq<char>, line: Seq<char>) -> Seq<
    TrackerInfoView,
> {
    if first_index_of(line, ':') is None {
        entries
    } else {
        let identifier = lowercased(line_identifier(line));
        let port_id = port_id_of(identifier);
        let payload = line_payload(line);
        let known = if is_info_frame(identifier) {
            after_info(entries, port, port_id, payload)
        } else {
            entries
        };
        if is_assignment_frame(identifier) {
            after_assignment(known, port, port_id, payload)
        } else {
            known
        }
    }
}

/// Where a line is to be sent for interpretation.
#[derive(Debug, PartialEq, Eq)]
pub struct LineRoute {
    /// The tracker's name: its serial number.
    pub tracker_name: String,
    pub assignment: String,
    pub tracker_type: TrackerModel,
}

/// The mathematical content of a [`LineRoute`].
pub struct LineRouteView {
    pub tracker_name: Seq<char>,
    pub assignment: Seq<char>,
    pub tracker_type: TrackerModel,
}

impl View for LineRoute {
    type V = LineRouteView;

    open spec fn view(&self) -> LineRouteView {
        LineRouteView {
            tracker_name: self.tracker_name@,
            assignment: self.assignment@,
            tracker_type: self.tracker_type,
        }
    }
}

/// What an optional route holds.
pub open spec fn route_view(route: Option<LineRoute>) -> Option<LineRouteView> {
    match route {
        Some(r) => Some(r@),
        None => None,
    }
}

/// Where a line from `port` goes, given the records after it: to the
/// interpreters, once the slot's record has a model and a body part.
pub open spec fn route_of(entries: Seq<TrackerInfoView>, port: Seq<char>, line: Seq<char>) -> Option<
    LineRouteView,
> {
    if first_index_of(line, ':') is None {
        None
    } else {
        let port_id = port_id_of(lowercased(line_identifier(line)));
        match first_where(entries, at_slot(port, port_id)) {
            Some(at) => match entries[at].tracker_type {
                Some(model) => if entries[at].assignment.len() > 0 {
                    Some(
                        LineRouteView {
                            tracker_name: entries[at].serial_number,
                            assignment: entries[at].assignment,
                            tracker_type: model,
                        },
                    )
                } else {
                    None
                },
                None => None,
            },
            None => None,
        }
    }
}

/// The trackers behind all open ports.
pub struct SerialRegistry {
    trackers: Vec<TrackerInfo>,
}

impl SerialRegistry {
    /// The records, in the order in which they were registered.
    pub closed spec fn view(&self) -> Seq<TrackerInfoView> {
        info_views(self.trackers@)
    }

    /// No slot has two records.
    pub open spec fn wf(&self) -> bool {
        unique_slots(self@)
    }

    /// A registry without records.
    pub fn new() -> (r: Self)
        ensures
            r@ == Seq::<TrackerInfoView>::empty(),
            r.wf(),
    {
        let r = SerialRegistry { trackers: Vec::new() };
        assert(r@ =~= Seq::<TrackerInfoView>::empty());
        r
    }

    /// The records, in the order in which they were registered.
    pub fn trackers(&self) -> (r: &Vec<TrackerInfo>)
        ensures
            info_views(r@) == self@,
    {
        &self.trackers
    }

    /// Forgets every record.
    pub fn clear(&mut self)
        ensures
            final(self)@ == Seq::<TrackerInfoView>::empty(),
            final(self).wf(),
    {
        self.trackers.clear();
        assert(self@ =~= Seq::<TrackerInfoView>::empty());
    }

    /// Finds the record of a slot.
    fn find_slot(&self, port: &str, port_id: &str) -> (r: Option<usize>)
        ensures
            r matches Some(at) ==> first_where(self@, at_slot(port@, port_id@)) == Some(at as int)
                && at < self.trackers.len(),
            r is None ==> first_where(self@, at_slot(port@, port_id@)) is None,
    {
        let mut at: usize = 0;
        while at < self.trackers.len()
            invariant
                at <= self.trackers.len(),
                forall|k: int| 0 <= k < at ==> !at_slot(port@, port_id@)(#[trigger] self@[k]),
            ensures
                at < self.trackers.len() ==> at_slot(port@, port_id@)(self@[at as int]),
            decreases self.trackers.len() - at,
        {
            if same_text(self.trackers[at].port.as_str(), port) && same_text(
                self.trackers[at].port_id.as_str(),
                port_id,
            ) {
                break;
            }
            at += 1;
        }
        proof {
            lemma_first_where_is(self@, at_slot(port@, port_id@), at as int);
        }
        if at < self.trackers.len() {
            Some(at)
        } else {
            None
        }
    }

    /// Finds the first record with the given body part.
    fn find_assignment(&self, assignment: &str) -> (r: Option<usize>)
        ensures
            r matches Some(at) ==> first_where(self@, mounted_on(assignment@)) == Some(at as int)
                && at < self.trackers.len(),
            r is None ==> first_where(self@, mounted_on(assignment@)) is None,
    {
        let mut at: usize = 0;
        while at < self.trackers.len()
            invariant
                at <= self.trackers.len(),
                forall|k: int| 0 <= k < at ==> !mounted_on(assignment@)(#[trigger] self@[k]),
            ensures
                at < self.trackers.len() ==> mounted_on(assignment@)(self@[at as int]),
            decreases self.trackers.len() - at,
        {
            if same_text(self.trackers[at].assignment.as_str(), assignment) {
                break;
            }
            at += 1;
        }
        proof {
            lemma_first_where_is(self@, mounted_on(assignment@), at as int);
        }
        if at < self.trackers.len() {
            Some(at)
        } else {
            None
        }
    }

    /// Takes note of the payload of an `i` frame.
    fn note_info(&mut self, port: &str, port_id: &str, payload: &str)
        requires
            old(self).wf(),
        ensures
            final(self).wf(),
            final(self)@ == after_info(old(self)@, port@, port_id@, payload@),
    {
        let serial = match json_string(payload, "serial no") {
            Ok(Some(serial)) => serial,
            _ => {
                return ;
            },
        };
        if same_text(serial.as_str(), "A00000") {
            return ;
        }
        let tracker_type = match json_string(payload, "model") {
            Ok(Some(code)) => get_tracker_type_from_model(code.as_str()),
            _ => None,
        };
        if self.find_slot(port, port_id).is_some() {
            return ;
        }
        let entry = TrackerInfo {
            serial_number: serial,
            port: String::from_str(port),
            port_id: String::from_str(port_id),
            assignment: String::new(),
            tracker_type,
        };
        proof {
            lemma_first_where(self@, at_slot(port@, port_id@));
        }
        self.trackers.push(entry);
        assert(self@ =~= old(self)@.push(entry@));
        assert(entry@.assignment =~= Seq::<char>::empty());
    }

    /// Takes note of the payload of an `r` frame.
    fn note_assignment(&mut self, port: &str, port_id: &str, payload: &str)
        requires
            old(self).wf(),
        ensures
            final(self).wf(),
            final(self)@ == after_assignment(old(self)@, port@, port_id@, payload@),
    {
        let chars = chars_of(payload);
        if chars.len() <= 4 {
            return ;
        }
        let label = match assignment_of_digit(chars[4]) {
            Some(label) => label,
            None => {
                return ;
            },
        };
        let at = match self.find_slot(port, port_id) {
            Some(at) => at,
            None => {
                return ;
            },
        };
        if self.trackers[at].assignment.as_str().unicode_len() != 0 {
            return ;
        }
        let entry = TrackerInfo {
            serial_number: self.trackers[at].serial_number.clone(),
            port: self.trackers[at].port.clone(),
            port_id: self.trackers[at].port_id.clone(),
            assignment: String::from_str(label),
            tracker_type: self.trackers[at].tracker_type,
        };
        self.trackers.set(at, entry);
        assert(self@ =~= old(self)@.update(at as int, entry@));
    }
}

/// Takes note of a line received from `port` and tells where it goes.
///
/// An `i` frame registers its tracker, an `r` frame assigns the
/// tracker's body part. The line, of whatever kind, is then routed to
/// the interpreters if the tracker behind it has a model and a body
/// part.
pub fn handle_line(registry: &mut SerialRegistry, port: &str, line: &str) -> (r: Option<LineRoute>)
    requires
        old(registry).wf(),
    ensures
        final(registry).wf(),
        final(registry)@ == after_line(old(registry)@, port@, line@),
        route_view(r) == route_of(final(registry)@, port@, line@),
{
    let chars = chars_of(line);
    if find_char(&chars, ':').is_none() {
        return None;
    }
    let (identifier, payload) = split_line(line);
    let lower = to_lowercase(identifier);
    let port_id = port_id_from(lower.as_str());
    let id = chars_of(lower.as_str());
    if id.len() == 2 && id[0] == 'i' && (id[1] as u32) < 0x80 {
        registry.note_info(port, port_id, payload);
    }
    if id.len() > 0 && id[0] == 'r' {
        registry.note_assignment(port, port_id, payload);
    }
    let at = match registry.find_slot(port, port_id) {
        Some(at) => at,
        None => {
            return None;
        },
    };
    let entry = &registry.trackers[at];
    match entry.tracker_type {
        Some(model) => {
            if entry.assignment.as_str().unicode_len() > 0 {
                Some(
                    LineRoute {
                        tracker_name: entry.serial_number.clone(),
                        assignment: entry.assignment.clone(),
                        tracker_type: model,
                    },
                )
            } else {
                None
            }
        },
        None => None,
    }
}

/// What `get_tracker_id` returns: the digit of the first record mounted
/// on the body part, and `NotFound` where there is none.
pub open spec fn tracker_id_of(entries: Seq<TrackerInfoView>, assignment: Seq<char>) -> Result<
    Seq<char>,
    ErrorKind,
> {
    match first_where(entries, mounted_on(assignment)) {
        Some(at) => Ok(entries[at].port_id),
        None => Err(ErrorKind::NotFound),
    }
}

/// What `get_tracker_port` returns: the port of the first record
/// mounted on the body part, and `NotFound` where there is none.
pub open spec fn tracker_port_of(entries: Seq<TrackerInfoView>, assignment: Seq<char>) -> Result<
    Seq<char>,
    ErrorKind,
> {
    match first_where(entries, mounted_on(assignment)) {
        Some(at) => Ok(entries[at].port),
        None => Err(ErrorKind::NotFound),
    }
}

/// What a result with a string holds.
pub open spec fn result_text(r: Result<String, ErrorKind>) -> Result<Seq<char>, ErrorKind> {
    match r {
        Ok(s) => Ok(s@),
        Err(e) => Err(e),
    }
}

/// Tells the digit under which the dongle knows the tracker mounted on
/// the body part `tracker_name`.
pub fn get_tracker_id(registry: &SerialRegistry, tracker_name: &str) -> (r: Result<String, ErrorKind>)
    ensures
        result_text(r) == tracker_id_of(registry@, tracker_name@),
{
    match registry.find_assignment(tracker_name) {
        Some(at) => Ok(registry.trackers[at].port_id.clone()),
        None => Err(ErrorKind::NotFound),
    }
}

/// Tells the port behind which the tracker mounted on the body part
/// `tracker_name` stands.
pub fn get_tracker_port(registry: &SerialRegistry, tracker_name: &str) -> (r: Result<
    String,
    ErrorKind,
>)
    ensures
        result_text(r) == tracker_port_of(registry@, tracker_name@),
{
    match registry.find_assignment(tracker_name) {
        Some(at) => Ok(registry.trackers[at].port.clone()),
        None => Err(ErrorKind::NotFound),
    }
}

/// Finds an open port by its path: the position of the first port of
/// that name, and `NotFound` where none is open.
pub fn find_port(open_ports: &Vec<String>, port_path: &str) -> (r: Result<usize, ErrorKind>)
    ensures
        match first_where(texts(open_ports@), |name: Seq<char>| name == port_path@) {
            Some(at) => r == Ok::<usize, ErrorKind>(at as usize) && at < open_ports.len(),
            None => r == Err::<usize, ErrorKind>(ErrorKind::NotFound),
        },
{
    let ghost named = |name: Seq<char>| name == port_path@;
    let mut at: usize = 0;
    while at < open_ports.len()
        invariant
            at <= open_ports.len(),
            forall|k: int| 0 <= k < at ==> !named(#[trigger] texts(open_ports@)[k]),
            named == (|name: Seq<char>| name == port_path@),
        ensures
            at < open_ports.len() ==> named(texts(open_ports@)[at as int]),
        decreases open_ports.len() - at,
    {
        if same_text(open_ports[at].as_str(), port_path) {
            break;
        }
        at += 1;
    }
    proof {
        lemma_first_where_is(texts(open_ports@), named, at as int);
    }
    if at < open_ports.len() {
        Ok(at)
    } else {
        Err(ErrorKind::NotFound)
    }
}

/// The records after a run of lines from `port`.
pub open spec fn after_lines(
    entries: Seq<TrackerInfoView>,
    port: Seq<char>,
    lines: Seq<Seq<char>>,
) -> Seq<TrackerInfoView>
    decreases lines.len(),
{
    if lines.len() == 0 {
        entries
    } else {
        after_line(after_lines(entries, port, lines.drop_last()), port, lines.last())
    }
}

/// Every body part of the table has a name.
pub proof fn lemma_label_not_empty(c: char)
    ensures
        label_of_digit(c) matches Some(label) ==> label.len() > 0,
{
    reveal_strlit("DONGLE");
    reveal_strlit("chest");
    reveal_strlit("leftKnee");
    reveal_strlit("leftAnkle");
    reveal_strlit("rightKnee");
    reveal_strlit("rightAnkle");
    reveal_strlit("hip");
    reveal_strlit("leftElbow");
    reveal_strlit("rightElbow");
    reveal_strlit("leftWrist");
    reveal_strlit("rightWrist");
    reveal_strlit("head");
    reveal_strlit("leftFoot");
    reveal_strlit("rightFoot");
}

/// What a record may become by one line: it stays as it is, or it has no
/// body part yet and gets the one that the line assigns.
pub open spec fn settles(before: TrackerInfoView, after: TrackerInfoView, line: Seq<char>) -> bool {
    after == before || (before.assignment.len() == 0 && after.assignment.len() > 0 && Some(
        after.assignment,
    ) == assigned_label(line_payload(line)) && after == TrackerInfoView {
        assignment: after.assignment,
        ..before
    })
}

/// A line leaves every slot with at most one record, keeps every
/// record, and changes a record only by giving it its body part.
pub proof fn lemma_line_settles(entries: Seq<TrackerInfoView>, port: Seq<char>, line: Seq<char>)
    requires
        unique_slots(entries),
    ensures
        unique_slots(after_line(entries, port, line)),
        after_line(entries, port, line).len() >= entries.len(),
        forall|i: int|
            0 <= i < entries.len() ==> settles(
                entries[i],
                #[trigger] after_line(entries, port, line)[i],
                line,
            ),
{
    if first_index_of(line, ':') is Some {
        let identifier = lowercased(line_identifier(line));
        let port_id = port_id_of(identifier);
        let payload = line_payload(line);
        let known = if is_info_frame(identifier) {
            after_info(entries, port, port_id, payload)
        } else {
            entries
        };
        lemma_first_where(entries, at_slot(port, port_id));
        assert(unique_slots(known));
        lemma_first_where(known, at_slot(port, port_id));
        if payload.len() > 4 {
            lemma_label_not_empty(payload[4]);
        }
        let after = after_line(entries, port, line);
        assert(unique_slots(after));
        assert forall|i: int| 0 <= i < entries.len() implies settles(
            entries[i],
            #[trigger] after[i],
            line,
        ) by {
            assert(known[i] == entries[i]);
        }
    }
}

/// However many lines arrive from a port, every slot has at most one
/// record, and a record's body part is set at most once: a record that
/// has one keeps it, and with it everything else.
pub proof fn lemma_assignment_set_once(
    entries: Seq<TrackerInfoView>,
    port: Seq<char>,
    lines: Seq<Seq<char>>,
)
    requires
        unique_slots(entries),
    ensures
        unique_slots(after_lines(entries, port, lines)),
        after_lines(entries, port, lines).len() >= entries.len(),
        forall|i: int|
            0 <= i < entries.len() && entries[i].assignment.len() > 0 ==> #[trigger] after_lines(
                entries,
                port,
                lines,
            )[i] == entries[i],
    decreases lines.len(),
{
    if lines.len() > 0 {
        let earlier = after_lines(entries, port, lines.drop_last());
        lemma_assignment_set_once(entries, port, lines.drop_last());
        lemma_line_settles(earlier, port, lines.last());
        let after = after_line(earlier, port, lines.last());
        assert forall|i: int|
            0 <= i < entries.len() && entries[i].assignment.len() > 0 implies #[trigger] after[i]
            == entries[i] by {
            assert(earlier[i] == entries[i]);
            assert(settles(earlier[i], after[i], lines.last()));
        }
    }
}

} // verus!
