//! The concurrent tables of the bridge, kept in `dashmap::DashMap` and
//! `dashmap::DashSet`.
//!
//! Verus sees a `DashMap` or a `DashSet` as an opaque value. What a table holds is named
//! by a specification function, and every method the crate calls is stated
//! over that name. The contracts are not proved: they restate dashmap's
//! documentation. All access goes through `&mut`, so a table never changes
//! behind the verifier's back.

use crate::text::texts;
use vstd::prelude::*;

verus! {

/// `dashmap::DashMap`, opaque to the verifier.
#[verifier::external_type_specification]
#[verifier::external_body]
#[verifier::reject_recursive_types(K)]
#[verifier::reject_recursive_types(V)]
#[verifier::reject_recursive_types(S)]
pub struct ExDashMap<K, V, S>(dashmap::DashMap<K, V, S>);

/// What a name holds in the emulated-tracker registry: nothing while the
/// tracker is being created (`false`), a live handle afterwards (`true`).
pub uninterp spec fn slot_table(m: dashmap::DashMap<String, bool>) -> Map<Seq<char>, bool>;

/// The table without entries.
pub open spec fn no_slots() -> Map<Seq<char>, bool> {
    Map::empty()
}

/// `DashMap::new`: a table without entries.
#[verifier::external_body]
pub(crate) fn slots_new() -> (m: dashmap::DashMap<String, bool>)
    ensures
        slot_table(m) == no_slots(),
{
    dashmap::DashMap::new()
}

/// `DashMap::get`, copying the value out: what the table holds under
/// `key`, if anything.
#[verifier::external_body]
pub(crate) fn slots_get(m: &dashmap::DashMap<String, bool>, key: &str) -> (r: Option<bool>)
    ensures
        r is Some <==> slot_table(*m).contains_key(key@),
        r matches Some(v) ==> v == slot_table(*m)[key@],
{
    m.get(key).map(|entry| *entry.value())
}

/// `DashMap::insert`: afterwards the table holds `value` under `key` and
/// is otherwise unchanged.
#[verifier::external_body]
pub(crate) fn slots_insert(m: &mut dashmap::DashMap<String, bool>, key: String, value: bool)
    ensures
        slot_table(*final(m)) == slot_table(*old(m)).insert(key@, value),
{
    m.insert(key, value);
}

/// `DashMap::remove`: afterwards the table holds nothing under `key` and
/// is otherwise unchanged; the value that was there is returned.
#[verifier::external_body]
pub(crate) fn slots_remove(m: &mut dashmap::DashMap<String, bool>, key: &str) -> (r: Option<bool>)
    ensures
        slot_table(*final(m)) == slot_table(*old(m)).remove(key@),
        r is Some <==> slot_table(*old(m)).contains_key(key@),
        r matches Some(v) ==> v == slot_table(*old(m))[key@],
{
    m.remove(key).map(|pair| pair.1)
}

/// `DashMap::clear`: afterwards the table holds nothing.
#[verifier::external_body]
pub(crate) fn slots_clear(m: &mut dashmap::DashMap<String, bool>)
    ensures
        slot_table(*final(m)) == no_slots(),
{
    m.clear();
}

/// `DashMap::iter`, keeping a copy of each key: every key of the table
/// once, in an order that the hasher decides.
#[verifier::external_body]
pub(crate) fn slots_keys(m: &dashmap::DashMap<String, bool>) -> (r: Vec<String>)
    ensures
        texts(r@).no_duplicates(),
        texts(r@).to_set() == slot_table(*m).dom(),
{
    m.iter().map(|entry| entry.key().clone()).collect()
}

/// What the battery ledger holds for a tracker: the level, the voltage
/// and the charge code seen last, each absent until reported.
pub uninterp spec fn ledger_table(
    m: dashmap::DashMap<String, (Option<u8>, Option<u16>, Option<u8>)>,
) -> Map<Seq<char>, (Option<u8>, Option<u16>, Option<u8>)>;

/// The ledger without entries.
pub open spec fn no_ledger() -> Map<Seq<char>, (Option<u8>, Option<u16>, Option<u8>)> {
    Map::empty()
}

/// `DashMap::new`: a table without entries.
#[verifier::external_body]
pub(crate) fn ledger_new() -> (m: dashmap::DashMap<String, (Option<u8>, Option<u16>, Option<u8>)>)
    ensures
        ledger_table(m) == no_ledger(),
{
    dashmap::DashMap::new()
}

/// `DashMap::get`, copying the value out: what the table holds under
/// `key`, if anything.
#[verifier::external_body]
pub(crate) fn ledger_get(
    m: &dashmap::DashMap<String, (Option<u8>, Option<u16>, Option<u8>)>,
    key: &str,
) -> (r: Option<(Option<u8>, Option<u16>, Option<u8>)>)
    ensures
        r is Some <==> ledger_table(*m).contains_key(key@),
        r matches Some(v) ==> v == ledger_table(*m)[key@],
{
    m.get(key).map(|entry| *entry.value())
}

/// `DashMap::insert`: afterwards the table holds `value` under `key` and
/// is otherwise unchanged.
#[verifier::external_body]
pub(crate) fn ledger_insert(
    m: &mut dashmap::DashMap<String, (Option<u8>, Option<u16>, Option<u8>)>,
    key: String,
    value: (Option<u8>, Option<u16>, Option<u8>),
)
    ensures
        ledger_table(*final(m)) == ledger_table(*old(m)).insert(key@, value),
{
    m.insert(key, value);
}

/// The nibble that each button showed at its last press, by the button's
/// name.
pub uninterp spec fn nibble_table(m: dashmap::DashMap<&'static str, u8>) -> Map<Seq<char>, u8>;

/// The table of nibbles without entries.
pub open spec fn no_nibbles() -> Map<Seq<char>, u8> {
    Map::empty()
}

/// `DashMap::new`: a table without entries.
#[verifier::external_body]
pub(crate) fn nibbles_new() -> (m: dashmap::DashMap<&'static str, u8>)
    ensures
        nibble_table(m) == no_nibbles(),
{
    dashmap::DashMap::new()
}

/// `DashMap::get`, copying the value out: what the table holds under
/// `key`, if anything.
#[verifier::external_body]
pub(crate) fn nibbles_get(m: &dashmap::DashMap<&'static str, u8>, key: &str) -> (r: Option<u8>)
    ensures
        r is Some <==> nibble_table(*m).contains_key(key@),
        r matches Some(v) ==> v == nibble_table(*m)[key@],
{
    m.get(key).map(|entry| *entry.value())
}

/// `DashMap::insert`: afterwards the table holds `value` under `key` and
/// is otherwise unchanged.
#[verifier::external_body]
pub(crate) fn nibbles_insert(m: &mut dashmap::DashMap<&'static str, u8>, key: &'static str, value: u8)
    ensures
        nibble_table(*final(m)) == nibble_table(*old(m)).insert(key@, value),
{
    m.insert(key, value);
}

/// When each button was pressed last, in milliseconds, by the button's
/// name. A button that was never pressed has no entry.
pub uninterp spec fn press_table(m: dashmap::DashMap<&'static str, u64>) -> Map<Seq<char>, u64>;

/// The table of press times without entries.
pub open spec fn no_presses() -> Map<Seq<char>, u64> {
    Map::empty()
}

/// `DashMap::new`: a table without entries.
#[verifier::external_body]
pub(crate) fn presses_new() -> (m: dashmap::DashMap<&'static str, u64>)
    ensures
        press_table(m) == no_presses(),
{
    dashmap::DashMap::new()
}

/// `DashMap::get`, copying the value out: what the table holds under
/// `key`, if anything.
#[verifier::external_body]
pub(crate) fn presses_get(m: &dashmap::DashMap<&'static str, u64>, key: &str) -> (r: Option<u64>)
    ensures
        r is Some <==> press_table(*m).contains_key(key@),
        r matches Some(v) ==> v == press_table(*m)[key@],
{
    m.get(key).map(|entry| *entry.value())
}

/// `DashMap::insert`: afterwards the table holds `value` under `key` and
/// is otherwise unchanged.
#[verifier::external_body]
pub(crate) fn presses_insert(m: &mut dashmap::DashMap<&'static str, u64>, key: &'static str, value: u64)
    ensures
        press_table(*final(m)) == press_table(*old(m)).insert(key@, value),
{
    m.insert(key, value);
}

/// `dashmap::DashSet`, opaque to the verifier.
#[verifier::external_type_specification]
#[verifier::external_body]
#[verifier::reject_recursive_types(K)]
#[verifier::reject_recursive_types(S)]
pub struct ExDashSet<K, S>(dashmap::DashSet<K, S>);

/// The tracker models that a set holds, each by its code.
pub uninterp spec fn model_set(m: dashmap::DashSet<u8>) -> Set<u8>;

/// The set of codes without members.
pub open spec fn no_codes() -> Set<u8> {
    Set::empty()
}

/// `DashSet::new`: a set without members.
#[verifier::external_body]
pub(crate) fn models_new() -> (m: dashmap::DashSet<u8>)
    ensures
        model_set(m) == no_codes(),
{
    dashmap::DashSet::new()
}

/// `DashSet::contains`: whether `code` is a member.
#[verifier::external_body]
pub(crate) fn models_contains(m: &dashmap::DashSet<u8>, code: u8) -> (r: bool)
    ensures
        r == model_set(*m).contains(code),
{
    m.contains(&code)
}

/// `DashSet::insert`: afterwards `code` is a member and the set is
/// otherwise unchanged.
#[verifier::external_body]
pub(crate) fn models_insert(m: &mut dashmap::DashSet<u8>, code: u8)
    ensures
        model_set(*final(m)) == model_set(*old(m)).insert(code),
{
    m.insert(code);
}

/// `DashSet::remove`: afterwards `code` is no member and the set is
/// otherwise unchanged.
#[verifier::external_body]
pub(crate) fn models_remove(m: &mut dashmap::DashSet<u8>, code: u8)
    ensures
        model_set(*final(m)) == model_set(*old(m)).remove(code),
{
    m.remove(&code);
}

/// `DashSet::iter`, keeping a copy of each member: every member of the
/// set once, in an order that the hasher decides.
#[verifier::external_body]
pub(crate) fn models_walk(m: &dashmap::DashSet<u8>) -> (r: Vec<u8>)
    ensures
        r@.no_duplicates(),
        r@.to_set() == model_set(*m),
{
    m.iter().map(|code| *code).collect()
}

} // verus!
