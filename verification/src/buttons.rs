//! Button presses.
//!
//! Over Bluetooth every button has a characteristic of its own, and a
//! notification is a press. Over serial an `r` frame carries the state
//! of the main and the sub button as two nibbles; a press is a nibble
//! that changed, unless the last press of that button is less than
//! [`DEBOUNCE_MS`] milliseconds old.

use crate::error::ErrorKind;
use crate::model::ButtonRole;
use crate::tables::nibble_table;
use crate::tables::nibbles_get;
use crate::tables::nibbles_insert;
use crate::tables::nibbles_new;
use crate::tables::press_table;
use crate::tables::presses_get;
use crate::tables::presses_insert;
use crate::tables::presses_new;
use crate::text::chars_of;
use crate::text::nibble_at;
use crate::text::read_nibble;
use crate::text::same_text;
use crate::text::slice_text;
use vstd::prelude::*;

verus! {

/// The time during which a button that was pressed stays deaf.
pub const DEBOUNCE_MS: u64 = 50;

/// The nibble that a button holds before anything was seen of it. No
/// frame carries it, so the first frame always counts as a change.
pub const UNSEEN: u8 = 255;

/// What is remembered of the buttons: the nibble that each showed at
/// its last press, and when that press was.
pub struct ButtonMap {
    nibbles: dashmap::DashMap<&'static str, u8>,
    pressed_at: dashmap::DashMap<&'static str, u64>,
}

/// The mathematical content of a [`ButtonMap`], by the buttons' names
/// `main`, `sub` and `tertiary`.
pub struct ButtonMapView {
    /// The nibble seen at the last press.
    pub nibbles: Map<Seq<char>, u8>,
    /// When the last press was, in milliseconds of a clock that does not
    /// run backwards. A button that was never pressed has no entry.
    pub pressed_at: Map<Seq<char>, u64>,
}

/// Whether a frame that shows `nibble` for the button `role` at the time
/// `now` is a press: the button is known, the nibble differs from the
/// remembered one, and the button was never pressed or its last press is
/// at least [`DEBOUNCE_MS`] old.
pub open spec fn press_accepted(map: ButtonMapView, role: Seq<char>, nibble: u8, now: u64) -> bool {
    &&& map.nibbles.contains_key(role)
    &&& map.nibbles[role] != nibble
    &&& map.pressed_at.contains_key(role) ==> now >= map.pressed_at[role] && now
        - map.pressed_at[role] >= DEBOUNCE_MS
}

/// The map after a frame: a press is remembered, anything else is not.
pub open spec fn slot_after(map: ButtonMapView, role: Seq<char>, nibble: u8, now: u64) -> ButtonMapView {
    if press_accepted(map, role, nibble, now) {
        ButtonMapView {
            nibbles: map.nibbles.insert(role, nibble),
            pressed_at: map.pressed_at.insert(role, now),
        }
    } else {
        map
    }
}

/// The map and the press reported after the payload of a serial `r`
/// frame: the main button's nibble stands at position 6, the sub
/// button's at position 9. Where both are pressed at once both are
/// remembered, and the sub button is the one reported.
pub open spec fn serial_button_step(map: ButtonMapView, payload: Seq<char>, now: u64) -> (
    ButtonMapView,
    Option<ButtonRole>,
) {
    let main_nibble = nibble_at(payload, 6);
    let sub_nibble = nibble_at(payload, 9);
    let seen = slot_after(map, "main"@, main_nibble, now);
    (
        slot_after(seen, "sub"@, sub_nibble, now),
        if press_accepted(seen, "sub"@, sub_nibble, now) {
            Some(ButtonRole::Sub)
        } else if press_accepted(map, "main"@, main_nibble, now) {
            Some(ButtonRole::Main)
        } else {
            None
        },
    )
}

/// The button whose characteristic has the given name.
pub open spec fn button_role_named(name: Seq<char>) -> Option<ButtonRole> {
    if name == "MainButton"@ {
        Some(ButtonRole::Main)
    } else if name == "SubButton"@ {
        Some(ButtonRole::Sub)
    } else if name == "TertiaryButton"@ {
        Some(ButtonRole::Tertiary)
    } else {
        None
    }
}

/// The map and the outcome after `process_button_data`.
///
/// With a characteristic, its button is reported and the map stays as it
/// is; a name that is no button's is an `UnknownCharacteristic`. Without
/// one, the data is the payload of a serial `r` frame.
pub open spec fn button_outcome(
    map: ButtonMapView,
    data: Seq<char>,
    characteristic: Option<Seq<char>>,
    now: u64,
) -> (ButtonMapView, Result<Option<ButtonRole>, ErrorKind>) {
    match characteristic {
        Some(name) => match button_role_named(name) {
            Some(role) => (map, Ok(Some(role))),
            None => (map, Err(ErrorKind::UnknownCharacteristic)),
        },
        None => {
            let step = serial_button_step(map, data, now);
            (step.0, Ok(step.1))
        },
    }
}

impl ButtonRole {
    /// The name of the button in events: `main`, `sub` or `tertiary`.
    pub fn label(&self) -> (r: &'static str)
        ensures
            r@ == self.label_text(),
    {
        match self {
            ButtonRole::Main => "main",
            ButtonRole::Sub => "sub",
            ButtonRole::Tertiary => "tertiary",
        }
    }

    pub open spec fn label_text(&self) -> Seq<char> {
        match self {
            ButtonRole::Main => "main"@,
            ButtonRole::Sub => "sub"@,
            ButtonRole::Tertiary => "tertiary"@,
        }
    }
}

/// Shows the button `role` a nibble at the time `now`; tells whether
/// that is a press, and remembers it if so.
fn observe(map: &mut ButtonMap, role: &'static str, nibble: u8, now: u64) -> (pressed: bool)
    ensures
        pressed == press_accepted(old(map)@, role@, nibble, now),
        final(map)@ == slot_after(old(map)@, role@, nibble, now),
{
    let previous = match nibbles_get(&map.nibbles, role) {
        Some(previous) => previous,
        None => {
            return false;
        },
    };
    if previous == nibble {
        return false;
    }
    let rested = match presses_get(&map.pressed_at, role) {
        None => true,
        Some(at) => now >= at && now - at >= DEBOUNCE_MS,
    };
    if rested {
        nibbles_insert(&mut map.nibbles, role, nibble);
        presses_insert(&mut map.pressed_at, role, now);
    }
    rested
}

impl ButtonMap {
    /// What is remembered of the buttons.
    pub closed spec fn view(&self) -> ButtonMapView {
        ButtonMapView {
            nibbles: nibble_table(self.nibbles),
            pressed_at: press_table(self.pressed_at),
        }
    }

    /// The map before any frame: every button holds [`UNSEEN`] and none
    /// was pressed.
    pub open spec fn initial() -> ButtonMapView {
        ButtonMapView {
            nibbles: Map::<Seq<char>, u8>::empty().insert("main"@, UNSEEN).insert(
                "sub"@,
                UNSEEN,
            ).insert("tertiary"@, UNSEEN),
            pressed_at: Map::empty(),
        }
    }

    /// The map before any frame.
    pub fn new() -> (r: Self)
        ensures
            r@ == Self::initial(),
    {
        let mut nibbles = nibbles_new();
        nibbles_insert(&mut nibbles, "main", UNSEEN);
        nibbles_insert(&mut nibbles, "sub", UNSEEN);
        nibbles_insert(&mut nibbles, "tertiary", UNSEEN);
        ButtonMap { nibbles, pressed_at: presses_new() }
    }

    /// The nibble that the button showed at its last press.
    pub fn nibble(&self, role: ButtonRole) -> (r: Option<u8>)
        ensures
            r is Some <==> self@.nibbles.contains_key(role.label_text()),
            r matches Some(nibble) ==> nibble == self@.nibbles[role.label_text()],
    {
        nibbles_get(&self.nibbles, role.label())
    }

    /// When the button was pressed last, if it ever was.
    pub fn pressed_at(&self, role: ButtonRole) -> (r: Option<u64>)
        ensures
            r is Some <==> self@.pressed_at.contains_key(role.label_text()),
            r matches Some(at) ==> at == self@.pressed_at[role.label_text()],
    {
        presses_get(&self.pressed_at, role.label())
    }
}

/// Tells which button a characteristic name stands for.
pub fn button_role_of(name: &str) -> (r: Option<ButtonRole>)
    ensures
        r == button_role_named(name@),
{
    if same_text(name, "MainButton") {
        Some(ButtonRole::Main)
    } else if same_text(name, "SubButton") {
        Some(ButtonRole::Sub)
    } else if same_text(name, "TertiaryButton") {
        Some(ButtonRole::Tertiary)
    } else {
        None
    }
}

/// Decodes one button record: a Bluetooth notification of the named
/// characteristic or, without a characteristic, the payload of a serial
/// `r` frame received at the time `now`. Returns the button that was
/// pressed, if one was.
pub fn process_button_data(
    map: &mut ButtonMap,
    data: &str,
    characteristic: Option<&str>,
    now: u64,
) -> (r: Result<Option<ButtonRole>, ErrorKind>)
    ensures
        final(map)@ == button_outcome(old(map)@, data@, slice_text(characteristic), now).0,
        r == button_outcome(old(map)@, data@, slice_text(characteristic), now).1,
{
    match characteristic {
        Some(name) => match button_role_of(name) {
            Some(role) => Ok(Some(role)),
            None => Err(ErrorKind::UnknownCharacteristic),
        },
        None => {
            let chars = chars_of(data);
            let main_nibble = read_nibble(&chars, 6);
            let sub_nibble = read_nibble(&chars, 9);
            let main_hit = observe(map, "main", main_nibble, now);
            let sub_hit = observe(map, "sub", sub_nibble, now);
            if sub_hit {
                Ok(Some(ButtonRole::Sub))
            } else if main_hit {
                Ok(Some(ButtonRole::Main))
            } else {
                Ok(None)
            }
        },
    }
}

/// Of two serial frames less than [`DEBOUNCE_MS`] apart, only the first
/// can report a given button: where the first frame reports a button, the
/// second reports another one or none, whatever it carries.
pub proof fn lemma_debounce(
    map: ButtonMapView,
    first: Seq<char>,
    at: u64,
    second: Seq<char>,
    later: u64,
)
    requires
        at <= later < at + DEBOUNCE_MS,
        serial_button_step(map, first, at).1 is Some,
    ensures
        serial_button_step(serial_button_step(map, first, at).0, second, later).1
            != serial_button_step(map, first, at).1,
{
    reveal_strlit("main");
    reveal_strlit("sub");
    assert("main"@ != "sub"@) by {
        assert("main"@.len() != "sub"@.len());
    }
}

} // verus!
