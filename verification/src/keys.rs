use vstd::prelude::*;

verus! {

/// Modifier that must be held together with the function key for a hotkey
/// combo to count as pressed.
#[derive(Clone, Copy, PartialEq, Eq, Structural, Debug)]
pub enum ModifierKey {
    NoModifier,
    Alt,
    Ctrl,
    Shift,
    AltCtrl,
}

/// The function keys a hotkey combo can be bound to.
#[derive(Clone, Copy, PartialEq, Eq, Structural, Debug)]
pub enum FunctionKey {
    F1,
    F2,
    F3,
    F4,
    F5,
    F6,
    F7,
    F8,
    F9,
    F10,
    F11,
    F12,
}

impl ModifierKey {
    /// The prefix this modifier contributes to a displayed hotkey label,
    /// ending in `+` when a modifier is present.
    pub open spec fn label(self) -> Seq<char> {
        match self {
            ModifierKey::NoModifier => ""@,
            ModifierKey::Alt => "Alt+"@,
            ModifierKey::Ctrl => "Ctrl+"@,
            ModifierKey::Shift => "Shift+"@,
            ModifierKey::AltCtrl => "Alt+Ctrl+"@,
        }
    }

    pub fn to_string(&self) -> (s: String)
        ensures
            s@ == self.label(),
    {
        match self {
            ModifierKey::NoModifier => "".to_owned(),
            ModifierKey::Alt => "Alt+".to_owned(),
            ModifierKey::Ctrl => "Ctrl+".to_owned(),
            ModifierKey::Shift => "Shift+".to_owned(),
            ModifierKey::AltCtrl => "Alt+Ctrl+".to_owned(),
        }
    }
}

impl FunctionKey {
    /// The name this key shows under in a displayed hotkey label.
    pub open spec fn label(self) -> Seq<char> {
        match self {
            FunctionKey::F1 => "F1"@,
            FunctionKey::F2 => "F2"@,
            FunctionKey::F3 => "F3"@,
            FunctionKey::F4 => "F4"@,
            FunctionKey::F5 => "F5"@,
            FunctionKey::F6 => "F6"@,
            FunctionKey::F7 => "F7"@,
            FunctionKey::F8 => "F8"@,
            FunctionKey::F9 => "F9"@,
            FunctionKey::F10 => "F10"@,
            FunctionKey::F11 => "F11"@,
            FunctionKey::F12 => "F12"@,
        }
    }

    pub fn to_string(&self) -> (s: String)
        ensures
            s@ == self.label(),
    {
        match self {
            FunctionKey::F1 => "F1".to_owned(),
            FunctionKey::F2 => "F2".to_owned(),
            FunctionKey::F3 => "F3".to_owned(),
            FunctionKey::F4 => "F4".to_owned(),
            FunctionKey::F5 => "F5".to_owned(),
            FunctionKey::F6 => "F6".to_owned(),
            FunctionKey::F7 => "F7".to_owned(),
            FunctionKey::F8 => "F8".to_owned(),
            FunctionKey::F9 => "F9".to_owned(),
            FunctionKey::F10 => "F10".to_owned(),
            FunctionKey::F11 => "F11".to_owned(),
            FunctionKey::F12 => "F12".to_owned(),
        }
    }
}

/// The pair of hotkey combos a poller watches: one that toggles the session,
/// and one that only stops it. The two may be the same combo, in which case
/// only the toggle branch may fire.
#[derive(Clone, Copy, PartialEq, Eq, Structural, Debug)]
pub struct HotkeySpec {
    pub start_modifier: ModifierKey,
    pub start_key: FunctionKey,
    pub stop_modifier: ModifierKey,
    pub stop_key: FunctionKey,
}

impl HotkeySpec {
    /// The start and stop combos are the same physical key chord.
    pub open spec fn same_combo(self) -> bool {
        self.start_modifier == self.stop_modifier && self.start_key == self.stop_key
    }

    pub fn is_same_combo(&self) -> (r: bool)
        ensures
            r == self.same_combo(),
    {
        self.start_modifier == self.stop_modifier && self.start_key == self.stop_key
    }
}

} // verus!
