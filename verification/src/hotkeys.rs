//! Global-hotkey configuration and the shortcut string it registers.
//!
//! Registration itself is platform work; the verified part is the
//! shortcut text handed to the platform: every modifier in order, each
//! followed by a plus sign, then the key.

use vstd::prelude::*;
use vstd::string::StringExecFns;

verus! {

/// A hotkey as configured by the frontend.
#[derive(PartialEq, Eq, Debug)]
pub struct HotkeyConfig {
    /// The key name, such as a single letter.
    pub key: String,
    /// Modifier names, in the order they are to be written.
    pub modifiers: Vec<String>,
}

/// A hotkey as registered with the platform.
#[derive(PartialEq, Eq, Debug)]
pub struct Hotkey {
    /// The key name.
    pub key: String,
    /// Modifier names, in order.
    pub modifiers: Vec<String>,
}

impl Hotkey {
    /// Adopts a frontend configuration unchanged.
    pub fn from_config(config: HotkeyConfig) -> (r: Hotkey)
        ensures
            r.key == config.key,
            r.modifiers == config.modifiers,
    {
        Hotkey { key: config.key, modifiers: config.modifiers }
    }
}

/// The text of the modifier prefix: each modifier followed by a plus
/// sign, in order.
pub open spec fn spec_modifier_prefix(mods: Seq<String>) -> Seq<char>
    decreases mods.len(),
{
    if mods.len() == 0 {
        Seq::empty()
    } else {
        spec_modifier_prefix(mods.drop_last()) + mods.last()@ + "+"@
    }
}

/// The full shortcut text: the modifier prefix, then the key.
pub open spec fn spec_shortcut_text(mods: Seq<String>, key: Seq<char>) -> Seq<char> {
    spec_modifier_prefix(mods) + key
}

/// Builds the shortcut string for a hotkey, such as the modifiers
/// `Ctrl` and `Shift` with key `S` giving `Ctrl+Shift+S`.
pub fn shortcut_string(hotkey: &Hotkey) -> (r: String)
    ensures
        r@ == spec_shortcut_text(hotkey.modifiers@, hotkey.key@),
{
    let n = hotkey.modifiers.len();
    let mut s = String::new();
    let mut i: usize = 0;
    while i < n
        invariant
            n == hotkey.modifiers@.len(),
            i <= n,
            s@ == spec_modifier_prefix(hotkey.modifiers@.take(i as int)),
        decreases n - i,
    {
        s.append(hotkey.modifiers[i].as_str());
        s.append("+");
        proof {
            let taken = hotkey.modifiers@.take(i + 1);
            assert(taken.drop_last() =~= hotkey.modifiers@.take(i as int));
            assert(taken.last() == hotkey.modifiers@[i as int]);
        }
        i = i + 1;
    }
    proof {
        assert(hotkey.modifiers@.take(n as int) =~= hotkey.modifiers@);
    }
    s.append(hotkey.key.as_str());
    s
}

/// The default hotkey registered at startup: Ctrl+Shift+S.
pub fn default_hotkey() -> (r: Hotkey)
    ensures
        r.key@ == "S"@,
        r.modifiers@.len() == 2,
        r.modifiers@[0]@ == "Ctrl"@,
        r.modifiers@[1]@ == "Shift"@,
{
    let mut modifiers: Vec<String> = Vec::new();
    modifiers.push(String::from_str("Ctrl"));
    modifiers.push(String::from_str("Shift"));
    Hotkey { key: String::from_str("S"), modifiers }
}

} // verus!
