use vstd::prelude::*;
use vstd::string::*;
use crate::model::{KeyCombo, ModifierKey};

verus! {

/// The dispatcher's name of a modifier key.
pub open spec fn modifier_name(m: ModifierKey) -> Seq<char> {
    match m {
        ModifierKey::Shift => "SHIFT"@,
        ModifierKey::Ctrl => "CTRL"@,
        ModifierKey::Alt => "ALT"@,
        ModifierKey::Super => "SUPER"@,
    }
}

/// The modifier names in order, joined by `_`.
pub open spec fn modifiers_text(mods: Seq<ModifierKey>) -> Seq<char>
    decreases mods.len(),
{
    if mods.len() == 0 {
        Seq::empty()
    } else if mods.len() == 1 {
        modifier_name(mods[0])
    } else {
        modifiers_text(mods.drop_last()) + "_"@ + modifier_name(mods.last())
    }
}

/// The dispatcher's argument for a key combination: modifiers, key and the
/// target window (empty, meaning any window), separated by commas.
pub open spec fn dispatch_argument_text(k: KeyCombo) -> Seq<char> {
    modifiers_text(k.modifiers@) + ","@ + k.key@ + ","@
}

fn modifier_str(m: ModifierKey) -> (r: &'static str)
    ensures
        r@ == modifier_name(m),
{
    match m {
        ModifierKey::Shift => "SHIFT",
        ModifierKey::Ctrl => "CTRL",
        ModifierKey::Alt => "ALT",
        ModifierKey::Super => "SUPER",
    }
}

/// The dispatcher's spelling of a list of modifiers: their names in order,
/// joined by `_`.
pub fn hyprland_key_mods(mods: &Vec<ModifierKey>) -> (r: String)
    ensures
        r@ == modifiers_text(mods@),
{
    let mut out = String::new();
    let mut i: usize = 0;
    while i < mods.len()
        invariant
            i <= mods@.len(),
            out@ == modifiers_text(mods@.take(i as int)),
        decreases mods.len() - i,
    {
        assert(mods@.take(i as int + 1).drop_last() =~= mods@.take(i as int));
        if i > 0 {
            out.append("_");
        }
        out.append(modifier_str(mods[i]));
        i = i + 1;
    }
    assert(mods@.take(mods@.len() as int) =~= mods@);
    out
}

/// The argument handed to the key dispatcher for `key`.
pub fn dispatch_argument(key: &KeyCombo) -> (r: String)
    ensures
        r@ == dispatch_argument_text(*key),
{
    let mut out = hyprland_key_mods(&key.modifiers);
    out.append(",");
    out.append(key.key.as_str());
    out.append(",");
    out
}

/// What `str::trim` makes of a text.
pub uninterp spec fn trim_of(s: Seq<char>) -> Seq<char>;

/// Relies on `str::trim`: the text without its leading and trailing white
/// space, which depends on the characters alone.
#[verifier::external_body]
pub(crate) fn trimmed(s: &str) -> (r: String)
    ensures
        r@ == trim_of(s@),
{
    s.trim().to_string()
}

/// The dispatcher reports success with the text `ok`, surrounding white
/// space aside.
pub open spec fn dispatch_ok_text(output: Seq<char>) -> bool {
    trim_of(output) == "ok"@
}

/// The error reported for a run whose dispatcher answered `output`.
pub open spec fn dispatch_error_text(output: Seq<char>) -> Seq<char> {
    "Hyprland dispatcher error: "@ + trim_of(output)
}

/// Whether the dispatcher's output reports success.
pub fn dispatch_succeeded(output: &str) -> (r: bool)
    ensures
        r == dispatch_ok_text(output@),
{
    let t = trimmed(output);
    let ok = String::from_str("ok");
    t == ok
}

/// The error text for a failed dispatch that answered `output`.
pub fn dispatch_error(output: &str) -> (r: String)
    ensures
        r@ == dispatch_error_text(output@),
{
    let t = trimmed(output);
    let msg = String::from_str("Hyprland dispatcher error: ");
    msg.concat(t.as_str())
}

} // verus!
