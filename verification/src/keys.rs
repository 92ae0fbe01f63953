//! The Windows virtual keys that a hotkey holds down, which are watched until
//! they are released before the selection is copied.

use vstd::prelude::*;

use crate::text::{chars_of, str_eq};

verus! {

// Win32 virtual-key codes (the VK_* values of WinUser.h).
pub const VK_BACK: u16 = 0x08;
pub const VK_TAB: u16 = 0x09;
pub const VK_RETURN: u16 = 0x0D;
pub const VK_SHIFT: u16 = 0x10;
pub const VK_CONTROL: u16 = 0x11;
pub const VK_MENU: u16 = 0x12;
pub const VK_ESCAPE: u16 = 0x1B;
pub const VK_SPACE: u16 = 0x20;
pub const VK_PRIOR: u16 = 0x21;
pub const VK_NEXT: u16 = 0x22;
pub const VK_END: u16 = 0x23;
pub const VK_HOME: u16 = 0x24;
pub const VK_LEFT: u16 = 0x25;
pub const VK_UP: u16 = 0x26;
pub const VK_RIGHT: u16 = 0x27;
pub const VK_DOWN: u16 = 0x28;
pub const VK_INSERT: u16 = 0x2D;
pub const VK_DELETE: u16 = 0x2E;
pub const VK_0: u16 = 0x30;
pub const VK_A: u16 = 0x41;
pub const VK_LWIN: u16 = 0x5B;
pub const VK_RWIN: u16 = 0x5C;
pub const VK_F1: u16 = 0x70;
pub const VK_LSHIFT: u16 = 0xA0;
pub const VK_RSHIFT: u16 = 0xA1;
pub const VK_LCONTROL: u16 = 0xA2;
pub const VK_RCONTROL: u16 = 0xA3;
pub const VK_LMENU: u16 = 0xA4;
pub const VK_RMENU: u16 = 0xA5;

// The modifier bits of a hotkey (keyboard-types' `Modifiers`).
pub const MOD_ALT: u32 = 0x01;
pub const MOD_CONTROL: u32 = 0x08;
pub const MOD_SHIFT: u32 = 0x200;
pub const MOD_SUPER: u32 = 0x2000;

/// The virtual key of the letter key named `name` ("KeyA" to "KeyZ").
pub open spec fn letter_key(name: Seq<char>) -> Option<u16> {
    if name.len() == 4 && name[0] == 'K' && name[1] == 'e' && name[2] == 'y' && 'A' <= name[3]
        && name[3] <= 'Z' {
        Some((VK_A + (name[3] as int - 'A' as int)) as u16)
    } else {
        None
    }
}

/// The virtual key of the digit key named `name` ("Digit0" to "Digit9").
pub open spec fn digit_key(name: Seq<char>) -> Option<u16> {
    if name.len() == 6 && name.take(5) == "Digit"@ && '0' <= name[5] && name[5] <= '9' {
        Some((VK_0 + (name[5] as int - '0' as int)) as u16)
    } else {
        None
    }
}

/// The virtual key of the function key named `name` ("F1" to "F12").
pub open spec fn function_key(name: Seq<char>) -> Option<u16> {
    if name.len() == 2 && name[0] == 'F' && '1' <= name[1] && name[1] <= '9' {
        Some((VK_F1 + (name[1] as int - '1' as int)) as u16)
    } else if name.len() == 3 && name[0] == 'F' && name[1] == '1' && '0' <= name[2] && name[2]
        <= '2' {
        Some((VK_F1 + 9 + (name[2] as int - '0' as int)) as u16)
    } else {
        None
    }
}

/// The virtual key of the other keys a hotkey may use, by name.
pub open spec fn named_key(name: Seq<char>) -> Option<u16> {
    if name == "Space"@ {
        Some(VK_SPACE)
    } else if name == "Enter"@ || name == "NumpadEnter"@ {
        Some(VK_RETURN)
    } else if name == "Tab"@ {
        Some(VK_TAB)
    } else if name == "Escape"@ {
        Some(VK_ESCAPE)
    } else if name == "Backspace"@ {
        Some(VK_BACK)
    } else if name == "Delete"@ {
        Some(VK_DELETE)
    } else if name == "Insert"@ {
        Some(VK_INSERT)
    } else if name == "Home"@ {
        Some(VK_HOME)
    } else if name == "End"@ {
        Some(VK_END)
    } else if name == "PageUp"@ {
        Some(VK_PRIOR)
    } else if name == "PageDown"@ {
        Some(VK_NEXT)
    } else if name == "ArrowLeft"@ {
        Some(VK_LEFT)
    } else if name == "ArrowRight"@ {
        Some(VK_RIGHT)
    } else if name == "ArrowUp"@ {
        Some(VK_UP)
    } else if name == "ArrowDown"@ {
        Some(VK_DOWN)
    } else {
        None
    }
}

/// The virtual key of the key whose code is named `name` (as the key code
/// writes its name), when release tracking knows it.
pub open spec fn virtual_key_spec(name: Seq<char>) -> Option<u16> {
    if letter_key(name) is Some {
        letter_key(name)
    } else if digit_key(name) is Some {
        digit_key(name)
    } else if function_key(name) is Some {
        function_key(name)
    } else {
        named_key(name)
    }
}

fn named_key_exec(name: &str) -> (r: Option<u16>)
    ensures
        r == named_key(name@),
{
    if str_eq(name, "Space") {
        Some(VK_SPACE)
    } else if str_eq(name, "Enter") || str_eq(name, "NumpadEnter") {
        Some(VK_RETURN)
    } else if str_eq(name, "Tab") {
        Some(VK_TAB)
    } else if str_eq(name, "Escape") {
        Some(VK_ESCAPE)
    } else if str_eq(name, "Backspace") {
        Some(VK_BACK)
    } else if str_eq(name, "Delete") {
        Some(VK_DELETE)
    } else if str_eq(name, "Insert") {
        Some(VK_INSERT)
    } else if str_eq(name, "Home") {
        Some(VK_HOME)
    } else if str_eq(name, "End") {
        Some(VK_END)
    } else if str_eq(name, "PageUp") {
        Some(VK_PRIOR)
    } else if str_eq(name, "PageDown") {
        Some(VK_NEXT)
    } else if str_eq(name, "ArrowLeft") {
        Some(VK_LEFT)
    } else if str_eq(name, "ArrowRight") {
        Some(VK_RIGHT)
    } else if str_eq(name, "ArrowUp") {
        Some(VK_UP)
    } else if str_eq(name, "ArrowDown") {
        Some(VK_DOWN)
    } else {
        None
    }
}

/// The virtual key of the key whose code is named `code_name`, or none when
/// release tracking does not know it (only its modifiers are then watched).
pub fn windows_virtual_key_for_code(code_name: &str) -> (r: Option<u16>)
    ensures
        r == virtual_key_spec(code_name@),
{
    let v = chars_of(code_name);
    proof {
        reveal_strlit("Digit");
    }
    if v.len() == 4 && v[0] == 'K' && v[1] == 'e' && v[2] == 'y' && 'A' <= v[3] && v[3] <= 'Z' {
        let offset = (v[3] as u32) - ('A' as u32);
        return Some(VK_A + (offset as u16));
    }
    if v.len() == 6 && v[0] == 'D' && v[1] == 'i' && v[2] == 'g' && v[3] == 'i' && v[4] == 't'
        && '0' <= v[5] && v[5] <= '9' {
        assert(v@.take(5) =~= seq!['D', 'i', 'g', 'i', 't']);
        assert("Digit"@ =~= seq!['D', 'i', 'g', 'i', 't']);
        let offset = (v[5] as u32) - ('0' as u32);
        return Some(VK_0 + (offset as u16));
    }
    proof {
        assert("Digit"@ =~= seq!['D', 'i', 'g', 'i', 't']);
        if v@.len() == 6 && v@.take(5) == "Digit"@ {
            assert(v@.take(5)[0] == 'D' && v@.take(5)[1] == 'i' && v@.take(5)[2] == 'g'
                && v@.take(5)[3] == 'i' && v@.take(5)[4] == 't');
        }
    }
    if v.len() == 2 && v[0] == 'F' && '1' <= v[1] && v[1] <= '9' {
        let offset = (v[1] as u32) - ('1' as u32);
        return Some(VK_F1 + (offset as u16));
    }
    if v.len() == 3 && v[0] == 'F' && v[1] == '1' && '0' <= v[2] && v[2] <= '2' {
        let offset = (v[2] as u32) - ('0' as u32);
        return Some(VK_F1 + 9 + (offset as u16));
    }
    named_key_exec(code_name)
}

/// The keys watched until a hotkey is released: each modifier's generic,
/// left and right keys (Alt, Shift, Control, then the two Windows keys), then
/// the main key when it is known.
pub open spec fn release_keys_spec(mods: u32, main_key: Option<u16>) -> Seq<u16> {
    (if mods & MOD_ALT != 0 {
        seq![VK_MENU, VK_LMENU, VK_RMENU]
    } else {
        Seq::empty()
    }) + (if mods & MOD_SHIFT != 0 {
        seq![VK_SHIFT, VK_LSHIFT, VK_RSHIFT]
    } else {
        Seq::empty()
    }) + (if mods & MOD_CONTROL != 0 {
        seq![VK_CONTROL, VK_LCONTROL, VK_RCONTROL]
    } else {
        Seq::empty()
    }) + (if mods & MOD_SUPER != 0 {
        seq![VK_LWIN, VK_RWIN]
    } else {
        Seq::empty()
    }) + (match main_key {
        Some(k) => seq![k],
        None => Seq::empty(),
    })
}

/// The keys watched until the hotkey with modifier bits `mods` and the key
/// whose code is named `code_name` is released.
pub fn hotkey_release_keys(mods: u32, code_name: &str) -> (r: Vec<u16>)
    ensures
        r@ == release_keys_spec(mods, virtual_key_spec(code_name@)),
{
    let mut keys: Vec<u16> = Vec::new();
    let ghost s0 = keys@;
    if mods & MOD_ALT != 0 {
        keys.push(VK_MENU);
        keys.push(VK_LMENU);
        keys.push(VK_RMENU);
    }
    let ghost s1 = keys@;
    if mods & MOD_SHIFT != 0 {
        keys.push(VK_SHIFT);
        keys.push(VK_LSHIFT);
        keys.push(VK_RSHIFT);
    }
    let ghost s2 = keys@;
    if mods & MOD_CONTROL != 0 {
        keys.push(VK_CONTROL);
        keys.push(VK_LCONTROL);
        keys.push(VK_RCONTROL);
    }
    let ghost s3 = keys@;
    if mods & MOD_SUPER != 0 {
        keys.push(VK_LWIN);
        keys.push(VK_RWIN);
    }
    let ghost s4 = keys@;
    let main_key = windows_virtual_key_for_code(code_name);
    if let Some(k) = main_key {
        keys.push(k);
    }
    proof {
        let alt: Seq<u16> = if mods & MOD_ALT != 0 { seq![VK_MENU, VK_LMENU, VK_RMENU] } else { Seq::empty() };
        let shift: Seq<u16> = if mods & MOD_SHIFT != 0 { seq![VK_SHIFT, VK_LSHIFT, VK_RSHIFT] } else { Seq::empty() };
        let control: Seq<u16> = if mods & MOD_CONTROL != 0 { seq![VK_CONTROL, VK_LCONTROL, VK_RCONTROL] } else { Seq::empty() };
        let sup: Seq<u16> = if mods & MOD_SUPER != 0 { seq![VK_LWIN, VK_RWIN] } else { Seq::empty() };
        let main: Seq<u16> = match main_key { Some(k) => seq![k], None => Seq::empty() };
        assert(s1 =~= alt);
        assert(s2 =~= alt + shift);
        assert(s3 =~= alt + shift + control);
        assert(s4 =~= alt + shift + control + sup);
        assert(keys@ =~= alt + shift + control + sup + main);
    }
    keys
}

/// How long the hotkey's keys are waited for, in milliseconds.
pub const HOTKEY_KEY_RELEASE_TIMEOUT_MS: u64 = 900;

/// How often the keys are polled while waiting, in milliseconds.
pub const HOTKEY_KEY_RELEASE_INTERVAL_MS: u64 = 20;

/// One poll of the wait for a hotkey's keys to be released.
#[derive(Clone, Copy, Debug, PartialEq, Eq, Structural)]
pub enum ReleaseWait {
    /// All keys are up.
    Released,
    /// Poll again after the interval.
    Poll,
    /// The wait gave up.
    TimedOut,
}

/// The wait after `elapsed_ms`, when the keys were found all up or not:
/// it gives up once the timeout has passed, else ends when all are up.
pub fn release_wait_step(elapsed_ms: u64, all_released: bool) -> (r: ReleaseWait)
    ensures
        r == (if elapsed_ms >= HOTKEY_KEY_RELEASE_TIMEOUT_MS {
            ReleaseWait::TimedOut
        } else if all_released {
            ReleaseWait::Released
        } else {
            ReleaseWait::Poll
        }),
{
    if elapsed_ms >= HOTKEY_KEY_RELEASE_TIMEOUT_MS {
        ReleaseWait::TimedOut
    } else if all_released {
        ReleaseWait::Released
    } else {
        ReleaseWait::Poll
    }
}

/// Release tracking knows the letter, digit and function keys by their code
/// names: `KeyA`..`KeyZ` are the virtual keys 0x41..0x5A in alphabetical
/// order, `Digit0`..`Digit9` are 0x30..0x39, `F1`..`F9` are 0x70..0x78 and
/// `F10`..`F12` are 0x79..0x7B. So two different letters (or digits) never
/// share a key.
pub proof fn law_letter_digit_and_function_keys(c: char, d: char)
    ensures
        'A' <= c <= 'Z' ==> virtual_key_spec(seq!['K', 'e', 'y', c]) == Some(
            (0x41 + (c as int - 'A' as int)) as u16,
        ),
        '0' <= c <= '9' ==> virtual_key_spec(seq!['D', 'i', 'g', 'i', 't', c]) == Some(
            (0x30 + (c as int - '0' as int)) as u16,
        ),
        '1' <= c <= '9' ==> virtual_key_spec(seq!['F', c]) == Some(
            (0x70 + (c as int - '1' as int)) as u16,
        ),
        '0' <= c <= '2' ==> virtual_key_spec(seq!['F', '1', c]) == Some(
            (0x79 + (c as int - '0' as int)) as u16,
        ),
        'A' <= c <= 'Z' && 'A' <= d <= 'Z' && c != d ==> virtual_key_spec(seq!['K', 'e', 'y', c])
            != virtual_key_spec(seq!['K', 'e', 'y', d]),
{
    reveal_strlit("Digit");
    assert(seq!['D', 'i', 'g', 'i', 't', c].take(5) =~= "Digit"@);
}

} // verus!
