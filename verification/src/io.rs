//! The input tables and the input queue of an `imgui::Context` with the
//! writes this crate makes to them, and the text of an `imgui::ImString`.
//!
//! The functions in this file are not proved. Each states what the named
//! field of `imgui::Io`, or the string, holds after the call; the rest of the
//! crate is verified against these statements.

use vstd::prelude::*;

verus! {

/// Entries in `Io::key_map`: one per key the GUI names.
pub const KEY_MAP_LEN: usize = 22;

/// Entries in `Io::keys_down`.
pub const KEYS_DOWN_LEN: usize = 512;

/// Entries in `Io::mouse_down`.
pub const MOUSE_BUTTONS: usize = 5;

/// `imgui::Context`, carried as an opaque value.
#[verifier::external_type_specification]
#[verifier::external_body]
pub struct ExContext(imgui::Context);

/// The contents of `Io::key_map` of the context: for each key the GUI names,
/// the index in `keys_down` under which the host reports that key.
pub uninterp spec fn io_key_map(ctx: imgui::Context) -> Seq<u32>;

/// The contents of `Io::keys_down` of the context.
pub uninterp spec fn io_keys_down(ctx: imgui::Context) -> Seq<bool>;

/// The contents of `Io::mouse_down` of the context.
pub uninterp spec fn io_mouse_down(ctx: imgui::Context) -> Seq<bool>;

/// The fields `key_ctrl`, `key_shift`, `key_alt` and `key_super` of the
/// context's `Io`, in this order.
pub uninterp spec fn io_key_mods(ctx: imgui::Context) -> (bool, bool, bool, bool);

/// The characters in `Io`'s input queue, oldest first: those that were
/// typed and that no text widget has taken yet.
pub uninterp spec fn io_input_queue(ctx: imgui::Context) -> Seq<char>;

/// The last character that the input queue has room for: it holds 16-bit
/// units, one for each character.
pub const LAST_QUEUED_CHAR: u32 = 0xFFFF;

/// Whether a typed character enters the input queue. NUL does not, nor does
/// a character past `LAST_QUEUED_CHAR`.
pub open spec fn enters_queue(character: char) -> bool {
    0 < character as u32 <= LAST_QUEUED_CHAR
}

/// The input queue after `character` was typed.
pub open spec fn queue_after(queue: Seq<char>, character: char) -> Seq<char> {
    if enters_queue(character) {
        queue.push(character)
    } else {
        queue
    }
}

/// A table of `len` entries that holds `value` at `index` and agrees with
/// `table` everywhere else.
pub open spec fn table_with<T>(table: Seq<T>, len: nat, index: int, value: T) -> Seq<T> {
    Seq::new(len, |i: int| if i == index { value } else { table[i] })
}

/// Assigns `Context::io_mut().key_map[slot]`. The field is an array of
/// `KEY_MAP_LEN` entries; the assignment replaces the one at `slot` and
/// touches no other field.
#[verifier::external_body]
pub(crate) fn set_key_map(ctx: &mut imgui::Context, slot: usize, code: u32)
    requires
        slot < KEY_MAP_LEN,
    ensures
        io_key_map(*final(ctx)) == table_with(io_key_map(*old(ctx)), KEY_MAP_LEN as nat, slot as int, code),
        io_keys_down(*final(ctx)) == io_keys_down(*old(ctx)),
        io_mouse_down(*final(ctx)) == io_mouse_down(*old(ctx)),
        io_key_mods(*final(ctx)) == io_key_mods(*old(ctx)),
        io_input_queue(*final(ctx)) == io_input_queue(*old(ctx)),
{
    ctx.io_mut().key_map[slot] = code;
}

/// Assigns `Context::io_mut().keys_down[index]`. The field is an array of
/// `KEYS_DOWN_LEN` entries; the assignment replaces the one at `index` and
/// touches no other field.
#[verifier::external_body]
pub(crate) fn set_key_down(ctx: &mut imgui::Context, index: usize, pressed: bool)
    requires
        index < KEYS_DOWN_LEN,
    ensures
        io_keys_down(*final(ctx)) == table_with(io_keys_down(*old(ctx)), KEYS_DOWN_LEN as nat, index as int, pressed),
        io_key_map(*final(ctx)) == io_key_map(*old(ctx)),
        io_mouse_down(*final(ctx)) == io_mouse_down(*old(ctx)),
        io_key_mods(*final(ctx)) == io_key_mods(*old(ctx)),
        io_input_queue(*final(ctx)) == io_input_queue(*old(ctx)),
{
    ctx.io_mut().keys_down[index] = pressed;
}

/// Assigns `Context::io_mut().mouse_down`, the whole array, and touches no
/// other field.
#[verifier::external_body]
pub(crate) fn set_mouse_down(ctx: &mut imgui::Context, down: [bool; MOUSE_BUTTONS])
    ensures
        io_mouse_down(*final(ctx)) == down@,
        io_key_map(*final(ctx)) == io_key_map(*old(ctx)),
        io_keys_down(*final(ctx)) == io_keys_down(*old(ctx)),
        io_key_mods(*final(ctx)) == io_key_mods(*old(ctx)),
        io_input_queue(*final(ctx)) == io_input_queue(*old(ctx)),
{
    ctx.io_mut().mouse_down = down;
}

/// Assigns the four modifier fields of `Context::io_mut()`: `key_ctrl`,
/// `key_shift`, `key_alt` and `key_super`, and touches no other field.
#[verifier::external_body]
pub(crate) fn set_key_mods(ctx: &mut imgui::Context, ctrl: bool, shift: bool, alt: bool, logo: bool)
    ensures
        io_key_mods(*final(ctx)) == (ctrl, shift, alt, logo),
        io_key_map(*final(ctx)) == io_key_map(*old(ctx)),
        io_keys_down(*final(ctx)) == io_keys_down(*old(ctx)),
        io_mouse_down(*final(ctx)) == io_mouse_down(*old(ctx)),
        io_input_queue(*final(ctx)) == io_input_queue(*old(ctx)),
{
    let io = ctx.io_mut();
    io.key_ctrl = ctrl;
    io.key_shift = shift;
    io.key_alt = alt;
    io.key_super = logo;
}

/// Calls `Io::add_input_character`, which encodes the character as UTF-8 and
/// hands it to the GUI. The GUI decodes it and appends it to the input queue
/// if it is not NUL and fits a 16-bit unit; it touches no other field.
#[verifier::external_body]
pub(crate) fn add_input_character(ctx: &mut imgui::Context, character: char)
    ensures
        io_input_queue(*final(ctx)) == queue_after(io_input_queue(*old(ctx)), character),
        io_key_map(*final(ctx)) == io_key_map(*old(ctx)),
        io_keys_down(*final(ctx)) == io_keys_down(*old(ctx)),
        io_mouse_down(*final(ctx)) == io_mouse_down(*old(ctx)),
        io_key_mods(*final(ctx)) == io_key_mods(*old(ctx)),
{
    ctx.io_mut().add_input_character(character);
}

/// `imgui::ImString`, carried as an opaque value.
#[verifier::external_type_specification]
#[verifier::external_body]
pub struct ExImString(imgui::ImString);

/// The text that the string holds, without its closing NUL.
pub uninterp spec fn im_string_text(string: imgui::ImString) -> Seq<char>;

/// Calls `ImString::new`, which copies the text and closes it with a NUL. The
/// string ends at the first NUL it holds, so a text without one is kept
/// whole.
#[verifier::external_body]
pub(crate) fn im_string_new(text: &str) -> (string: imgui::ImString)
    requires
        forall|i: int| 0 <= i < text@.len() ==> text@[i] != '\0',
    ensures
        im_string_text(string) == text@,
{
    imgui::ImString::new(text)
}

} // verus!
