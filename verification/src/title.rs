//! Reading the text of a window.
//!
//! The window system tells the length of a text first and then copies the
//! text, as UTF-16, into a buffer of the caller. The functions here decide
//! between those calls: how large a buffer to offer, and what text the
//! reply amounts to.

use crate::window_info::title_view;
use vstd::prelude::*;

verus! {

/// The text that `String::from_utf16_lossy` makes of a sequence of UTF-16
/// code units.
pub uninterp spec fn utf16_lossy_text(units: Seq<u16>) -> Seq<char>;

/// Decodes UTF-16 with `String::from_utf16_lossy`, which puts U+FFFD in the
/// place of each unpaired surrogate. The result is named, not spelled out.
#[verifier::external_body]
fn decode_utf16_lossy(units: &Vec<u16>) -> (text: String)
    ensures
        text@ == utf16_lossy_text(units@),
{
    String::from_utf16_lossy(units.as_slice())
}

/// The text that `String::from_utf16` makes of a sequence of UTF-16 code
/// units, or `None` where it refuses them.
pub uninterp spec fn utf16_text(units: Seq<u16>) -> Option<Seq<char>>;

/// Decodes UTF-16 with `String::from_utf16`, which fails on an unpaired
/// surrogate; the failure is handed on as `None`. The result is named, not
/// spelled out.
#[verifier::external_body]
fn decode_utf16(units: &Vec<u16>) -> (text: Option<String>)
    ensures
        title_view(text) == utf16_text(units@),
{
    String::from_utf16(units.as_slice()).ok()
}

/// The code units of a reply: the first `copied` of the buffer, or all of
/// it where it holds fewer.
pub open spec fn copied_units(buffer: Seq<u16>, copied: int) -> Seq<u16> {
    if 0 <= copied < buffer.len() {
        buffer.take(copied)
    } else {
        buffer
    }
}

/// The length of the buffer to offer for a title of `text_len` code units:
/// one more than the title, for the terminator. `None` where the window has
/// no title to read.
pub fn title_buffer_len(text_len: i32) -> (len: Option<usize>)
    ensures
        match len {
            Some(n) => text_len > 0 && n == text_len + 1,
            None => text_len <= 0,
        },
{
    if text_len > 0 {
        Some(text_len as usize + 1)
    } else {
        None
    }
}

/// The title that a reply amounts to: the text of the code units copied,
/// or `None` where nothing was copied.
pub fn decode_title(buffer: Vec<u16>, copied: i32) -> (title: Option<String>)
    ensures
        match title {
            Some(text) => copied > 0 && text@ == utf16_lossy_text(
                copied_units(buffer@, copied as int),
            ),
            None => copied <= 0,
        },
{
    if copied > 0 {
        let mut units = buffer;
        units.truncate(copied as usize);
        assert(units@ =~= copied_units(buffer@, copied as int));
        Some(decode_utf16_lossy(&units))
    } else {
        None
    }
}

/// The text of a button from a reply: the text of the code units copied,
/// or `None` where nothing was copied or the units are not valid UTF-16.
pub fn decode_button_text(buffer: Vec<u16>, copied: i32) -> (text: Option<String>)
    ensures
        title_view(text) == if copied > 0 {
            utf16_text(copied_units(buffer@, copied as int))
        } else {
            None
        },
{
    if copied > 0 {
        let mut units = buffer;
        units.truncate(copied as usize);
        assert(units@ =~= copied_units(buffer@, copied as int));
        decode_utf16(&units)
    } else {
        None
    }
}

} // verus!
