//! Text read from the clipboard.
use vstd::prelude::*;
use crate::text::{is_blank, is_blank_str, replace, replace_str};

verus! {

/// Clipboard text with Windows line breaks turned into `\n`, or `None` when
/// it is blank.
pub open spec fn spec_clipboard_text(raw: Seq<char>) -> Option<Seq<char>> {
    let t = replace(raw, "\r\n"@, "\n"@);
    if is_blank(t) {
        None
    } else {
        Some(t)
    }
}

pub fn normalize_clipboard_text(raw: &str) -> (r: Option<String>)
    ensures
        r matches Some(t) ==> spec_clipboard_text(raw@) == Some(t@),
        r is None ==> spec_clipboard_text(raw@) is None,
{
    proof {
        reveal_strlit("\r\n");
    }
    let t = replace_str(raw, "\r\n", "\n");
    if is_blank_str(t.as_str()) {
        None
    } else {
        Some(t)
    }
}

} // verus!
