//! The parts of the text input that exchange text with the platform:
//! clipboard and drag-and-drop payloads.
use vstd::prelude::*;
use vstd::string::*;
use vstd::utf8::*;

pub use crate::text_input::{
    Side, focus, is_jump_modifier_pressed, mouse_interaction, move_cursor_to, move_cursor_to_end,
    move_cursor_to_front, select_all,
};

verus! {

/// A string which can be sent to the clipboard or drag-and-dropped.
#[derive(Debug, Clone)]
pub struct TextInputString(pub String);

/// The mime types in which a [`TextInputString`] offers its text.
pub open spec fn supported_mime_type(mime: Seq<char>) -> bool {
    ||| mime == "text/plain;charset=utf-8"@
    ||| mime == "text/plain;charset=UTF-8"@
    ||| mime == "UTF8_STRING"@
    ||| mime == "STRING"@
    ||| mime == "text/plain"@
    ||| mime == "TEXT"@
}

impl TextInputString {
    /// The bytes of the text, in one of the supported mime types: the UTF-8
    /// encoding of the text; nothing for any other mime type.
    pub fn from_mime_type(&self, mime_type: &str) -> (r: Option<Vec<u8>>)
        ensures
            supported_mime_type(mime_type@) ==> (r matches Some(b) && b@ == encode_utf8(self.0@)),
            !supported_mime_type(mime_type@) ==> r is None,
    {
        let supported = same_text(mime_type, "text/plain;charset=utf-8") || same_text(
            mime_type,
            "text/plain;charset=UTF-8",
        ) || same_text(mime_type, "UTF8_STRING") || same_text(mime_type, "STRING") || same_text(
            mime_type,
            "text/plain",
        ) || same_text(mime_type, "TEXT");
        if supported {
            Some(self.0.as_str().as_bytes_vec())
        } else {
            None
        }
    }
}

/// Whether two strings hold the same characters.
pub(crate) fn same_text(a: &str, b: &str) -> (r: bool)
    ensures
        r == (a@ == b@),
{
    let n = a.unicode_len();
    if n != b.unicode_len() {
        return false;
    }
    let mut i: usize = 0;
    while i < n
        invariant
            n == a@.len(),
            n == b@.len(),
            i <= n,
            forall|j: int| 0 <= j < i ==> a@[j] == b@[j],
        decreases n - i,
    {
        if a.get_char(i) != b.get_char(i) {
            return false;
        }
        i += 1;
    }
    assert(a@ =~= b@);
    true
}

} // verus!
