//! Copying the prompt to the clipboard with the OSC 52 terminal sequence.
use vstd::prelude::*;
use vstd::string::StringExecFns;

use crate::b64::{base64_encode, base64_standard};

verus! {

/// The OSC 52 sequence that asks the terminal to put `text` on the clipboard.
pub open spec fn osc52(text: Seq<char>) -> Seq<char> {
    "\x1b]52;c;"@ + base64_standard(vstd::utf8::encode_utf8(text)) + "\x07"@
}

/// The OSC 52 sequence for `text`.
pub fn osc52_sequence(text: &str) -> (res: String)
    requires
        vstd::utf8::encode_utf8(text@).len() / 3 * 4 + 4 <= usize::MAX,
    ensures
        res@ == osc52(text@),
{
    let bytes = text.as_bytes();
    let encoded = base64_encode(bytes);
    let mut res = String::from_str("\x1b]52;c;");
    res.append(encoded.as_str());
    res.append("\x07");
    res
}

} // verus!
