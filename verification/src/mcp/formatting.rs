//! Tool replies: the text a tool answers with, and whether it marks an
//! error.
use vstd::prelude::*;

verus! {

/// The reply of a tool call: its text, and its error mark (`None` when the
/// reply does not say, `Some(true)` for an error).
#[derive(Debug)]
pub struct ToolReply {
    pub text: String,
    pub is_error: Option<bool>,
}

/// A reply that carries `text` and no error mark.
pub fn text_result(text: String) -> (r: ToolReply)
    ensures
        r.text == text,
        r.is_error is None,
{
    ToolReply { text, is_error: None }
}

/// A reply that carries `text`, marked as an error.
pub fn error_result(text: String) -> (r: ToolReply)
    ensures
        r.text == text,
        r.is_error == Some(true),
{
    ToolReply { text, is_error: Some(true) }
}

} // verus!
