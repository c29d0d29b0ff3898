//! Decoding of the output of the command-line fallback, which prints the
//! response as text with two markers in it.

use crate::items::{ResponseEvent, ResponseEventView};
use crate::text::{contains, occurs_in, str_eq, trim, trimmed};
use vstd::prelude::*;

verus! {

/// What one chunk of the fallback's output stands for, and whether it ends
/// the response. A chunk that is the marker `[created]`, white space around
/// it aside, announces the response; a chunk that holds the marker
/// `[completed]` ends it; any other chunk is text of the response.
pub open spec fn cli_chunk_event(chunk: Seq<char>) -> (ResponseEventView, bool) {
    if trimmed(chunk) == "[created]"@ {
        (ResponseEventView::Created, false)
    } else if occurs_in("[completed]"@, chunk) {
        (ResponseEventView::Completed { response_id: "codexpc"@, token_usage: None }, true)
    } else {
        (ResponseEventView::OutputTextDelta(chunk), false)
    }
}

/// Decodes one chunk of the fallback's output into the element of the
/// response stream that it stands for, and says whether the response ends
/// with it.
pub fn decode_cli_chunk(chunk: String) -> (r: (ResponseEvent, bool))
    ensures
        (r.0@, r.1) == cli_chunk_event(chunk@),
{
    if str_eq(trim(chunk.as_str()), "[created]") {
        (ResponseEvent::Created, false)
    } else if contains(chunk.as_str(), "[completed]") {
        (
            ResponseEvent::Completed {
                response_id: String::from_str("codexpc"),
                token_usage: None,
            },
            true,
        )
    } else {
        (ResponseEvent::OutputTextDelta(chunk), false)
    }
}

} // verus!
