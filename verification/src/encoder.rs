//! The response encoder: turns the per-event serialization outcomes of a
//! streamed result into the byte chunks put on the wire, substituting a
//! synthesized error frame for any event whose serialization failed.

use vstd::prelude::*;
use crate::json::quoted;
use crate::response::{malformed_message, malformed_response, serialize_response};

verus! {

/// The text of the substitute chunk for a serialization failure at the
/// given position: a standalone error response at position 0, a
/// continuation error frame at any later position.
pub open spec fn malformed_chunk_text(reason: Seq<char>, first: bool) -> Seq<char> {
    if first {
        "{\"data\":null,\"errors\":["@ + "{\"message\":"@ + quoted(malformed_message(reason))
            + "}"@ + "]}"@
    } else {
        "{\"errors\":["@ + "{\"message\":"@ + quoted(malformed_message(reason)) + "}"@ + "]}"@
    }
}

/// The chunk the encoder owes for the outcome of serializing the event
/// at the given position: a success passes through verbatim, a failure
/// becomes the substitute frame for that position.
pub open spec fn chunk_text(outcome: Result<String, String>, index: int) -> Seq<char> {
    match outcome {
        Result::Ok(s) => s@,
        Result::Err(reason) => malformed_chunk_text(reason@, index == 0),
    }
}

/// Encodes one event of the stream, given the outcome of serializing it
/// and its 0-based position. A serialization failure never escapes: it
/// is converted into an emitted error chunk, shaped by position.
pub fn encode_chunk(index: usize, serialized: Result<String, String>) -> (chunk: String)
    ensures
        chunk@ == chunk_text(serialized, index as int),
{
    match serialized {
        Result::Ok(s) => s,
        Result::Err(reason) => {
            let sub = malformed_response(&reason, index == 0);
            let out = serialize_response(&sub);
            proof {
                reveal_strlit("{\"data\":");
                reveal_strlit("null");
                reveal_strlit(",\"errors\":[");
                reveal_strlit("{\"data\":null,\"errors\":[");
                reveal_strlit("{\"errors\":[");
                assert(sub.errors@ =~= seq![sub.errors@[0]]);
                assert(out@ =~= malformed_chunk_text(reason@, index == 0));
            }
            out
        },
    }
}

/// Law: the substitute for a failure in the first frame and the
/// substitute for a failure in a later frame are never the same text,
/// whatever the failure's description: the first frame establishes
/// framing as a standalone response, every later one as a continuation.
pub proof fn lemma_substitution_asymmetry(reason: Seq<char>)
    ensures
        malformed_chunk_text(reason, true) != malformed_chunk_text(reason, false),
{
    reveal_strlit("{\"data\":null,\"errors\":[");
    reveal_strlit("{\"errors\":[");
    assert(malformed_chunk_text(reason, true)[2] == 'd');
    assert(malformed_chunk_text(reason, false)[2] == 'e');
}

/// Encodes a finished sequence of serialization outcomes: one chunk per
/// event, in production order, each exactly what `encode_chunk` owes at
/// its position. No outcome terminates the stream early.
pub fn encode_outcomes(outcomes: &Vec<Result<String, String>>) -> (chunks: Vec<String>)
    ensures
        chunks@.len() == outcomes@.len(),
        forall|i: int|
            0 <= i < outcomes@.len() ==> chunks@[i]@ == chunk_text(outcomes@[i], i),
{
    let mut chunks: Vec<String> = Vec::new();
    let mut i: usize = 0;
    while i < outcomes.len()
        invariant
            0 <= i <= outcomes@.len(),
            chunks@.len() == i,
            forall|j: int| 0 <= j < i ==> chunks@[j]@ == chunk_text(outcomes@[j], j),
        decreases outcomes@.len() - i,
    {
        let outcome: Result<String, String> = match &outcomes[i] {
            Result::Ok(s) => Result::Ok(s.clone()),
            Result::Err(r) => Result::Err(r.clone()),
        };
        proof {
            assert(chunk_text(outcome, i as int) == chunk_text(outcomes@[i as int], i as int));
        }
        let c = encode_chunk(i, outcome);
        chunks.push(c);
        i = i + 1;
    }
    chunks
}

} // verus!
