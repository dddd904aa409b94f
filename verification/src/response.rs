//! The response event model: one unit of a streamed query result, its
//! serialized form, and the synthesized substitute for an event whose
//! serialization failed.

use vstd::prelude::*;
use crate::json::{JsonValue, json_text, quoted, write_value, write_quoted};

verus! {

/// One error carried by a response event.
pub struct GraphQLError {
    pub message: String,
}

/// One unit of a streamed query result: an optional data payload and any
/// number of errors. A standalone (first) frame carries a `data` member;
/// a continuation frame may carry errors alone.
pub struct GraphQLResponse {
    pub data: Option<JsonValue>,
    pub errors: Vec<GraphQLError>,
}

/// The serialized form of one error.
pub open spec fn error_text(e: GraphQLError) -> Seq<char> {
    "{\"message\":"@ + quoted(e.message@) + "}"@
}

/// The comma-separated serialized errors of an event, in order.
pub open spec fn errors_text(es: Seq<GraphQLError>) -> Seq<char>
    decreases es.len(),
{
    if es.len() == 0 {
        Seq::<char>::empty()
    } else if es.len() == 1 {
        error_text(es[0])
    } else {
        errors_text(es.drop_last()) + ","@ + error_text(es.last())
    }
}

/// The serialized form of an event: the `data` member appears exactly
/// when the event holds data, the `errors` member exactly when the event
/// holds at least one error.
pub open spec fn response_text(r: GraphQLResponse) -> Seq<char> {
    match r.data {
        Option::Some(d) => if r.errors@.len() > 0 {
            "{\"data\":"@ + json_text(d) + ",\"errors\":["@ + errors_text(r.errors@) + "]}"@
        } else {
            "{\"data\":"@ + json_text(d) + "}"@
        },
        Option::None => if r.errors@.len() > 0 {
            "{\"errors\":["@ + errors_text(r.errors@) + "]}"@
        } else {
            "{}"@
        },
    }
}

/// One errors-step fact the writer loop needs.
proof fn lemma_errors_text_step(es: Seq<GraphQLError>, i: int)
    requires
        0 <= i < es.len(),
    ensures
        errors_text(es.take(i + 1)) == if i == 0 {
            error_text(es[0])
        } else {
            errors_text(es.take(i)) + ","@ + error_text(es[i])
        },
{
    if i == 0 {
        assert(es.take(1)[0] == es[0]);
    } else {
        assert(es.take(i + 1).drop_last() =~= es.take(i));
        assert(es.take(i + 1).last() == es[i]);
    }
}

/// Writes the comma-separated serialized errors.
fn write_errors(es: &Vec<GraphQLError>, out: &mut String)
    ensures
        final(out)@ == old(out)@ + errors_text(es@),
{
    let ghost base: Seq<char> = out@;
    let mut i: usize = 0;
    while i < es.len()
        invariant
            0 <= i <= es@.len(),
            out@ == base + errors_text(es@.take(i as int)),
        decreases es@.len() - i,
    {
        proof {
            lemma_errors_text_step(es@, i as int);
        }
        if i > 0 {
            out.append(",");
        }
        out.append("{\"message\":");
        write_quoted(&es[i].message, out);
        out.append("}");
        proof {
            assert(out@ =~= base + errors_text(es@.take(i as int + 1)));
        }
        i = i + 1;
    }
    proof {
        assert(es@.take(es@.len() as int) =~= es@);
    }
}

/// Serializes one event independently of any other: the result is
/// exactly `response_text` of the event.
pub fn serialize_response(r: &GraphQLResponse) -> (s: String)
    ensures
        s@ == response_text(*r),
{
    let mut out = String::new();
    match &r.data {
        Option::Some(d) => {
            out.append("{\"data\":");
            write_value(d, &mut out);
            if r.errors.len() > 0 {
                out.append(",\"errors\":[");
                write_errors(&r.errors, &mut out);
                out.append("]}");
            } else {
                out.append("}");
            }
        },
        Option::None => {
            if r.errors.len() > 0 {
                out.append("{\"errors\":[");
                write_errors(&r.errors, &mut out);
                out.append("]}");
            } else {
                out.append("{}");
            }
        },
    }
    proof {
        assert(out@ =~= response_text(*r));
    }
    out
}

/// Law: every serialized event is one complete, non-empty JSON object
/// frame, whatever the event holds. Streaming clients may rely on each
/// chunk opening with '{' and closing with '}'.
pub proof fn lemma_response_is_object_frame(r: GraphQLResponse)
    ensures
        response_text(r).len() >= 2,
        response_text(r)[0] == '{',
        response_text(r).last() == '}',
{
    reveal_strlit("{\"data\":");
    reveal_strlit("]}");
    reveal_strlit("}");
    reveal_strlit("{\"errors\":[");
    reveal_strlit("{}");
}

/// The message of the substitute event for a serialization failure,
/// carrying the failure's description verbatim.
pub open spec fn malformed_message(reason: Seq<char>) -> Seq<char> {
    "malformed response: "@ + reason
}

/// The substitute event for an event whose serialization failed. The
/// first emitted frame establishes framing for streaming clients, so a
/// substitute at position 0 is a standalone response with an explicit
/// null data member, while a substitute at a later position is a
/// continuation frame carrying errors alone.
pub fn malformed_response(reason: &String, first: bool) -> (r: GraphQLResponse)
    ensures
        r.errors@.len() == 1,
        r.errors@[0].message@ == malformed_message(reason@),
        first ==> r.data == Option::Some(JsonValue::Null),
        !first ==> r.data is None,
{
    let message = String::from_str("malformed response: ").concat(reason.as_str());
    let mut errors: Vec<GraphQLError> = Vec::new();
    errors.push(GraphQLError { message });
    let data = if first {
        Option::Some(JsonValue::Null)
    } else {
        Option::None
    };
    GraphQLResponse { data, errors }
}

} // verus!
