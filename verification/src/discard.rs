//! The echo server's body-consumption decision.
//!
//! The server fully consumes a request body chunk by chunk, counts the bytes
//! it read, and answers with a small acknowledgement naming that count — or
//! with a client-error reply carrying the first read failure's description.
//! The HTTP plumbing streams the chunks in; this module holds the verified
//! decision and builds the exact reply bodies.

use vstd::prelude::*;
use vstd::string::StringExecFns;

use crate::decimal::dec_of;
use crate::decimal::u64_to_dec;

verus! {

/// One observation while draining a request body: a chunk of a known size
/// arrived, or the read failed with a description.
#[derive(Debug)]
pub enum BodyChunk {
    Data { len: usize },
    ReadFailure { detail: String },
}

/// The server's decision for one request: acknowledge the bytes it
/// consumed, or reject the request with the first failure's description.
#[derive(Debug)]
pub enum DiscardReply {
    Accepted { received_bytes: usize },
    Rejected { detail: String },
}

/// The bytes that the data chunks of a drain contribute; failures
/// contribute nothing.
pub open spec fn data_sum(s: Seq<BodyChunk>) -> int
    decreases s.len(),
{
    if s.len() == 0 {
        0
    } else {
        data_sum(s.drop_last()) + (if s.last() is Data {
            s.last()->len as int
        } else {
            0int
        })
    }
}

/// Whether some chunk of the drain failed.
pub open spec fn has_failure(s: Seq<BodyChunk>) -> bool {
    exists|i: int| 0 <= i < s.len() && s[i] is ReadFailure
}

/// The position of the first failed chunk.
pub open spec fn first_failure_index(s: Seq<BodyChunk>) -> int
    decreases s.len(),
{
    if s.len() == 0 {
        0
    } else if s.first() is ReadFailure {
        0
    } else {
        1 + first_failure_index(s.drop_first())
    }
}

proof fn lemma_data_sum_nonneg(s: Seq<BodyChunk>)
    ensures
        0 <= data_sum(s),
    decreases s.len(),
{
    if s.len() > 0 {
        lemma_data_sum_nonneg(s.drop_last());
    }
}

/// A prefix of a drain never holds more data bytes than the whole drain.
proof fn lemma_data_sum_prefix(s: Seq<BodyChunk>, i: int)
    requires
        0 <= i <= s.len(),
    ensures
        0 <= data_sum(s.take(i)) <= data_sum(s),
    decreases s.len() - i,
{
    lemma_data_sum_nonneg(s.take(i));
    if i == s.len() {
        assert(s.take(i) =~= s);
    } else {
        assert(s.take(i + 1).drop_last() =~= s.take(i));
        assert(s.take(i + 1).last() == s[i]);
        lemma_data_sum_prefix(s, i + 1);
    }
}

/// A drain whose chunks all succeeded up to a failed one fails first right
/// there.
proof fn lemma_first_failure(s: Seq<BodyChunk>, i: int)
    requires
        0 <= i < s.len(),
        s[i] is ReadFailure,
        forall|j: int| 0 <= j < i ==> !(#[trigger] s[j] is ReadFailure),
    ensures
        has_failure(s),
        first_failure_index(s) == i,
    decreases i,
{
    if i > 0 {
        lemma_first_failure(s.drop_first(), i - 1);
    }
}

/// Consumes one request body's drain: sums the data chunks' sizes, or stops
/// at the first failed read and rejects the request with its description.
/// The precondition only keeps the byte count inside the machine's range;
/// the server's body-size cap enforces far less than that.
pub fn consume_body(chunks: &Vec<BodyChunk>) -> (r: DiscardReply)
    requires
        data_sum(chunks@) <= usize::MAX,
    ensures
        !has_failure(chunks@) ==> (r matches DiscardReply::Accepted { received_bytes }
            && received_bytes == data_sum(chunks@)),
        has_failure(chunks@) ==> (r matches DiscardReply::Rejected { detail } && detail@
            == chunks@[first_failure_index(chunks@)]->detail@),
{
    let mut total: usize = 0;
    let mut i: usize = 0;
    while i < chunks.len()
        invariant
            i <= chunks.len(),
            data_sum(chunks@) <= usize::MAX,
            total == data_sum(chunks@.take(i as int)),
            forall|j: int| 0 <= j < i ==> !(#[trigger] chunks@[j] is ReadFailure),
        decreases chunks.len() - i,
    {
        proof {
            assert(chunks@.take(i + 1int).drop_last() =~= chunks@.take(i as int));
            assert(chunks@.take(i + 1int).last() == chunks@[i as int]);
            lemma_data_sum_prefix(chunks@, i + 1int);
        }
        match &chunks[i] {
            BodyChunk::Data { len } => {
                total = total + *len;
            },
            BodyChunk::ReadFailure { detail } => {
                proof {
                    lemma_first_failure(chunks@, i as int);
                }
                return DiscardReply::Rejected { detail: detail.clone() };
            },
        }
        i = i + 1;
    }
    proof {
        assert(chunks@.take(chunks@.len() as int) =~= chunks@);
    }
    DiscardReply::Accepted { received_bytes: total }
}

/// The HTTP status of a reply: success for an acknowledgement, client error
/// for a rejected request.
pub fn reply_status(r: &DiscardReply) -> (code: u16)
    ensures
        r is Accepted ==> code == 200,
        r is Rejected ==> code == 400,
{
    match r {
        DiscardReply::Accepted { .. } => 200,
        DiscardReply::Rejected { .. } => 400,
    }
}

/// The acknowledgement body of the structured-data route: a compact JSON
/// object naming the message and the byte count.
pub open spec fn json_reply_text(received: int) -> Seq<char> {
    "{\"message\":\"JSON erfolgreich empfangen\",\"receivedBytes\":"@ + dec_of(received) + "}"@
}

/// The acknowledgement body of the markup route.
pub open spec fn xml_reply_text(received: int) -> Seq<char> {
    "<response><message>XML erfolgreich empfangen</message><receivedBytes>"@ + dec_of(received)
        + "</receivedBytes></response>"@
}

/// The plain-text body of a rejected request.
pub open spec fn error_reply_text(detail: Seq<char>) -> Seq<char> {
    "read error: "@ + detail
}

/// Builds the structured-data route's acknowledgement body.
pub fn json_reply_body(received: usize) -> (s: String)
    ensures
        s@ == json_reply_text(received as int),
{
    let mut s = "{\"message\":\"JSON erfolgreich empfangen\",\"receivedBytes\":".to_owned();
    let count = u64_to_dec(received as u64);
    s.append(count.as_str());
    s.append("}");
    s
}

/// Builds the markup route's acknowledgement body.
pub fn xml_reply_body(received: usize) -> (s: String)
    ensures
        s@ == xml_reply_text(received as int),
{
    let mut s = "<response><message>XML erfolgreich empfangen</message><receivedBytes>".to_owned();
    let count = u64_to_dec(received as u64);
    s.append(count.as_str());
    s.append("</receivedBytes></response>");
    s
}

/// Builds the plain-text body of a rejected request.
pub fn error_reply_body(detail: &String) -> (s: String)
    ensures
        s@ == error_reply_text(detail@),
{
    let mut s = "read error: ".to_owned();
    s.append(detail.as_str());
    s
}

} // verus!
