//! Wire codec for the command channel.
//!
//! A command serializes to a fixed prefix (`READ:`, `CLEAR:`, `WRITE:`)
//! followed, for writes, by the literal payload text.  A response is
//! classified by whether it starts with the success marker `SUCCESS:`;
//! everything after the marker is the payload, and any other byte
//! sequence is a failure carrying the whole text as its message.

use vstd::prelude::*;
use vstd::string::*;

verus! {

/// True when `s` begins with the prefix `p`.
pub open spec fn starts_with(s: Seq<char>, p: Seq<char>) -> bool {
    s.len() >= p.len() && s.subrange(0, p.len() as int) == p
}

/// Executable prefix test over character sequences.
pub fn str_starts_with(s: &str, p: &str) -> (r: bool)
    ensures
        r == starts_with(s@, p@),
{
    let n = p.unicode_len();
    if s.unicode_len() < n {
        return false;
    }
    let head = s.substring_char(0, n);
    String::from_str(head) == String::from_str(p)
}

/// Executable equality test on string slices.
pub fn str_eq(a: &str, b: &str) -> (r: bool)
    ensures
        r == (a@ == b@),
{
    String::from_str(a) == String::from_str(b)
}

/// One clipboard command: a name (`READ`, `CLEAR`, or anything else for
/// a write) and, for writes, the text to be written.
pub struct ClipboardCmd {
    pub name: String,
    pub text: Option<String>,
}

/// The wire bytes a command serializes to: commands whose name starts
/// with `READ` or `CLEAR` encode to their bare prefix, every other
/// command is a write whose payload, if any, follows `WRITE:` verbatim.
pub open spec fn encode_spec(cmd: ClipboardCmd) -> Seq<char> {
    if starts_with(cmd.name@, "READ"@) {
        "READ:"@
    } else if starts_with(cmd.name@, "CLEAR"@) {
        "CLEAR:"@
    } else {
        match cmd.text {
            Some(t) => "WRITE:"@ + t@,
            None => "WRITE:"@,
        }
    }
}

impl ClipboardCmd {
    /// Serialize the command to its wire message.
    pub fn encode(&self) -> (r: String)
        ensures
            r@ == encode_spec(*self),
    {
        if str_starts_with(self.name.as_str(), "READ") {
            String::from_str("READ:")
        } else if str_starts_with(self.name.as_str(), "CLEAR") {
            String::from_str("CLEAR:")
        } else {
            match &self.text {
                Some(t) => String::from_str("WRITE:").concat(t.as_str()),
                None => String::from_str("WRITE:"),
            }
        }
    }
}

/// A parsed server response: either a success payload or the raw text
/// of a non-conforming reply.
pub enum Response {
    Success(String),
    Failure(String),
}

/// True when a received text carries the success marker.
pub open spec fn is_success_wire(s: Seq<char>) -> bool {
    starts_with(s, "SUCCESS:"@)
}

/// The payload of a successful response: everything after the marker.
pub open spec fn success_payload(s: Seq<char>) -> Seq<char> {
    s.subrange("SUCCESS:"@.len() as int, s.len() as int)
}

/// Parse a received text.  Decoding is total: a text starting with the
/// success marker yields `Success` with the remainder as payload, any
/// other text yields `Failure` carrying the text unchanged.
pub fn decode_response(s: &str) -> (r: Response)
    ensures
        match r {
            Response::Success(p) => is_success_wire(s@) && p@ == success_payload(s@),
            Response::Failure(m) => !is_success_wire(s@) && m@ == s@,
        },
{
    if str_starts_with(s, "SUCCESS:") {
        let n = "SUCCESS:".unicode_len();
        let payload = s.substring_char(n, s.unicode_len());
        Response::Success(String::from_str(payload))
    } else {
        Response::Failure(String::from_str(s))
    }
}

/// Law: decoding round-trips a success payload exactly.  Any payload
/// appended to the success marker — colons included — is recovered
/// unchanged, and such a text always classifies as a success.
pub proof fn lemma_success_round_trip(p: Seq<char>)
    ensures
        is_success_wire("SUCCESS:"@ + p),
        success_payload("SUCCESS:"@ + p) == p,
{
    let w = "SUCCESS:"@ + p;
    assert(w.subrange(0, "SUCCESS:"@.len() as int) =~= "SUCCESS:"@);
    assert(w.subrange("SUCCESS:"@.len() as int, w.len() as int) =~= p);
}

/// Law: a write's payload follows the fixed prefix verbatim, with no
/// further delimiters, so payload text containing colons survives the
/// encoding and is re-derived exactly from the wire message.
pub proof fn lemma_encode_write_payload(cmd: ClipboardCmd)
    requires
        !starts_with(cmd.name@, "READ"@),
        !starts_with(cmd.name@, "CLEAR"@),
        cmd.text is Some,
    ensures
        encode_spec(cmd) == "WRITE:"@ + cmd.text->0@,
        encode_spec(cmd).subrange("WRITE:"@.len() as int, encode_spec(cmd).len() as int)
            == cmd.text->0@,
{
    let w = encode_spec(cmd);
    assert(w.subrange("WRITE:"@.len() as int, w.len() as int) =~= cmd.text->0@);
}

/// Law: a clear command encodes to exactly `CLEAR:` regardless of any
/// text field set on the command value.
pub proof fn lemma_clear_encoding_ignores_text(a: ClipboardCmd, b: ClipboardCmd)
    requires
        starts_with(a.name@, "CLEAR"@),
        a.name@ == b.name@,
    ensures
        encode_spec(a) == "CLEAR:"@,
        encode_spec(b) == "CLEAR:"@,
{
    reveal_strlit("CLEAR");
    reveal_strlit("READ");
    if starts_with(a.name@, "READ"@) {
        assert(a.name@.subrange(0, "READ"@.len() as int)[0] == 'R');
        assert(a.name@.subrange(0, "CLEAR"@.len() as int)[0] == 'C');
        assert(false);
    }
}

} // verus!
