//! What each command's caller gets from the outcome of its round trip.
//!
//! Simple commands fall back to a typed default on any failure; the others
//! pass the reply through as JSON text, or a `{"status":500,"msg":...}`
//! envelope in its place, so the caller always has valid JSON.
use vstd::prelude::*;
use crate::framing::{Framing, framed, unframed};
use crate::json::{
    Field, FieldView, Members, has_no_newline, members_view, object_text, write_object,
};
use crate::number::i64_literal;
use crate::protocol::{
    Command, ProtocolError, Reply, STATUS_OK, decode_reply, decoded, find, lookup,
    protocol_error_text, request_text,
};

verus! {

/// The status put in an error envelope, and returned by tunnel commands
/// that report a code when no reply was had.
pub const STATUS_FAILED: i64 = 500;

/// A failure of the channel itself.
pub enum TransportError {
    /// The service endpoint is absent, refuses the connection or denies access.
    Connect(String),
    /// Writing the request or reading the reply failed.
    Io(String),
    /// The service did not answer in time.
    Timeout(String),
}

/// Why no usable reply was had.
pub enum CallError {
    Transport(TransportError),
    Protocol(ProtocolError),
}

/// The diagnostic text of a failed call.
pub open spec fn error_text(e: CallError) -> Seq<char> {
    match e {
        CallError::Transport(TransportError::Connect(d)) => "failed to connect: "@ + d@,
        CallError::Transport(TransportError::Io(d)) => "failed to exchange: "@ + d@,
        CallError::Transport(TransportError::Timeout(d)) => "timed out: "@ + d@,
        CallError::Protocol(p) => protocol_error_text(p),
    }
}

impl CallError {
    /// The diagnostic text of this failure; never empty.
    pub fn message(&self) -> (r: String)
        ensures
            r@ == error_text(*self),
            r@.len() > 0,
    {
        match self {
            CallError::Transport(TransportError::Connect(d)) => {
                proof { reveal_strlit("failed to connect: "); }
                let mut s = String::from_str("failed to connect: ");
                s.append(d.as_str());
                s
            },
            CallError::Transport(TransportError::Io(d)) => {
                proof { reveal_strlit("failed to exchange: "); }
                let mut s = String::from_str("failed to exchange: ");
                s.append(d.as_str());
                s
            },
            CallError::Transport(TransportError::Timeout(d)) => {
                proof { reveal_strlit("timed out: "); }
                let mut s = String::from_str("timed out: ");
                s.append(d.as_str());
                s
            },
            CallError::Protocol(p) => p.message(),
        }
    }
}

/// The model of a call's outcome: the reply's status and members, or the
/// failure.
pub open spec fn outcome_view(r: Result<Reply, CallError>) -> Result<(i64, Members), CallError> {
    match r {
        Ok(rep) => Ok((rep.status, members_view(rep.members@))),
        Err(e) => Err(e),
    }
}

/// The outcome of a round trip whose channel gave `received`.
pub open spec fn outcome_of(
    f: Framing,
    received: Result<String, TransportError>,
) -> Result<(i64, Members), CallError> {
    match received {
        Err(e) => Err(CallError::Transport(e)),
        Ok(t) => match decoded(unframed(f, t@)) {
            Ok(x) => Ok(x),
            Err(p) => Err(CallError::Protocol(p)),
        },
    }
}

/// What to write on a fresh channel to send `c`. Its body holds no line
/// terminator, so line framing finds its end.
pub fn request(f: Framing, c: &Command) -> (r: String)
    ensures
        r@ == framed(f, request_text(*c)),
        has_no_newline(request_text(*c)),
{
    let body = c.encode();
    f.frame(body.as_str())
}

/// Turns what the channel gave into a reply: the reply text is found by the
/// framing and decoded.
pub fn receive(
    f: Framing,
    received: Result<String, TransportError>,
) -> (r: Result<Reply, CallError>)
    ensures
        outcome_view(r) == outcome_of(f, received),
{
    match received {
        Err(e) => Err(CallError::Transport(e)),
        Ok(t) => {
            let text = f.unframe(t.as_str());
            match decode_reply(text.as_str()) {
                Ok(rep) => Ok(rep),
                Err(p) => Err(CallError::Protocol(p)),
            }
        },
    }
}

/// Whether a tunnel command was carried out.
pub open spec fn tunnel_done(o: Result<(i64, Members), CallError>) -> bool {
    o matches Ok((s, _)) && s == STATUS_OK
}

/// Whether a tunnel command (`tunnel_connect`, `tunnel_disconnect`) was
/// carried out: the reply's status is 200.
pub fn tunnel_command_succeeded(r: &Result<Reply, CallError>) -> (b: bool)
    ensures
        b == tunnel_done(outcome_view(*r)),
{
    match r {
        Ok(rep) => rep.is_ok(),
        Err(_) => false,
    }
}

/// The code a tunnel command reports.
pub open spec fn tunnel_code(o: Result<(i64, Members), CallError>) -> i64 {
    match o {
        Ok((s, _)) => s,
        Err(_) => STATUS_FAILED,
    }
}

/// The status code of a tunnel command's reply, or 500 when none was had.
pub fn tunnel_command_code(r: &Result<Reply, CallError>) -> (c: i64)
    ensures
        c == tunnel_code(outcome_view(*r)),
{
    match r {
        Ok(rep) => rep.status,
        Err(_) => STATUS_FAILED,
    }
}

/// Whether the tunnel runs, as `tunnel_get_status` reports it.
pub open spec fn tunnel_running(o: Result<(i64, Members), CallError>) -> bool {
    match o {
        Ok((s, ms)) => s == STATUS_OK && lookup(ms, "tunnel_is_running"@) == Some(
            FieldView::Bool(true),
        ),
        Err(_) => false,
    }
}

/// Whether the tunnel runs: the boolean `tunnel_is_running` of a successful
/// reply, and `false` on any failure or when it is absent or not a boolean.
pub fn tunnel_is_running(r: &Result<Reply, CallError>) -> (b: bool)
    ensures
        b == tunnel_running(outcome_view(*r)),
{
    proof { reveal_strlit("tunnel_is_running"); }
    match r {
        Ok(rep) => {
            if !rep.is_ok() {
                return false;
            }
            let key = String::from_str("tunnel_is_running");
            match find(&rep.members, &key) {
                Some(Field::Bool(v)) => *v,
                _ => false,
            }
        },
        Err(_) => false,
    }
}

/// The enrollment count that `get_enrollment_count` reports.
pub open spec fn enrollment_count_of(o: Result<(i64, Members), CallError>) -> i64 {
    match o {
        Err(_) => -1i64,
        Ok((s, ms)) => if s != STATUS_OK {
            0i64
        } else {
            match lookup(ms, "enrollment_count"@) {
                Some(FieldView::Number(t)) => match i64_literal(t) {
                    Some(n) => n,
                    None => 0i64,
                },
                _ => 0i64,
            }
        },
    }
}

/// The number of enrollments: the integer `enrollment_count` of a successful
/// reply; 0 when the service refused or the member is absent or not an
/// integer; -1 when no reply was had.
pub fn enrollment_count(r: &Result<Reply, CallError>) -> (n: i64)
    ensures
        n == enrollment_count_of(outcome_view(*r)),
{
    proof { reveal_strlit("enrollment_count"); }
    match r {
        Ok(rep) => {
            if !rep.is_ok() {
                return 0;
            }
            let key = String::from_str("enrollment_count");
            match find(&rep.members, &key) {
                Some(Field::Number(t)) => match crate::number::parse_i64(t.as_str()) {
                    Some(n) => n,
                    None => 0,
                },
                _ => 0,
            }
        },
        Err(_) => -1i64,
    }
}

/// The band name that `get_band_name` reports.
pub open spec fn band_name_of(o: Result<(i64, Members), CallError>) -> Seq<char> {
    match o {
        Err(e) => error_text(e),
        Ok((s, ms)) => if s != STATUS_OK {
            Seq::empty()
        } else {
            match lookup(ms, "band_name"@) {
                Some(FieldView::Text(n)) => n,
                _ => Seq::empty(),
            }
        },
    }
}

/// The band's name: the string `band_name` of a successful reply; empty
/// when the service refused or the member is absent or not a string; the
/// diagnostic when no reply was had.
pub fn band_name(r: &Result<Reply, CallError>) -> (n: String)
    ensures
        n@ == band_name_of(outcome_view(*r)),
{
    proof { reveal_strlit("band_name"); }
    match r {
        Ok(rep) => {
            if !rep.is_ok() {
                return String::new();
            }
            let key = String::from_str("band_name");
            match find(&rep.members, &key) {
                Some(Field::Text(t)) => t.clone(),
                _ => String::new(),
            }
        },
        Err(e) => e.message(),
    }
}

/// The members of the envelope that stands for a failed call.
pub open spec fn error_members(msg: Seq<char>) -> Members {
    seq![("msg"@, FieldView::Text(msg)), ("status"@, FieldView::Number("500"@))]
}

/// What a pass-through command hands its caller.
pub open spec fn passed_through(o: Result<(i64, Members), CallError>) -> Seq<char> {
    match o {
        Ok((_, ms)) => object_text(ms),
        Err(e) => object_text(error_members(error_text(e))),
    }
}

/// The reply of a pass-through command as compact JSON text, whatever its
/// status; for a failed call, `{"msg":<diagnostic>,"status":500}`.
pub fn pass_through(r: &Result<Reply, CallError>) -> (t: String)
    ensures
        t@ == passed_through(outcome_view(*r)),
{
    match r {
        Ok(rep) => write_object(&rep.members),
        Err(e) => {
            let mut v: Vec<(String, Field)> = Vec::new();
            v.push((String::from_str("msg"), Field::Text(e.message())));
            v.push((String::from_str("status"), Field::Number(String::from_str("500"))));
            assert(members_view(v@) =~= error_members(error_text(*e)));
            write_object(&v)
        },
    }
}

/// With no service listening, every command gives its failure default:
/// tunnel commands report no success and code 500, the tunnel is taken as
/// not running, the enrollment count is -1, and a pass-through command
/// yields `{"msg":<diagnostic>,"status":500}` with a non-empty diagnostic.
pub proof fn lemma_unreachable_service(f: Framing, detail: String)
    ensures
        ({
            let o = outcome_of(f, Err(TransportError::Connect(detail)));
            &&& !tunnel_done(o)
            &&& tunnel_code(o) == 500
            &&& !tunnel_running(o)
            &&& enrollment_count_of(o) == -1
            &&& passed_through(o) == object_text(error_members(error_text(
                CallError::Transport(TransportError::Connect(detail)),
            )))
            &&& error_text(CallError::Transport(TransportError::Connect(detail))).len() > 0
        }),
{
    reveal_strlit("failed to connect: ");
}

} // verus!
