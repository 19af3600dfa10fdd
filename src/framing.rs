//! How a message's end is found on the channel.
//!
//! On a stream socket the service closes its side after the reply, so the
//! reply is everything read. On a message pipe each message is one line.
use vstd::prelude::*;
use crate::json::has_no_newline;

verus! {

/// How message boundaries are marked on the channel.
#[derive(PartialEq, Eq, Structural, Clone, Copy, Debug)]
pub enum Framing {
    /// The message runs until the peer closes its sending side.
    Stream,
    /// The message is one line, ended by `\n`.
    Line,
}

/// The index of the first `\n` in `s`, or its length if there is none.
pub open spec fn line_end(s: Seq<char>) -> int
    decreases s.len(),
{
    if s.len() == 0 {
        0
    } else if s[0] == '\n' {
        0
    } else {
        1 + line_end(s.drop_first())
    }
}

/// The text of `s` before its first `\n`.
pub open spec fn first_line(s: Seq<char>) -> Seq<char> {
    s.take(line_end(s))
}

/// What is written for a request body.
pub open spec fn framed(f: Framing, body: Seq<char>) -> Seq<char> {
    match f {
        Framing::Stream => body,
        Framing::Line => body + "\n"@,
    }
}

/// The reply text within what was read.
pub open spec fn unframed(f: Framing, received: Seq<char>) -> Seq<char> {
    match f {
        Framing::Stream => received,
        Framing::Line => first_line(received),
    }
}

proof fn lemma_line_end(s: Seq<char>, k: int)
    requires
        0 <= k <= s.len(),
        forall|j: int| 0 <= j < k ==> s[j] != '\n',
        k == s.len() || s[k] == '\n',
    ensures
        line_end(s) == k,
    decreases k,
{
    if k > 0 {
        lemma_line_end(s.drop_first(), k - 1);
    }
}

impl Framing {
    /// The bytes to write for a request body.
    pub fn frame(&self, body: &str) -> (r: String)
        ensures
            r@ == framed(*self, body@),
    {
        let mut out = String::from_str(body);
        match self {
            Framing::Stream => {},
            Framing::Line => out.append("\n"),
        }
        out
    }

    /// The reply text within what was read from the channel.
    pub fn unframe(&self, received: &str) -> (r: String)
        ensures
            r@ == unframed(*self, received@),
    {
        match self {
            Framing::Stream => String::from_str(received),
            Framing::Line => {
                let n = received.unicode_len();
                let mut i: usize = 0;
                while i < n && received.get_char(i) != '\n'
                    invariant
                        0 <= i <= n,
                        n == received@.len(),
                        forall|j: int| 0 <= j < i ==> received@[j] != '\n',
                    decreases n - i,
                {
                    i = i + 1;
                }
                proof { lemma_line_end(received@, i as int); }
                String::from_str(received.substring_char(0, i))
            },
        }
    }
}

/// A line-framed message comes back whole from what is read, whatever
/// follows it on the channel, as long as it holds no line terminator; a
/// stream-framed message comes back whole when nothing follows it.
pub proof fn lemma_framing_round_trip(body: Seq<char>, rest: Seq<char>)
    requires
        has_no_newline(body),
    ensures
        unframed(Framing::Line, framed(Framing::Line, body) + rest) == body,
        unframed(Framing::Stream, framed(Framing::Stream, body)) == body,
{
    reveal_strlit("\n");
    let s = framed(Framing::Line, body) + rest;
    assert(s[body.len() as int] == '\n');
    lemma_line_end(s, body.len() as int);
    assert(s.take(body.len() as int) =~= body);
}

} // verus!
