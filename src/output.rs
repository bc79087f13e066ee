use vstd::prelude::*;
use vstd::string::{StrSliceExecFns, StringExecFns};

verus! {

/// Which of the worker's output streams a line came from.
#[derive(Clone, Copy, Debug, PartialEq, Eq, Structural)]
pub enum Channel {
    Stdout,
    Stderr,
}

/// One raw line of worker output, tagged with its channel.
pub struct OutputEvent {
    pub channel: Channel,
    pub bytes: Vec<u8>,
}

/// The text that lossy UTF-8 decoding makes of a byte sequence.
pub uninterp spec fn lossy_text(b: Seq<u8>) -> Seq<char>;

/// Relies on `String::from_utf8_lossy`: decodes the bytes, replacing invalid
/// sequences, and the result depends on the bytes alone.
#[verifier::external_body]
fn decode_lossy(bytes: &Vec<u8>) -> (r: String)
    ensures
        r@ == lossy_text(bytes@),
{
    String::from_utf8_lossy(bytes.as_slice()).into_owned()
}

impl OutputEvent {
    /// The line as text; malformed byte sequences are replaced, never rejected.
    pub fn text(&self) -> (r: String)
        ensures
            r@ == lossy_text(self.bytes@),
    {
        decode_lossy(&self.bytes)
    }
}

/// `pat` occurs in `text` starting at position `i`.
pub open spec fn occurs_at(text: Seq<char>, pat: Seq<char>, i: int) -> bool {
    0 <= i && i + pat.len() <= text.len() && text.subrange(i, i + pat.len()) == pat
}

/// `pat` occurs somewhere in `text`.
pub open spec fn contains_seq(text: Seq<char>, pat: Seq<char>) -> bool {
    exists|i: int| occurs_at(text, pat, i)
}

pub open spec fn uvicorn_marker() -> Seq<char> {
    "Uvicorn running"@
}

pub open spec fn startup_complete_marker() -> Seq<char> {
    "Application startup complete"@
}

/// A line announces that the worker is ready to serve.
pub open spec fn has_ready_marker(text: Seq<char>) -> bool {
    contains_seq(text, uvicorn_marker()) || contains_seq(text, startup_complete_marker())
}

/// Whether `pat` occurs as a contiguous run of characters in `text`.
pub fn contains_text(text: &str, pat: &str) -> (r: bool)
    ensures
        r == contains_seq(text@, pat@),
{
    let n = text.unicode_len();
    let m = pat.unicode_len();
    if m > n {
        assert forall|i: int| !occurs_at(text@, pat@, i) by {}
        return false;
    }
    let mut i: usize = 0;
    while i <= n - m
        invariant
            n == text@.len(),
            m == pat@.len(),
            m <= n,
            i <= n - m + 1,
            forall|k: int| 0 <= k < i ==> !occurs_at(text@, pat@, k),
        decreases n - m + 1 - i,
    {
        let mut j: usize = 0;
        let mut same = true;
        while j < m && same
            invariant
                n == text@.len(),
                m == pat@.len(),
                i + m <= n,
                j <= m,
                same ==> forall|k: int| 0 <= k < j ==> text@[i + k] == pat@[k],
                !same ==> exists|k: int| 0 <= k < m && text@[i + k] != pat@[k],
            decreases m - j + (if same { 1int } else { 0int }),
        {
            if text.get_char(i + j) != pat.get_char(j) {
                same = false;
            } else {
                j = j + 1;
            }
        }
        if same {
            assert(text@.subrange(i as int, i + m) =~= pat@);
            assert(occurs_at(text@, pat@, i as int));
            return true;
        }
        proof {
            let k = choose|k: int| 0 <= k < m && text@[i + k] != pat@[k];
            assert(text@.subrange(i as int, i + m)[k] != pat@[k]);
        }
        i = i + 1;
    }
    assert forall|k: int| !occurs_at(text@, pat@, k) by {
        if 0 <= k && k + m <= n {
            assert(k < i);
        }
    }
    false
}

/// Whether a line of worker output carries one of the two readiness markers.
pub fn is_ready_line(text: &str) -> (r: bool)
    ensures
        r == has_ready_marker(text@),
{
    contains_text(text, "Uvicorn running") || contains_text(text, "Application startup complete")
}

/// The label that relayed worker output carries for its channel.
pub open spec fn relay_label(channel: Channel) -> Seq<char> {
    match channel {
        Channel::Stdout => "Server: "@,
        Channel::Stderr => "Server error: "@,
    }
}

/// The diagnostics line that the output relay writes for one line of worker
/// output: the channel's label, then the text.
pub fn diagnostic_line(channel: Channel, text: &str) -> (r: String)
    ensures
        r@ == relay_label(channel) + text@,
{
    let mut s = match channel {
        Channel::Stdout => String::from_str("Server: "),
        Channel::Stderr => String::from_str("Server error: "),
    };
    s.append(text);
    s
}

} // verus!
