//! The error classifier: normalizes opaque transport and I/O failures into
//! a closed set of domain error kinds. Transport failures are classified by
//! best-effort pattern matching over their textual description, a known
//! fragility of the underlying HTTP client's error surface.

use vstd::prelude::*;
use vstd::string::to_string_from_display_ensures;

verus! {

/// Closed taxonomy of download failures. `Other` is the catch-all and
/// carries the original failure message verbatim.
#[derive(Debug)]
pub enum DlmError {
    ConnectionClosed,
    ConnectionTimeout,
    ResponseBodyError,
    DeadlineElapsed,
    ResponseStatusNotSuccess { detail: String },
    IoError { detail: String },
    TaskFailed { detail: String },
    ChannelError { detail: String },
    Other { message: String },
}

/// The characters of `needle` occur in `hay` starting at position `i`.
pub open spec fn match_at(hay: Seq<char>, needle: Seq<char>, i: int) -> bool {
    hay.subrange(i, i + needle.len()) == needle
}

/// `needle` occurs somewhere in `hay` as a contiguous run of characters.
pub open spec fn contains_seq(hay: Seq<char>, needle: Seq<char>) -> bool {
    exists|i: int| 0 <= i <= hay.len() - needle.len() && #[trigger] match_at(hay, needle, i)
}

/// Whether `needle` occurs at exactly position `i` of `hay`.
fn match_at_idx(hay: &str, needle: &str, i: usize, needle_len: usize) -> (b: bool)
    requires
        needle_len == needle@.len(),
        i + needle_len <= hay@.len(),
        hay@.len() <= usize::MAX,
    ensures
        b == match_at(hay@, needle@, i as int),
{
    let mut j: usize = 0;
    while j < needle_len
        invariant
            j <= needle_len,
            needle_len == needle@.len(),
            i + needle_len <= hay@.len(),
            hay@.len() <= usize::MAX,
            forall|t: int| 0 <= t < j ==> hay@[i + t] == needle@[t],
        decreases needle_len - j,
    {
        let hc = hay.get_char(i + j);
        let nc = needle.get_char(j);
        if hc != nc {
            proof {
                assert(hay@.subrange(i as int, i + needle@.len())[j as int] != needle@[j as int]);
            }
            return false;
        }
        j = j + 1;
    }
    proof {
        assert(hay@.subrange(i as int, i + needle@.len()) =~= needle@);
    }
    true
}

/// Substring search over characters, the primitive the classifier's
/// pattern matching rests on.
pub fn str_contains(hay: &str, needle: &str) -> (b: bool)
    ensures
        b == contains_seq(hay@, needle@),
{
    let hay_len: usize = hay.unicode_len();
    let needle_len: usize = needle.unicode_len();
    if needle_len > hay_len {
        return false;
    }
    if needle_len == 0 {
        proof {
            assert(hay@.subrange(0, 0) =~= needle@);
            assert(match_at(hay@, needle@, 0));
        }
        return true;
    }
    let mut i: usize = 0;
    while i <= hay_len - needle_len
        invariant
            1 <= needle_len <= hay_len,
            hay_len == hay@.len(),
            needle_len == needle@.len(),
            i <= hay_len - needle_len + 1,
            forall|k: int| 0 <= k < i ==> !#[trigger] match_at(hay@, needle@, k),
        decreases hay_len - i,
    {
        if match_at_idx(hay, needle, i, needle_len) {
            proof {
                assert(match_at(hay@, needle@, i as int));
            }
            return true;
        }
        i = i + 1;
    }
    false
}

/// Failure text the transport emits when the response body could not be
/// fully read.
pub open spec fn body_error_pattern() -> Seq<char> {
    "error reading a body from connection"@
}

/// Failure text the transport emits when the peer closed the connection
/// before the message completed.
pub open spec fn connection_closed_pattern() -> Seq<char> {
    "connection closed before message completed"@
}

/// Failure text the transport emits when the connection attempt timed out.
pub open spec fn connection_timeout_pattern() -> Seq<char> {
    "error trying to connect: operation timed out"@
}

fn body_error_text() -> (r: &'static str)
    ensures
        r@ == body_error_pattern(),
{
    "error reading a body from connection"
}

fn connection_closed_text() -> (r: &'static str)
    ensures
        r@ == connection_closed_pattern(),
{
    "connection closed before message completed"
}

fn connection_timeout_text() -> (r: &'static str)
    ensures
        r@ == connection_timeout_pattern(),
{
    "error trying to connect: operation timed out"
}

/// Exactly which error a transport failure with the given textual
/// description classifies to, in the fixed priority order: body-read
/// failure, then peer-closed connection, then connect timeout, and
/// otherwise the catch-all carrying the message verbatim.
pub open spec fn classifies(text: Seq<char>, e: DlmError) -> bool {
    if contains_seq(text, body_error_pattern()) {
        e == DlmError::ResponseBodyError
    } else if contains_seq(text, connection_closed_pattern()) {
        e == DlmError::ConnectionClosed
    } else if contains_seq(text, connection_timeout_pattern()) {
        e == DlmError::ConnectionTimeout
    } else {
        e matches DlmError::Other { message } && message@ == text
    }
}

impl DlmError {
    /// Classify a transport failure from its textual description alone: a
    /// pure, deterministic function of the message. Unrecognized text comes
    /// back as `Other` with the message preserved verbatim.
    pub fn classify_fetch_text(message: String) -> (e: DlmError)
        ensures
            classifies(message@, e),
    {
        if str_contains(message.as_str(), body_error_text()) {
            DlmError::ResponseBodyError
        } else if str_contains(message.as_str(), connection_closed_text()) {
            DlmError::ConnectionClosed
        } else if str_contains(message.as_str(), connection_timeout_text()) {
            DlmError::ConnectionTimeout
        } else {
            DlmError::Other { message }
        }
    }

    /// Classify a failure of the HTTP client by its textual description:
    /// the error's display text, whatever it is, decides the kind.
    pub fn from_fetch_error(e: &reqwest::Error) -> (r: DlmError)
        ensures
            exists|text: String|
                to_string_from_display_ensures::<reqwest::Error>(e, text) && #[trigger] classifies(
                    text@,
                    r,
                ),
    {
        let text: String = e.to_string();
        let ghost t: String = text;
        let r = DlmError::classify_fetch_text(text);
        proof {
            assert(to_string_from_display_ensures::<reqwest::Error>(e, t) && classifies(t@, r));
        }
        r
    }

    /// A local filesystem or I/O failure, carrying its description.
    pub fn from_io_error(e: &std::io::Error) -> (r: DlmError)
        ensures
            r matches DlmError::IoError { detail } && to_string_from_display_ensures::<
                std::io::Error,
            >(e, detail),
    {
        let detail: String = e.to_string();
        DlmError::IoError { detail }
    }

    /// A deadline signal from a bounded-wait primitive.
    pub fn from_elapsed(_e: tokio::time::error::Elapsed) -> (r: DlmError)
        ensures
            r == DlmError::DeadlineElapsed,
    {
        DlmError::DeadlineElapsed
    }

    /// A failure surfaced while joining a worker's completion.
    pub fn from_join_error(e: &tokio::task::JoinError) -> (r: DlmError)
        ensures
            r matches DlmError::TaskFailed { detail } && to_string_from_display_ensures::<
                tokio::task::JoinError,
            >(e, detail),
    {
        let detail: String = e.to_string();
        DlmError::TaskFailed { detail }
    }

    /// A failure reading from an internal completion channel.
    pub fn from_recv_error(e: &async_channel::RecvError) -> (r: DlmError)
        ensures
            r matches DlmError::ChannelError { detail } && to_string_from_display_ensures::<
                async_channel::RecvError,
            >(e, detail),
    {
        let detail: String = e.to_string();
        DlmError::ChannelError { detail }
    }

    /// How the error reads at a glance in a lane's failure label.
    pub open spec fn spec_short_text(self) -> Seq<char> {
        match self {
            DlmError::ConnectionClosed => "connection closed"@,
            DlmError::ConnectionTimeout => "connection timeout"@,
            DlmError::ResponseBodyError => "response body error"@,
            DlmError::DeadlineElapsed => "deadline elapsed"@,
            DlmError::ResponseStatusNotSuccess { detail } => "bad status: "@ + detail@,
            DlmError::IoError { detail } => "io error: "@ + detail@,
            DlmError::TaskFailed { detail } => "task failed: "@ + detail@,
            DlmError::ChannelError { detail } => "channel error: "@ + detail@,
            DlmError::Other { message } => message@,
        }
    }

    /// Short diagnosable description of the error for a lane label.
    pub fn short_text(&self) -> (r: String)
        ensures
            r@ == self.spec_short_text(),
    {
        match self {
            DlmError::ConnectionClosed => String::from_str("connection closed"),
            DlmError::ConnectionTimeout => String::from_str("connection timeout"),
            DlmError::ResponseBodyError => String::from_str("response body error"),
            DlmError::DeadlineElapsed => String::from_str("deadline elapsed"),
            DlmError::ResponseStatusNotSuccess { detail } => String::from_str(
                "bad status: ",
            ).concat(detail.as_str()),
            DlmError::IoError { detail } => String::from_str("io error: ").concat(detail.as_str()),
            DlmError::TaskFailed { detail } => String::from_str("task failed: ").concat(
                detail.as_str(),
            ),
            DlmError::ChannelError { detail } => String::from_str("channel error: ").concat(
                detail.as_str(),
            ),
            DlmError::Other { message } => message.clone(),
        }
    }
}

/// The classifier is deterministic: one failure text admits only one error
/// kind, and unrecognized text always comes back as `Other` carrying the
/// message verbatim.
pub proof fn lemma_classifier_deterministic(text: Seq<char>, e1: DlmError, e2: DlmError)
    requires
        classifies(text, e1),
        classifies(text, e2),
    ensures
        e1 is ResponseBodyError <==> e2 is ResponseBodyError,
        e1 is ConnectionClosed <==> e2 is ConnectionClosed,
        e1 is ConnectionTimeout <==> e2 is ConnectionTimeout,
        e1 matches DlmError::Other { message: m1 } ==> e2 matches DlmError::Other { message: m2 }
            && m1@ == m2@ && m1@ == text,
{
}

/// The HTTP client's opaque error, carried only so its display text can be
/// classified.
#[verifier::external_type_specification]
#[verifier::external_body]
pub struct ExReqwestError(reqwest::Error);

/// The standard library's I/O error, carried only for its display text.
#[verifier::external_type_specification]
#[verifier::external_body]
pub struct ExIoError(std::io::Error);

/// The runtime's deadline-elapsed marker; it carries no data of interest.
#[verifier::external_type_specification]
#[verifier::external_body]
pub struct ExElapsed(tokio::time::error::Elapsed);

/// The runtime's join failure, carried only for its display text.
#[verifier::external_type_specification]
#[verifier::external_body]
pub struct ExJoinError(tokio::task::JoinError);

/// The completion channel's receive failure, carried only for its display
/// text.
#[verifier::external_type_specification]
#[verifier::external_body]
pub struct ExRecvError(async_channel::RecvError);

} // verus!
