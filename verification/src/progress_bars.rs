//! Display-side state for one transfer lane: fixed-width label formatting
//! and the `ProgressHandle`, the reusable per-lane progress record that the
//! rendering backend paints from.

use vstd::prelude::*;

verus! {

/// Fixed display width (in characters) of every lane label, so that the
/// lanes line up in the interactive display.
pub const MESSAGE_WIDTH: usize = 35;

/// A run of `n` space characters.
pub open spec fn spaces(n: nat) -> Seq<char> {
    Seq::new(n, |i: int| ' ')
}

/// Fixed-width label formatting: longer inputs are truncated to exactly
/// `MESSAGE_WIDTH` characters, shorter ones are left-padded with spaces up
/// to that width, and inputs of exactly that width pass through unchanged.
pub open spec fn spec_format_label(s: Seq<char>) -> Seq<char> {
    if s.len() > MESSAGE_WIDTH {
        s.subrange(0, MESSAGE_WIDTH as int)
    } else if s.len() == MESSAGE_WIDTH {
        s
    } else {
        spaces((MESSAGE_WIDTH - s.len()) as nat) + s
    }
}

/// The formatted label always comes out at exactly the display width.
pub proof fn lemma_format_label_len(s: Seq<char>)
    ensures
        spec_format_label(s).len() == MESSAGE_WIDTH,
{
}

/// Formatting is idempotent: a label that has been brought to the fixed
/// width once is left unchanged by a second pass.
pub proof fn lemma_format_label_idempotent(s: Seq<char>)
    ensures
        spec_format_label(spec_format_label(s)) == spec_format_label(s),
{
    lemma_format_label_len(s);
}

/// Render a label at the fixed display width: truncate, pass through, or
/// left-pad with spaces so the result has exactly `MESSAGE_WIDTH` characters.
pub fn message_progress_bar(s: &str) -> (r: String)
    ensures
        r@ == spec_format_label(s@),
        r@.len() == MESSAGE_WIDTH,
{
    let count: usize = s.unicode_len();
    if count > MESSAGE_WIDTH {
        let t: &str = s.substring_char(0, MESSAGE_WIDTH);
        t.to_owned()
    } else if count == MESSAGE_WIDTH {
        s.to_owned()
    } else {
        let pad: usize = MESSAGE_WIDTH - count;
        let mut r: String = String::new();
        let mut k: usize = 0;
        while k < pad
            invariant
                k <= pad,
                r@ == spaces(k as nat),
            decreases pad - k,
        {
            proof {
                reveal_strlit(" ");
            }
            r.append(" ");
            k = k + 1;
            proof {
                assert(r@ =~= spaces(k as nat));
            }
        }
        r.append(s);
        r
    }
}

/// The neutral label an idle lane shows while waiting for its next task.
pub open spec fn pending_label() -> Seq<char> {
    spec_format_label("pending"@)
}

/// The neutral "pending" label, formatted at the fixed display width.
pub fn pending_message() -> (r: String)
    ensures
        r@ == pending_label(),
{
    message_progress_bar("pending")
}

/// Reusable display state for one of the fixed transfer lanes: a byte
/// position, the byte total once response metadata has revealed it, the
/// fixed-width label, and the lane identity, which is stable across reuses.
pub struct ProgressHandle {
    pub lane: usize,
    pub position: u64,
    pub total: u64,
    pub label: String,
    pub finished: bool,
}

impl ProgressHandle {
    /// The neutral state a handle is returned to the pool in: counters
    /// zeroed, label back to "pending", and still accepting updates.
    pub open spec fn is_reset(self) -> bool {
        &&& self.position == 0
        &&& self.total == 0
        &&& self.label@ == pending_label()
        &&& !self.finished
    }

    /// A fresh handle for the given lane, in the neutral pending state.
    pub fn new(lane: usize) -> (h: ProgressHandle)
        ensures
            h.is_reset(),
            h.lane == lane,
    {
        ProgressHandle {
            lane,
            position: 0,
            total: 0,
            label: pending_message(),
            finished: false,
        }
    }

    /// Advance the byte-position counter as body chunks arrive.
    pub fn advance(&mut self, delta: u64)
        requires
            !old(self).finished,
            old(self).position + delta <= u64::MAX,
        ensures
            final(self).position == old(self).position + delta,
            final(self).lane == old(self).lane,
            final(self).total == old(self).total,
            final(self).label == old(self).label,
            !final(self).finished,
    {
        self.position = self.position + delta;
    }

    /// Set the byte-position counter outright, as when a completed body
    /// settles the final transferred count.
    pub fn set_position(&mut self, position: u64)
        requires
            !old(self).finished,
        ensures
            final(self).position == position,
            final(self).lane == old(self).lane,
            final(self).total == old(self).total,
            final(self).label == old(self).label,
            !final(self).finished,
    {
        self.position = position;
    }

    /// Record the byte total once the response metadata advertises it.
    pub fn set_total(&mut self, total: u64)
        requires
            !old(self).finished,
        ensures
            final(self).total == total,
            final(self).lane == old(self).lane,
            final(self).position == old(self).position,
            final(self).label == old(self).label,
            !final(self).finished,
    {
        self.total = total;
    }

    /// Replace the lane label, always formatted at the fixed display width.
    pub fn set_label(&mut self, text: &str)
        requires
            !old(self).finished,
        ensures
            final(self).label@ == spec_format_label(text@),
            final(self).lane == old(self).lane,
            final(self).position == old(self).position,
            final(self).total == old(self).total,
            !final(self).finished,
    {
        self.label = message_progress_bar(text);
    }

    /// Return the handle to the neutral pending state for its next checkout.
    pub fn reset(&mut self)
        ensures
            final(self).is_reset(),
            final(self).lane == old(self).lane,
    {
        self.position = 0;
        self.total = 0;
        self.label = pending_message();
        self.finished = false;
    }

    /// Render the handle complete; no further mutation is permitted.
    pub fn finish(&mut self)
        ensures
            final(self).finished,
            final(self).lane == old(self).lane,
            final(self).position == old(self).position,
            final(self).total == old(self).total,
            final(self).label == old(self).label,
    {
        self.finished = true;
    }
}

/// A log line as the interactive display prints it: the timestamp in
/// brackets, then the message.
pub open spec fn log_line_spec(stamp: Seq<char>, msg: Seq<char>) -> Seq<char> {
    "["@ + stamp + "] "@ + msg
}

/// Relies on chrono's `Local::now` for the wall-clock timestamp. The result
/// depends on the clock, so nothing is promised of it.
#[verifier::external_body]
fn local_time_text() -> (r: String) {
    format!("{}", chrono::Local::now().naive_local())
}

/// Put a timestamp and brackets around a message.
pub fn compose_log_line(stamp: &str, msg: &str) -> (r: String)
    ensures
        r@ == log_line_spec(stamp@, msg@),
{
    let mut r: String = String::from_str("[");
    r.append(stamp);
    r.append("] ");
    r.append(msg);
    r
}

/// A log line carrying the current local time. Which timestamp the clock
/// hands out is outside this core; the line's shape is not.
pub fn timestamped_log_line(msg: &str) -> (r: String)
    ensures
        exists|stamp: Seq<char>| r@ == #[trigger] log_line_spec(stamp, msg@),
{
    let now = local_time_text();
    let r = compose_log_line(now.as_str(), msg);
    proof {
        assert(r@ == log_line_spec(now@, msg@));
    }
    r
}

} // verus!
