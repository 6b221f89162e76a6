use vstd::prelude::*;

verus! {

/// How long, in seconds, an error stays on screen.
pub const ERROR_DISPLAY_DURATION: u64 = 10;

/// An error shown to the user, stamped with the second it was raised.
#[derive(Clone, Debug)]
pub struct DisplayError {
    pub message: String,
    pub timestamp: u64,
}

/// The seconds from `timestamp` to `now`; none when `timestamp` lies ahead.
pub open spec fn elapsed_spec(timestamp: u64, now: u64) -> int {
    if now >= timestamp {
        now - timestamp
    } else {
        0
    }
}

/// Whether an error raised at `timestamp` has been shown long enough.
pub open spec fn expired(e: DisplayError, now: u64) -> bool {
    elapsed_spec(e.timestamp, now) >= ERROR_DISPLAY_DURATION
}

/// The errors of `s` that are still to be shown at `now`, in order.
pub open spec fn unexpired(s: Seq<DisplayError>, now: u64) -> Seq<DisplayError>
    decreases s.len(),
{
    if s.len() == 0 {
        s
    } else if expired(s.last(), now) {
        unexpired(s.drop_last(), now)
    } else {
        unexpired(s.drop_last(), now).push(s.last())
    }
}

impl DisplayError {
    pub fn new(message: String, timestamp: u64) -> (e: DisplayError)
        ensures
            e.message == message,
            e.timestamp == timestamp,
    {
        DisplayError { message, timestamp }
    }

    pub fn message(&self) -> (m: &str)
        ensures
            m@ == self.message@,
    {
        self.message.as_str()
    }

    pub fn timestamp(&self) -> (t: u64)
        ensures
            t == self.timestamp,
    {
        self.timestamp
    }

    /// Whether this error has been shown long enough at `now`.
    pub fn is_expired(&self, now: u64) -> (r: bool)
        ensures
            r == expired(*self, now),
    {
        let elapsed: u64 = if now >= self.timestamp {
            now - self.timestamp
        } else {
            0
        };
        elapsed >= ERROR_DISPLAY_DURATION
    }
}

/// Drops the errors that have expired at `now`, keeping the others in order.
pub fn retain_unexpired(errors: &mut Vec<DisplayError>, now: u64)
    ensures
        final(errors)@ == unexpired(old(errors)@, now),
{
    let ghost orig = errors@;
    let mut i: usize = 0;
    let ghost mut k: int = 0;
    while i < errors.len()
        invariant
            0 <= k <= orig.len(),
            errors@ == unexpired(orig.subrange(0, k), now) + orig.subrange(k, orig.len() as int),
            i == unexpired(orig.subrange(0, k), now).len(),
        decreases orig.len() - k,
    {
        proof {
            assert(orig.subrange(0, k + 1).drop_last() =~= orig.subrange(0, k));
            assert(orig.subrange(0, k + 1).last() == orig[k]);
            assert(errors@[i as int] == orig[k]);
        }
        if errors[i].is_expired(now) {
            let _ = errors.remove(i);
            proof {
                assert(errors@ =~= unexpired(orig.subrange(0, k + 1), now) + orig.subrange(k + 1, orig.len() as int));
            }
        } else {
            i = i + 1;
            proof {
                assert(errors@ =~= unexpired(orig.subrange(0, k + 1), now) + orig.subrange(k + 1, orig.len() as int));
            }
        }
        proof {
            k = k + 1;
        }
    }
    proof {
        assert(orig.subrange(0, k) =~= orig);
        assert(errors@ =~= unexpired(orig, now));
    }
}

/// The errors waiting to be shown, oldest first.
pub struct ErrorDisplay {
    pub errors: Vec<DisplayError>,
}

impl ErrorDisplay {
    pub fn new() -> (d: ErrorDisplay)
        ensures
            d.errors@ == Seq::<DisplayError>::empty(),
    {
        ErrorDisplay { errors: Vec::new() }
    }

    /// Queues `error` after the others.
    pub fn add_error(&mut self, error: DisplayError)
        ensures
            final(self).errors@ == old(self).errors@.push(error),
    {
        self.errors.push(error);
    }

    /// Drops the errors that have been shown long enough at `now`.
    pub fn prune_expired(&mut self, now: u64)
        ensures
            final(self).errors@ == unexpired(old(self).errors@, now),
    {
        retain_unexpired(&mut self.errors, now);
    }
}

} // verus!
