//! What a transport can fail with, and the window of recent timestamps from
//! which a frame rate is read.

use vstd::prelude::*;
use crate::protocol::Double;

verus! {

/// Why a transport could not do what was asked of it.
#[derive(Debug)]
pub enum TransportError {
    ConnectionFailed(String),
    NotConnected,
    SendFailed(String),
    ReceiveFailed(String),
    /// An envelope that could not be read.
    ProtocolError(String),
    Timeout,
}

impl TransportError {
    /// Whether the error ends the connection it struck: a failed send or
    /// receive does, and nothing else.
    pub open spec fn spec_ends_connection(&self) -> bool {
        self is SendFailed || self is ReceiveFailed
    }

    /// Whether the connection on which this error came up is to be closed
    /// and its session removed.
    #[verifier::when_used_as_spec(spec_ends_connection)]
    pub fn ends_connection(&self) -> (ends: bool)
        ensures
            ends == self.spec_ends_connection(),
    {
        match self {
            TransportError::SendFailed(_) => true,
            TransportError::ReceiveFailed(_) => true,
            _ => false,
        }
    }
}

/// The most recent timestamps, oldest first, and never more of them than
/// the window holds.
pub struct FpsTracker {
    timestamps: Vec<Double>,
    max_samples: usize,
}

impl View for FpsTracker {
    type V = Seq<Double>;

    /// The timestamps in the window, oldest first.
    closed spec fn view(&self) -> Seq<Double> {
        self.timestamps@
    }
}

impl FpsTracker {
    /// The number of timestamps that the window holds.
    pub closed spec fn window(&self) -> nat {
        self.max_samples as nat
    }

    /// Whether the window is in order: it holds no more than it may.
    pub closed spec fn well_formed(&self) -> bool {
        self.timestamps@.len() <= self.max_samples
    }

    /// The window after one more timestamp: it joins at the end, and where
    /// the window was full the oldest leaves first.
    pub open spec fn after_record(window: nat, samples: Seq<Double>, timestamp: Double) -> Seq<
        Double,
    > {
        if samples.len() >= window {
            samples.drop_first().push(timestamp)
        } else {
            samples.push(timestamp)
        }
    }

    /// An empty window for `max_samples` timestamps.
    pub fn new(max_samples: usize) -> (tracker: Self)
        ensures
            tracker.well_formed(),
            tracker.window() == max_samples,
            tracker@ == Seq::<Double>::empty(),
    {
        FpsTracker { timestamps: Vec::with_capacity(max_samples), max_samples }
    }

    /// Puts a timestamp into the window.
    pub fn record(&mut self, timestamp: Double)
        requires
            old(self).well_formed(),
            old(self).window() >= 1,
        ensures
            final(self).well_formed(),
            final(self).window() == old(self).window(),
            final(self)@ == Self::after_record(old(self).window(), old(self)@, timestamp),
    {
        if self.timestamps.len() >= self.max_samples {
            self.timestamps.remove(0);
        }
        self.timestamps.push(timestamp);
    }

    /// The timestamps in the window, oldest first.
    pub fn samples(&self) -> (samples: &Vec<Double>)
        ensures
            samples@ == self@,
    {
        &self.timestamps
    }

    /// Empties the window.
    pub fn clear(&mut self)
        ensures
            final(self).well_formed(),
            final(self).window() == old(self).window(),
            final(self)@ == Seq::<Double>::empty(),
    {
        self.timestamps.clear();
    }
}

/// After any run of timestamps is recorded, the window holds the newest of
/// them, as many as fit, in the order in which they came.
pub proof fn lemma_record_keeps_newest(window: nat, samples: Seq<Double>, timestamp: Double)
    requires
        window >= 1,
        samples.len() <= window,
    ensures
        ({
            let after = FpsTracker::after_record(window, samples, timestamp);
            let all = samples.push(timestamp);
            &&& after.len() <= window
            &&& after.len() == if samples.len() < window {
                samples.len() + 1
            } else {
                window
            }
            &&& after == all.subrange(all.len() - after.len(), all.len() as int)
            &&& after.last() == timestamp
        }),
{
    let after = FpsTracker::after_record(window, samples, timestamp);
    let all = samples.push(timestamp);
    assert(after =~= all.subrange(all.len() - after.len(), all.len() as int));
}

} // verus!
