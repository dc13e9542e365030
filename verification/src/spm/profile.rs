//! Distributed timing counters.
//!
//! Times are whole nanoseconds, as the clocks give them; a caller that prints
//! seconds divides at the very end.

use vstd::prelude::*;

verus! {

/// What one remote request that came back with a tensor took.
#[derive(Debug, Clone, Copy)]
pub struct RemoteSample {
    pub total_ns: u128,
    /// What the worker says it computed, in microseconds.
    pub compute_us: u64,
    pub write_ns: u128,
    pub read_ns: u128,
    pub write_bytes: usize,
    pub read_bytes: usize,
}

/// Totals over remote requests: how many there were, how long they took, how
/// much of that was computation, and what was moved.
#[derive(Debug, Clone, Copy)]
pub struct DistributedProfile {
    pub remote_requests: usize,
    pub remote_total_ns: u128,
    pub remote_compute_ns: u128,
    pub remote_write_ns: u128,
    pub remote_read_ns: u128,
    pub remote_write_bytes: usize,
    pub remote_read_bytes: usize,
}

impl DistributedProfile {
    /// A profile in which nothing was counted yet.
    pub open spec fn zero() -> Self {
        DistributedProfile {
            remote_requests: 0,
            remote_total_ns: 0,
            remote_compute_ns: 0,
            remote_write_ns: 0,
            remote_read_ns: 0,
            remote_write_bytes: 0,
            remote_read_bytes: 0,
        }
    }

    /// The counters can take `sample` without overflow.
    pub open spec fn has_room_for(self, sample: RemoteSample) -> bool {
        &&& self.remote_requests < usize::MAX
        &&& self.remote_total_ns + sample.total_ns <= u128::MAX
        &&& self.remote_compute_ns + sample.compute_us * 1000 <= u128::MAX
        &&& self.remote_write_ns + sample.write_ns <= u128::MAX
        &&& self.remote_read_ns + sample.read_ns <= u128::MAX
        &&& self.remote_write_bytes + sample.write_bytes <= usize::MAX
        &&& self.remote_read_bytes + sample.read_bytes <= usize::MAX
    }

    /// The profile with `sample` counted in.
    pub open spec fn with_sample(self, sample: RemoteSample) -> Self {
        DistributedProfile {
            remote_requests: (self.remote_requests + 1) as usize,
            remote_total_ns: (self.remote_total_ns + sample.total_ns) as u128,
            remote_compute_ns: (self.remote_compute_ns + sample.compute_us * 1000) as u128,
            remote_write_ns: (self.remote_write_ns + sample.write_ns) as u128,
            remote_read_ns: (self.remote_read_ns + sample.read_ns) as u128,
            remote_write_bytes: (self.remote_write_bytes + sample.write_bytes) as usize,
            remote_read_bytes: (self.remote_read_bytes + sample.read_bytes) as usize,
        }
    }

    /// The part of the remote time that was not computation, never negative.
    pub fn distributed_overhead_ns(&self) -> (res: u128)
        ensures
            res == if self.remote_total_ns >= self.remote_compute_ns {
                self.remote_total_ns - self.remote_compute_ns
            } else {
                0
            },
    {
        self.remote_total_ns.saturating_sub(self.remote_compute_ns)
    }

    /// Tells whether the counters can take `sample`.
    pub fn can_record(&self, sample: &RemoteSample) -> (res: bool)
        ensures
            res == self.has_room_for(*sample),
    {
        let compute_ns: u128 = sample.compute_us as u128 * 1000;
        self.remote_requests < usize::MAX && sample.total_ns <= u128::MAX - self.remote_total_ns
            && compute_ns <= u128::MAX - self.remote_compute_ns && sample.write_ns <= u128::MAX
            - self.remote_write_ns && sample.read_ns <= u128::MAX - self.remote_read_ns
            && sample.write_bytes <= usize::MAX - self.remote_write_bytes && sample.read_bytes
            <= usize::MAX - self.remote_read_bytes
    }

    /// Counts one remote request.
    pub fn record(&mut self, sample: &RemoteSample)
        requires
            old(self).has_room_for(*sample),
        ensures
            *final(self) == old(self).with_sample(*sample),
    {
        let compute_ns: u128 = sample.compute_us as u128 * 1000;
        self.remote_requests = self.remote_requests + 1;
        self.remote_total_ns = self.remote_total_ns + sample.total_ns;
        self.remote_compute_ns = self.remote_compute_ns + compute_ns;
        self.remote_write_ns = self.remote_write_ns + sample.write_ns;
        self.remote_read_ns = self.remote_read_ns + sample.read_ns;
        self.remote_write_bytes = self.remote_write_bytes + sample.write_bytes;
        self.remote_read_bytes = self.remote_read_bytes + sample.read_bytes;
    }
}

impl Default for DistributedProfile {
    fn default() -> (res: Self)
        ensures
            res == Self::zero(),
    {
        DistributedProfile {
            remote_requests: 0,
            remote_total_ns: 0,
            remote_compute_ns: 0,
            remote_write_ns: 0,
            remote_read_ns: 0,
            remote_write_bytes: 0,
            remote_read_bytes: 0,
        }
    }
}

/// Counts `sample` in the profile of the running request, or in the global one
/// where the request has none that can be locked. A profile that cannot be
/// locked is passed as `None`; with neither at hand the sample is dropped.
pub fn update_distributed_profile(
    scoped: Option<&mut DistributedProfile>,
    global: Option<&mut DistributedProfile>,
    sample: &RemoteSample,
)
    requires
        scoped matches Some(p) ==> p.has_room_for(*sample),
        scoped is None ==> (global matches Some(p) ==> p.has_room_for(*sample)),
    ensures
        scoped matches Some(p) ==> *final(p) == p.with_sample(*sample),
        global matches Some(p) ==> *final(p) == if scoped is None {
            p.with_sample(*sample)
        } else {
            *p
        },
{
    match scoped {
        Some(p) => {
            p.record(sample);
        },
        None => match global {
            Some(p) => {
                p.record(sample);
            },
            None => {},
        },
    }
}

/// Sets the global counters back to zero. A profile that cannot be locked is
/// passed as `None` and left alone.
pub fn reset_distributed_profile(global: Option<&mut DistributedProfile>)
    ensures
        global matches Some(p) ==> *final(p) == DistributedProfile::zero(),
{
    match global {
        Some(p) => {
            *p = DistributedProfile::default();
        },
        None => {},
    }
}

/// A copy of the global counters, or all zeros where they cannot be locked.
pub fn snapshot_distributed_profile(global: Option<&DistributedProfile>) -> (res:
    DistributedProfile)
    ensures
        res == match global {
            Some(p) => *p,
            None => DistributedProfile::zero(),
        },
{
    match global {
        Some(p) => *p,
        None => DistributedProfile::default(),
    }
}

} // verus!
