//! The settings of a dispatcher, fixed when it is built.

use vstd::prelude::*;

verus! {

/// How many calls may be in flight at once, how many permits each interval
/// brings, how often a call may be retried, and how long one attempt may take.
#[derive(Clone, Copy, Debug, PartialEq, Eq)]
pub struct PipelineConfig {
    admission_capacity: usize,
    permits_per_interval: u64,
    interval_millis: u64,
    max_retries: usize,
    timeout_millis: u64,
}

/// The mathematical content of a [`PipelineConfig`].
pub ghost struct PipelineConfigView {
    pub admission_capacity: nat,
    pub permits_per_interval: nat,
    pub interval_millis: nat,
    pub max_retries: nat,
    pub timeout_millis: nat,
}

impl PipelineConfigView {
    /// Whether the settings can be used: at least one slot, at least one
    /// permit, and an interval that is not empty.
    pub open spec fn usable(self) -> bool {
        self.admission_capacity > 0 && self.permits_per_interval > 0 && self.interval_millis > 0
    }
}

impl View for PipelineConfig {
    type V = PipelineConfigView;

    closed spec fn view(&self) -> PipelineConfigView {
        PipelineConfigView {
            admission_capacity: self.admission_capacity as nat,
            permits_per_interval: self.permits_per_interval as nat,
            interval_millis: self.interval_millis as nat,
            max_retries: self.max_retries as nat,
            timeout_millis: self.timeout_millis as nat,
        }
    }
}

impl PipelineConfig {
    #[verifier::type_invariant]
    spec fn valid(self) -> bool {
        self@.usable()
    }

    /// The settings given, if they are usable.
    pub fn new(
        admission_capacity: usize,
        permits_per_interval: u64,
        interval_millis: u64,
        max_retries: usize,
        timeout_millis: u64,
    ) -> (config: Option<PipelineConfig>)
        ensures
            config is Some <==> admission_capacity > 0 && permits_per_interval > 0
                && interval_millis > 0,
            config is Some ==> config.unwrap()@ == (PipelineConfigView {
                admission_capacity: admission_capacity as nat,
                permits_per_interval: permits_per_interval as nat,
                interval_millis: interval_millis as nat,
                max_retries: max_retries as nat,
                timeout_millis: timeout_millis as nat,
            }),
    {
        if admission_capacity > 0 && permits_per_interval > 0 && interval_millis > 0 {
            Some(
                PipelineConfig {
                    admission_capacity,
                    permits_per_interval,
                    interval_millis,
                    max_retries,
                    timeout_millis,
                },
            )
        } else {
            None
        }
    }

    /// The settings for the MusicBrainz API: 100 calls in flight, one permit a
    /// second, five retries, ten seconds for an attempt.
    pub fn musicbrainz() -> (config: PipelineConfig)
        ensures
            config@ == (PipelineConfigView {
                admission_capacity: 100,
                permits_per_interval: 1,
                interval_millis: 1000,
                max_retries: 5,
                timeout_millis: 10_000,
            }),
    {
        PipelineConfig {
            admission_capacity: 100,
            permits_per_interval: 1,
            interval_millis: 1000,
            max_retries: 5,
            timeout_millis: 10_000,
        }
    }

    pub fn admission_capacity(&self) -> (capacity: usize)
        ensures
            capacity == self@.admission_capacity,
            capacity > 0,
    {
        proof {
            use_type_invariant(self);
        }
        self.admission_capacity
    }

    pub fn permits_per_interval(&self) -> (permits: u64)
        ensures
            permits == self@.permits_per_interval,
            permits > 0,
    {
        proof {
            use_type_invariant(self);
        }
        self.permits_per_interval
    }

    pub fn interval_millis(&self) -> (millis: u64)
        ensures
            millis == self@.interval_millis,
            millis > 0,
    {
        proof {
            use_type_invariant(self);
        }
        self.interval_millis
    }

    pub fn max_retries(&self) -> (retries: usize)
        ensures
            retries == self@.max_retries,
    {
        self.max_retries
    }

    pub fn timeout_millis(&self) -> (millis: u64)
        ensures
            millis == self@.timeout_millis,
    {
        self.timeout_millis
    }
}

} // verus!
