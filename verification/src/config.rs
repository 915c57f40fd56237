//! The deployment: who is monitored, for which ticker, with which roles, and
//! at which pace.

use crate::roles::RolePair;
use crate::scheduler::{Cadence, Scheduler};
use vstd::prelude::*;

verus! {

/// Attempts a subject gets in one pass unless the deployment says otherwise.
pub const DEFAULT_RETRY_BUDGET: u32 = 3;

/// Seconds between two passes unless the deployment says otherwise.
pub const DEFAULT_LONG_CADENCE_SECS: u64 = 60;

/// Seconds before a retry unless the deployment says otherwise.
pub const DEFAULT_SHORT_CADENCE_SECS: u64 = 5;

/// A monitored identity and the ticker that decides its role.
#[derive(Debug)]
pub struct Subject {
    /// The identity on the platform.
    pub identity: u64,
    /// The ticker symbol at the quote provider.
    pub ticker: String,
}

/// Everything a deployment fixes before the loop starts. It does not change
/// while the process lives.
#[derive(Debug)]
pub struct Config {
    /// The community whose roles are managed.
    pub community: u64,
    /// The role pair that every subject shares.
    pub roles: RolePair,
    /// The subjects, in the order in which a pass visits them.
    pub subjects: Vec<Subject>,
    /// Attempts a subject gets in one pass.
    pub retry_budget: u32,
    /// Seconds between two passes.
    pub long_cadence_secs: u64,
    /// Seconds before a failed subject is tried again.
    pub short_cadence_secs: u64,
}

impl Config {
    /// The two roles are different roles.
    pub open spec fn wf(&self) -> bool {
        self.roles.wf()
    }

    /// A deployment with the default budget and cadences; `None` when the
    /// positive and the negative role are the same role.
    pub fn new(community: u64, positive: u64, negative: u64, subjects: Vec<Subject>) -> (config:
        Option<Config>)
        ensures
            match config {
                Some(c) => {
                    &&& positive != negative
                    &&& c.wf()
                    &&& c.community == community
                    &&& c.roles == (RolePair { positive, negative })
                    &&& c.subjects == subjects
                    &&& c.retry_budget == DEFAULT_RETRY_BUDGET
                    &&& c.long_cadence_secs == DEFAULT_LONG_CADENCE_SECS
                    &&& c.short_cadence_secs == DEFAULT_SHORT_CADENCE_SECS
                },
                None => positive == negative,
            },
    {
        match RolePair::new(positive, negative) {
            Some(roles) => Some(
                Config {
                    community,
                    roles,
                    subjects,
                    retry_budget: DEFAULT_RETRY_BUDGET,
                    long_cadence_secs: DEFAULT_LONG_CADENCE_SECS,
                    short_cadence_secs: DEFAULT_SHORT_CADENCE_SECS,
                },
            ),
            None => None,
        }
    }

    /// The subject at `position` of the list, if there is one.
    pub fn subject(&self, position: usize) -> (subject: Option<&Subject>)
        ensures
            position < self.subjects@.len() ==> subject == Some(&self.subjects@[position as int]),
            position >= self.subjects@.len() ==> subject is None,
    {
        if position < self.subjects.len() {
            Some(&self.subjects[position])
        } else {
            None
        }
    }

    /// The role pair that applies to the subject at `position`, if there is
    /// such a subject.
    pub fn roles_for(&self, position: usize) -> (roles: Option<RolePair>)
        ensures
            position < self.subjects@.len() ==> roles == Some(self.roles),
            position >= self.subjects@.len() ==> roles is None,
    {
        if position < self.subjects.len() {
            Some(self.roles)
        } else {
            None
        }
    }

    /// The length of one wait of `cadence`, in seconds.
    pub fn cadence_secs(&self, cadence: Cadence) -> (secs: u64)
        ensures
            cadence is Long ==> secs == self.long_cadence_secs,
            cadence is Short ==> secs == self.short_cadence_secs,
    {
        match cadence {
            Cadence::Long => self.long_cadence_secs,
            Cadence::Short => self.short_cadence_secs,
        }
    }

    /// A scheduler for this deployment, at the start of its first pass.
    pub fn scheduler(&self) -> (scheduler: Scheduler)
        ensures
            scheduler == Scheduler::new_spec(self.subjects@.len() as usize, self.retry_budget),
            scheduler.wf(),
    {
        Scheduler::new(self.subjects.len(), self.retry_budget)
    }
}

} // verus!
