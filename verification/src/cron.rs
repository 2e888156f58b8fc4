//! Builders for tasks that run on a cron schedule.
//!
//! A builder pairs a task name with a parsed cron schedule and optionally
//! carries state for the task.  The schedule's own calendar arithmetic is
//! the cron crate's; what the library decides is when the next run is due
//! and how long to wait for it.  Spawning the task is an executor concern
//! and happens outside.

use std::str::FromStr;

use vstd::prelude::*;

verus! {

#[verifier::external_type_specification]
#[verifier::external_body]
pub struct ExSchedule(cron::Schedule);

pub uninterp spec fn cron_parses(expr: Seq<char>) -> bool;

/// Relies on cron::Schedule::from_str: whether a schedule expression
/// parses depends on its text alone.
#[verifier::external_body]
fn parse_schedule(expr: &str) -> (r: Option<cron::Schedule>)
    ensures
        r is Some <==> cron_parses(expr@),
{
    cron::Schedule::from_str(expr).ok()
}

/// Relies on cron::Schedule::after: the instants it yields are strictly
/// after the starting instant, so the next run, when the schedule has
/// one, is strictly after `now`.  Times are seconds since the Unix epoch.
#[verifier::external_body]
fn schedule_next_after(schedule: &cron::Schedule, now: i64) -> (r: Option<i64>)
    ensures
        r matches Some(t) ==> t > now,
{
    let start = chrono::DateTime::<chrono::Utc>::from_timestamp(now, 0)?;
    schedule.after(&start).next().map(|d| d.timestamp())
}

/// A named task on a cron schedule, without state.
pub struct Builder {
    pub name: String,
    pub schedule: cron::Schedule,
}

/// Builds a named schedule from a cron expression known to parse.
pub fn new(name: &str, cron_expr: &str) -> (b: Builder)
    requires
        cron_parses(cron_expr@),
    ensures
        b.name@ == name@,
{
    match parse_schedule(cron_expr) {
        Some(schedule) => Builder { name: name.to_owned(), schedule },
        None => unreached(),
    }
}

/// Builds a named schedule from a cron expression, or nothing when the
/// expression does not parse.
pub fn try_new(name: &str, cron_expr: &str) -> (r: Option<Builder>)
    ensures
        r is Some <==> cron_parses(cron_expr@),
        r matches Some(b) ==> b.name@ == name@,
{
    match parse_schedule(cron_expr) {
        Some(_) => Some(new(name, cron_expr)),
        None => None,
    }
}

impl Builder {
    /// Attaches state for the task to carry.
    pub fn with_state<S: Clone>(self, state: S) -> (r: StatefulBuilder<S>)
        ensures
            r.name == self.name,
            r.schedule == self.schedule,
            r.state == state,
    {
        StatefulBuilder { name: self.name, schedule: self.schedule, state }
    }
}

/// A named task on a cron schedule, carrying state handed to each run.
pub struct StatefulBuilder<S: Clone> {
    pub name: String,
    pub schedule: cron::Schedule,
    pub state: S,
}

impl<S: Clone> StatefulBuilder<S> {
    /// The next run strictly after `now`, when the schedule has one.
    pub fn next_run(&self, now: i64) -> (r: Option<i64>)
        ensures
            r matches Some(t) ==> t > now,
    {
        schedule_next_after(&self.schedule, now)
    }
}

/// How long to wait from `now` for a run due at `next`.
pub fn delay_seconds(next: i64, now: i64) -> (d: u64)
    requires
        next >= now,
    ensures
        d == next - now,
{
    let d: i128 = next as i128 - now as i128;
    d as u64
}

} // verus!
