use vstd::prelude::*;
use crate::status::{
    consume, is_settled, lemma_burst_fires_once, path_of, record, record_all, ChangeState, ChangeStatus,
};

verus! {

/// How long the record must stay quiet before a change counts as settled.
pub const DEFAULT_DEBOUNCE_MS: u128 = 1000;

/// How long the loop sleeps between two polls.
pub const POLL_INTERVAL_MS: u64 = 1000;

/// What the loop is to do after a decision.
pub enum Action {
    /// Nothing to run; sleep until the next poll.
    Wait,
    /// Run the command, after printing `log` when there is one, then report
    /// back through `Scheduler::finish`.
    Run { log: Option<String> },
}

/// The decisions of the polling loop. It runs at most one command at a
/// time: while one runs, every poll waits.
pub struct Scheduler {
    debounce: u128,
    quiet: bool,
    running: bool,
}

/// The abstract outcome of a poll from the state `(running, s)`: whether a
/// command is running afterwards, the record afterwards, and the path of the
/// change that starts a run, if one starts.
pub open spec fn poll_model(running: bool, s: ChangeState, now: int, debounce: int) -> (bool, ChangeState, Option<Seq<char>>) {
    if running {
        (true, s, None)
    } else {
        let (next, fired) = consume(s, now, debounce);
        (fired is Some, next, fired)
    }
}

/// A change that arrives while a command runs is neither lost nor run at
/// once: every poll during the run leaves it recorded and starts nothing,
/// and once the run has finished a poll starts the next run exactly when the
/// debounce interval has passed since that change.
pub proof fn lemma_no_overlap(s: ChangeState, path: Seq<char>, t_change: int, t_busy: int, t_after: int, debounce: int)
    ensures
        poll_model(true, record(s, path, t_change), t_busy, debounce)
            == (true, record(s, path, t_change), Option::<Seq<char>>::None),
        poll_model(false, record(s, path, t_change), t_after, debounce).2 is Some
            <==> t_after - t_change >= debounce,
        t_after - t_change >= debounce ==>
            poll_model(false, record(s, path, t_change), t_after, debounce)
                == (true, ChangeState::Idle, Some(path)),
{
}

/// A burst of changes whose gaps are each shorter than the debounce interval
/// starts exactly one run: with no command running, a poll between two
/// changes of the burst, or after the last one but before the interval has
/// passed, starts nothing; the first poll once it has passed starts a run for
/// the last path; once that run has finished, later polls start nothing.
pub proof fn lemma_burst_runs_once(events: Seq<(Seq<char>, int)>, debounce: int, i: int, t: int, u: int, p: int, later: int)
    requires
        events.len() > 0,
        forall|k: int| 0 <= k < events.len() - 1 ==>
            (#[trigger] events[k]).1 <= events[k + 1].1 && events[k + 1].1 - events[k].1 < debounce,
        0 <= i < events.len() - 1,
        events[i].1 <= t < events[i + 1].1,
        events.last().1 <= u < events.last().1 + debounce,
        p >= events.last().1 + debounce,
    ensures
        poll_model(false, record_all(ChangeState::Idle, events.take(i + 1)), t, debounce)
            == (false, record_all(ChangeState::Idle, events.take(i + 1)), Option::<Seq<char>>::None),
        poll_model(false, record_all(ChangeState::Idle, events), u, debounce)
            == (false, record_all(ChangeState::Idle, events), Option::<Seq<char>>::None),
        poll_model(false, record_all(ChangeState::Idle, events), p, debounce)
            == (true, ChangeState::Idle, Some(events.last().0)),
        poll_model(false, ChangeState::Idle, later, debounce)
            == (false, ChangeState::Idle, Option::<Seq<char>>::None),
{
    lemma_burst_fires_once(events, debounce, i, t, p, later);
    assert(!is_settled(record_all(ChangeState::Idle, events), u, debounce));
}

impl Scheduler {
    /// The debounce interval in milliseconds.
    pub closed spec fn debounce_view(&self) -> int {
        self.debounce as int
    }

    /// Whether change logs are suppressed.
    pub closed spec fn quiet_view(&self) -> bool {
        self.quiet
    }

    /// Whether a command is running.
    pub closed spec fn running_view(&self) -> bool {
        self.running
    }

    /// A scheduler with no command running.
    pub fn new(debounce: u128, quiet: bool) -> (r: Scheduler)
        ensures
            r.debounce_view() == debounce as int,
            r.quiet_view() == quiet,
            !r.running_view(),
    {
        Scheduler { debounce, quiet, running: false }
    }

    /// The decision at startup: with `immediate`, run the command once
    /// before any change, without a log line.
    pub fn start(&mut self, immediate: bool) -> (r: Action)
        ensures
            final(self).debounce_view() == old(self).debounce_view(),
            final(self).quiet_view() == old(self).quiet_view(),
            (r matches Action::Run { log }) <==> (immediate && !old(self).running_view()),
            r matches Action::Run { log } ==> log is None,
            final(self).running_view() == (old(self).running_view() || r is Run),
    {
        if immediate && !self.running {
            self.running = true;
            Action::Run { log: None }
        } else {
            Action::Wait
        }
    }

    /// The decision at a poll at time `now`: take the settled change from
    /// `status`, if there is one and no command is running, and run the
    /// command for it.
    pub fn poll(&mut self, status: &mut ChangeStatus, now: u128) -> (r: Action)
        ensures
            final(self).debounce_view() == old(self).debounce_view(),
            final(self).quiet_view() == old(self).quiet_view(),
            (final(self).running_view(), final(status)@, match r {
                Action::Run { .. } => Some(old(status)@->path),
                Action::Wait => None,
            }) == poll_model(old(self).running_view(), old(status)@, now as int, old(self).debounce_view()),
            r matches Action::Run { log } ==> path_of(log) == (if old(self).quiet_view() {
                None
            } else {
                Some(old(status)@->path)
            }),
            r is Wait ==> *final(status) == *old(status),
    {
        if self.running {
            return Action::Wait;
        }
        match status.try_consume(now, self.debounce) {
            Some(path) => {
                self.running = true;
                if self.quiet {
                    Action::Run { log: None }
                } else {
                    Action::Run { log: Some(path) }
                }
            },
            None => Action::Wait,
        }
    }

    /// Reports that the running command has exited.
    pub fn finish(&mut self)
        ensures
            final(self).debounce_view() == old(self).debounce_view(),
            final(self).quiet_view() == old(self).quiet_view(),
            !final(self).running_view(),
    {
        self.running = false;
    }

    /// Whether a command is running.
    pub fn is_running(&self) -> (r: bool)
        ensures
            r == self.running_view(),
    {
        self.running
    }
}

} // verus!
