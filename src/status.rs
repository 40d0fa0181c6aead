use vstd::prelude::*;
use crate::pattern::PatternMatcher;

verus! {

/// The abstract state of the change record: either nothing is pending, or a
/// matching change to `path` was last seen at time `since` (milliseconds).
pub enum ChangeState {
    Idle,
    Pending { since: int, path: Seq<char> },
}

/// Recording a change: the state becomes pending at `now` with `path`, so a
/// later change within the debounce window pushes the deadline back.
pub open spec fn record(s: ChangeState, path: Seq<char>, now: int) -> ChangeState {
    ChangeState::Pending { since: now, path }
}

/// A pending change has settled once `debounce` milliseconds have passed
/// since it was last refreshed.
pub open spec fn is_settled(s: ChangeState, now: int, debounce: int) -> bool {
    match s {
        ChangeState::Idle => false,
        ChangeState::Pending { since, .. } => now - since >= debounce,
    }
}

/// Consuming the state: a settled change goes back to idle and hands out its
/// path; otherwise nothing changes and nothing is handed out.
pub open spec fn consume(s: ChangeState, now: int, debounce: int) -> (ChangeState, Option<Seq<char>>) {
    if is_settled(s, now, debounce) {
        (ChangeState::Idle, Some(s->path))
    } else {
        (s, None)
    }
}

/// Handing a filesystem change to the record: only a path that the pattern
/// accepts is recorded.
pub open spec fn observe(s: ChangeState, pattern: Seq<char>, path: Seq<char>, now: int) -> ChangeState {
    if crate::pattern::glob_matches(pattern, path) {
        record(s, path, now)
    } else {
        s
    }
}

/// Records the changes of `events`, each a path and a time, in order.
pub open spec fn record_all(s: ChangeState, events: Seq<(Seq<char>, int)>) -> ChangeState
    decreases events.len(),
{
    if events.len() == 0 {
        s
    } else {
        record(record_all(s, events.drop_last()), events.last().0, events.last().1)
    }
}

/// Hands the changes of `events` to the record, in order, through the pattern.
pub open spec fn observe_all(s: ChangeState, pattern: Seq<char>, events: Seq<(Seq<char>, int)>) -> ChangeState
    decreases events.len(),
{
    if events.len() == 0 {
        s
    } else {
        observe(observe_all(s, pattern, events.drop_last()), pattern, events.last().0, events.last().1)
    }
}

/// A burst of changes whose gaps are each shorter than the debounce interval
/// fires exactly once: a poll between two changes of the burst finds nothing
/// settled, the record then holds the last change, a poll before the interval
/// has passed after it finds nothing settled, a poll once it has passed hands
/// out the last path, and a further poll finds nothing.
pub proof fn lemma_burst_fires_once(events: Seq<(Seq<char>, int)>, debounce: int, i: int, t: int, t_fire: int, t_again: int)
    requires
        events.len() > 0,
        forall|k: int| 0 <= k < events.len() - 1 ==>
            (#[trigger] events[k]).1 <= events[k + 1].1 && events[k + 1].1 - events[k].1 < debounce,
        0 <= i < events.len() - 1,
        events[i].1 <= t < events[i + 1].1,
        t_fire >= events.last().1 + debounce,
    ensures
        !is_settled(record_all(ChangeState::Idle, events.take(i + 1)), t, debounce),
        record_all(ChangeState::Idle, events) == (ChangeState::Pending { since: events.last().1, path: events.last().0 }),
        forall|u: int| events.last().1 <= u < events.last().1 + debounce
            ==> !is_settled(#[trigger] record_all(ChangeState::Idle, events), u, debounce),
        consume(record_all(ChangeState::Idle, events), t_fire, debounce)
            == (ChangeState::Idle, Some(events.last().0)),
        consume(consume(record_all(ChangeState::Idle, events), t_fire, debounce).0, t_again, debounce)
            == (ChangeState::Idle, Option::<Seq<char>>::None),
{
    let prefix = events.take(i + 1);
    assert(prefix.last() == events[i]);
}

/// The deadline slides: after a change at `t1` and another at `t2`, less than
/// the debounce interval later, the record settles at `t2 + debounce`, not
/// at `t1 + debounce`.
pub proof fn lemma_debounce_resets(s: ChangeState, p1: Seq<char>, t1: int, p2: Seq<char>, t2: int, debounce: int, t: int)
    requires
        t1 <= t2 < t1 + debounce,
    ensures
        is_settled(record(record(s, p1, t1), p2, t2), t, debounce) <==> t >= t2 + debounce,
{
}

/// Consuming a settled change twice, with no change in between, hands out
/// the path the first time and nothing the second time.
pub proof fn lemma_consume_once(s: ChangeState, now: int, later: int, debounce: int)
    requires
        is_settled(s, now, debounce),
    ensures
        consume(s, now, debounce).1 == Some(s->path),
        consume(consume(s, now, debounce).0, later, debounce).1 is None,
{
}

/// Changes to paths that the pattern does not accept leave an idle record
/// idle.
pub proof fn lemma_unmatched_stay_idle(pattern: Seq<char>, events: Seq<(Seq<char>, int)>)
    requires
        forall|k: int| 0 <= k < events.len() ==> !crate::pattern::glob_matches(pattern, #[trigger] events[k].0),
    ensures
        observe_all(ChangeState::Idle, pattern, events) == ChangeState::Idle,
    decreases events.len(),
{
    if events.len() > 0 {
        let rest = events.drop_last();
        assert forall|k: int| 0 <= k < rest.len() implies !crate::pattern::glob_matches(pattern, #[trigger] rest[k].0) by {
            assert(rest[k] == events[k]);
        }
        lemma_unmatched_stay_idle(pattern, rest);
        assert(!crate::pattern::glob_matches(pattern, events[events.len() - 1].0));
    }
}

/// The changes to each of `paths`, all at time `now`.
pub open spec fn changes_at(paths: Seq<String>, now: int) -> Seq<(Seq<char>, int)> {
    paths.map_values(|p: String| (p@, now))
}

/// The path inside an optional string.
pub open spec fn path_of(r: Option<String>) -> Option<Seq<char>> {
    match r {
        Some(p) => Some(p@),
        None => None,
    }
}

/// The shared record of the most recent matching change. It is changed only
/// through recording and consuming.
pub struct ChangeStatus {
    changed: bool,
    last_time: u128,
    last_file: String,
}

impl View for ChangeStatus {
    type V = ChangeState;

    closed spec fn view(&self) -> ChangeState {
        if self.changed {
            ChangeState::Pending { since: self.last_time as int, path: self.last_file@ }
        } else {
            ChangeState::Idle
        }
    }
}

/// The time of a pending change, and zero when nothing is pending.
pub open spec fn since_of(s: ChangeState) -> int {
    match s {
        ChangeState::Idle => 0,
        ChangeState::Pending { since, .. } => since,
    }
}

impl ChangeStatus {
    /// When nothing is pending the time is reset to zero.
    #[verifier::type_invariant]
    spec fn inv(&self) -> bool {
        !self.changed ==> self.last_time == 0
    }

    /// The path of the most recent change, kept for logging after it was
    /// consumed.
    pub closed spec fn last_file_view(&self) -> Seq<char> {
        self.last_file@
    }

    /// A record with nothing pending.
    pub fn new() -> (r: ChangeStatus)
        ensures
            r@ == ChangeState::Idle,
            r.last_file_view() == Seq::<char>::empty(),
    {
        ChangeStatus { changed: false, last_time: 0, last_file: String::new() }
    }

    /// Whether a change is pending.
    pub fn changed(&self) -> (r: bool)
        ensures
            r == self@ is Pending,
    {
        self.changed
    }

    /// The time of the pending change, zero when nothing is pending.
    pub fn last_time(&self) -> (r: u128)
        ensures
            r as int == since_of(self@),
    {
        proof {
            use_type_invariant(self);
        }
        self.last_time
    }

    /// The path of the most recent change.
    pub fn last_file(&self) -> (r: &String)
        ensures
            r@ == self.last_file_view(),
            self@ is Pending ==> r@ == self@->path,
    {
        &self.last_file
    }

    /// Records a matching change to `path` at time `now`.
    pub fn record_change(&mut self, path: String, now: u128)
        ensures
            final(self)@ == record(old(self)@, path@, now as int),
            final(self).last_file_view() == path@,
    {
        self.changed = true;
        self.last_time = now;
        self.last_file = path;
    }

    /// Hands a change to `path` at time `now` to the record, which keeps it
    /// only when `matcher` accepts the path.
    pub fn observe_change(&mut self, matcher: &PatternMatcher, path: &str, now: u128) -> (r: bool)
        ensures
            r == matcher.accepts(path@),
            final(self)@ == observe(old(self)@, matcher.pattern_view(), path@, now as int),
            !r ==> *final(self) == *old(self),
            r ==> final(self).last_file_view() == path@,
    {
        if matcher.matches(path) {
            self.record_change(path.to_string(), now);
            true
        } else {
            false
        }
    }

    /// Hands the changes of one notification, all at time `now`, to the
    /// record in order; each is kept only when `matcher` accepts its path.
    pub fn observe_changes(&mut self, matcher: &PatternMatcher, paths: &Vec<String>, now: u128)
        ensures
            final(self)@ == observe_all(old(self)@, matcher.pattern_view(), changes_at(paths@, now as int)),
    {
        let ghost start = self@;
        let mut i: usize = 0;
        while i < paths.len()
            invariant
                i <= paths.len(),
                self@ == observe_all(start, matcher.pattern_view(), changes_at(paths@, now as int).take(i as int)),
            decreases paths.len() - i,
        {
            proof {
                let evs = changes_at(paths@, now as int);
                assert(evs.take(i + 1).drop_last() == evs.take(i as int));
            }
            self.observe_change(matcher, paths[i].as_str(), now);
            i = i + 1;
        }
        proof {
            let evs = changes_at(paths@, now as int);
            assert(evs.take(paths.len() as int) == evs);
        }
    }

    /// Takes the pending change if it has settled by `now`, that is if no
    /// newer change came in the last `debounce` milliseconds, and returns its
    /// path; otherwise leaves the record as it is and returns nothing.
    pub fn try_consume(&mut self, now: u128, debounce: u128) -> (r: Option<String>)
        ensures
            (final(self)@, path_of(r)) == consume(old(self)@, now as int, debounce as int),
            r is None ==> *final(self) == *old(self),
            final(self).last_file_view() == old(self).last_file_view(),
    {
        if !self.changed {
            return None;
        }
        if now < self.last_time || now - self.last_time < debounce {
            return None;
        }
        self.last_time = 0;
        self.changed = false;
        Some(self.last_file.clone())
    }
}

} // verus!
