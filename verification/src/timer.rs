//! The scheduler: it decides when the next toast is due and which title and
//! content it shows. It is polled by its host and never waits by itself.
//!
//! Times are milliseconds on the service's own monotonic clock. Every
//! operation that reads the clock has a twin that takes the reading as an
//! argument; the twin's contract is exact.

use crate::config::{Config, ContentSwitchMode};
use rand::Rng;
use std::time::Duration;
use std::time::Instant;
use vstd::prelude::*;

verus! {

/// `std::time::Instant`, a reading of the monotonic clock. Nothing is known
/// of what it holds.
#[verifier::external_type_specification]
#[verifier::external_body]
pub struct ExInstant(Instant);

/// `Instant::now` reads the monotonic clock; nothing is claimed of the
/// reading.
pub assume_specification[ Instant::now ]() -> (r: Instant)
;

/// `Instant::elapsed` gives the time that went by since the reading was
/// taken; nothing is claimed of its length.
pub assume_specification[ Instant::elapsed ](start: &Instant) -> (r: Duration)
;

/// `Duration::as_millis` gives the whole milliseconds of a duration; nothing
/// is claimed of the number.
pub assume_specification[ Duration::as_millis ](duration: &Duration) -> (r: u128)
;

/// The largest clock reading the scheduler works with. Later readings count
/// as this one, so that adding an interval to a reading stays in 64 bits.
pub const MAX_TIMESTAMP_MILLIS: u64 = 0x3FFF_FFFF_FFFF_FFFF;

pub const MILLIS_PER_MINUTE: u64 = 60_000;

/// The longest interval a configuration can ask for, in milliseconds.
pub const MAX_INTERVAL_MILLIS: u64 = 0xFFFF_FFFF * 60_000;

pub open spec fn max_of(a: nat, b: nat) -> nat {
    if a >= b {
        a
    } else {
        b
    }
}

/// What a scheduler is, as plain numbers.
pub struct TimerView {
    /// Milliseconds from one toast to the next.
    pub interval: nat,
    pub running: bool,
    /// The rotation cursor of the sequential mode.
    pub cursor: nat,
    pub mode: ContentSwitchMode,
    pub last_fire: Option<nat>,
    pub next_fire: Option<nat>,
}

impl TimerView {
    /// While the scheduler runs, the next toast is due one interval after
    /// the last one; while it is stopped it remembers no time at all.
    pub open spec fn wf(self) -> bool {
        &&& self.interval <= MAX_INTERVAL_MILLIS
        &&& self.cursor < usize::MAX
        &&& self.running ==> {
            &&& self.last_fire matches Some(last)
            &&& last <= MAX_TIMESTAMP_MILLIS
            &&& self.next_fire == Some(last + self.interval)
        }
        &&& !self.running ==> self.last_fire is None && self.next_fire is None
    }

    pub open spec fn armed_at(self, now: nat) -> TimerView {
        TimerView { last_fire: Some(now), next_fire: Some(now + self.interval), ..self }
    }

    pub open spec fn started_at(self, now: nat) -> TimerView {
        TimerView { running: true, ..self.armed_at(now) }
    }

    pub open spec fn stopped(self) -> TimerView {
        TimerView { running: false, last_fire: None, next_fire: None, ..self }
    }

    /// Whether a toast is due at `now`.
    pub open spec fn due_at(self, now: nat) -> bool {
        self.running && (self.next_fire matches Some(next) && now >= next)
    }

    /// The scheduler after it was asked at `now` whether a toast is due: a
    /// due toast re-arms it, anything else leaves it as it was.
    pub open spec fn polled_at(self, now: nat) -> TimerView {
        if self.due_at(now) {
            self.armed_at(now)
        } else {
            self
        }
    }

    /// The time left at `now` until the next toast; zero once it is due.
    pub open spec fn remaining_at(self, now: nat) -> Option<nat> {
        if !self.running {
            None
        } else {
            match self.next_fire {
                Some(next) => Some(
                    if next > now {
                        (next - now) as nat
                    } else {
                        0
                    },
                ),
                None => None,
            }
        }
    }

    pub open spec fn reset_at(self, now: nat) -> TimerView {
        if self.running {
            self.armed_at(now)
        } else {
            self
        }
    }

    /// The scheduler after it took a new interval and mode. A changed
    /// interval moves the next toast of a running scheduler to one new
    /// interval after the last toast; the last toast's time stays.
    pub open spec fn reconfigured(self, interval: nat, mode: ContentSwitchMode) -> TimerView {
        TimerView {
            interval,
            mode,
            next_fire: if self.interval != interval && self.running {
                match self.last_fire {
                    Some(last) => Some(last + interval),
                    None => self.next_fire,
                }
            } else {
                self.next_fire
            },
            ..self
        }
    }

    /// The scheduler after one sequential pick from `titles` titles and
    /// `contents` contents.
    pub open spec fn advanced(self, titles: nat, contents: nat) -> TimerView {
        TimerView {
            cursor: ((self.cursor + 1) as int % (max_of(titles, contents) as int)) as nat,
            ..self
        }
    }

    /// The scheduler after it was polled at each of `times` in turn.
    pub open spec fn after_polls(self, times: Seq<nat>) -> TimerView
        decreases times.len(),
    {
        if times.len() == 0 {
            self
        } else {
            self.polled_at(times[0]).after_polls(times.drop_first())
        }
    }

    /// How many of the polls at `times`, made in turn, found a toast due.
    pub open spec fn fire_count(self, times: Seq<nat>) -> nat
        decreases times.len(),
    {
        if times.len() == 0 {
            0
        } else {
            let rest = self.polled_at(times[0]).fire_count(times.drop_first());
            if self.due_at(times[0]) {
                rest + 1
            } else {
                rest
            }
        }
    }
}

/// Each of `times` lies at least `interval` after the one before it, the
/// first of them at least `interval` after `start`.
pub open spec fn spaced_by(start: nat, interval: nat, times: Seq<nat>) -> bool {
    &&& times.len() > 0 ==> times[0] >= start + interval
    &&& forall|k: int| 0 <= k < times.len() - 1 ==> times[k + 1] >= #[trigger] times[k] + interval
}

/// The title and content that stand in for an empty list.
pub open spec fn fallback_title() -> Seq<char> {
    "Default Title"@
}

pub open spec fn fallback_content() -> Seq<char> {
    "Default Content"@
}

/// Whether `title` and `content` are what a scheduler in the state `before`
/// picks from `titles` and `contents`, and `after` the state it is left in.
///
/// With an empty list of titles or of contents the fallback pair is picked
/// and nothing changes. In sequential mode the cursor picks both, each
/// modulo its list's length, and then moves on by one, wrapping at the longer
/// list's length. In random mode each is some member of its own list, and
/// the cursor stays.
pub open spec fn is_next_content(
    before: TimerView,
    after: TimerView,
    titles: Seq<String>,
    contents: Seq<String>,
    title: Seq<char>,
    content: Seq<char>,
) -> bool {
    if titles.len() == 0 || contents.len() == 0 {
        &&& title == fallback_title()
        &&& content == fallback_content()
        &&& after == before
    } else if before.mode == ContentSwitchMode::Sequential {
        &&& title == titles[(before.cursor % titles.len()) as int]@
        &&& content == contents[(before.cursor % contents.len()) as int]@
        &&& after == before.advanced(titles.len(), contents.len())
    } else {
        &&& exists|i: int| 0 <= i < titles.len() && title == (#[trigger] titles[i])@
        &&& exists|j: int| 0 <= j < contents.len() && content == (#[trigger] contents[j])@
        &&& after == before
    }
}

pub struct TimerService {
    interval: u64,
    is_running: bool,
    content_index: usize,
    switch_mode: ContentSwitchMode,
    last_toast_time: Option<u64>,
    next_toast_time: Option<u64>,
    origin: Instant,
}

pub open spec fn as_nat(t: Option<u64>) -> Option<nat> {
    match t {
        Some(t) => Some(t as nat),
        None => None,
    }
}

impl View for TimerService {
    type V = TimerView;

    closed spec fn view(&self) -> TimerView {
        TimerView {
            interval: self.interval as nat,
            running: self.is_running,
            cursor: self.content_index as nat,
            mode: self.switch_mode,
            last_fire: as_nat(self.last_toast_time),
            next_fire: as_nat(self.next_toast_time),
        }
    }
}

/// An index below `len`, drawn with `rand::thread_rng().gen_range(0..len)`.
/// `Rng::gen_range` gives a value of the range; which one is left open. An
/// empty range is kept out, since `gen_range` panics on it.
#[verifier::external_body]
fn random_index(len: usize) -> (i: usize)
    requires
        len > 0,
    ensures
        i < len,
{
    rand::thread_rng().gen_range(0..len)
}

/// What the configuration's interval, given in minutes, is in milliseconds.
pub open spec fn interval_millis_of(config: Config) -> nat {
    (config.toaster.interval_time as nat) * (MILLIS_PER_MINUTE as nat)
}

fn interval_from(config: &Config) -> (r: u64)
    ensures
        r == interval_millis_of(*config),
        r <= MAX_INTERVAL_MILLIS,
{
    let minutes: u64 = config.toaster.interval_time as u64;
    minutes * MILLIS_PER_MINUTE
}

fn clamp_timestamp(raw: u128) -> (t: u64)
    ensures
        t <= MAX_TIMESTAMP_MILLIS,
        raw <= MAX_TIMESTAMP_MILLIS ==> t == raw,
        raw > MAX_TIMESTAMP_MILLIS ==> t == MAX_TIMESTAMP_MILLIS,
{
    if raw > MAX_TIMESTAMP_MILLIS as u128 {
        MAX_TIMESTAMP_MILLIS
    } else {
        raw as u64
    }
}

impl TimerService {
    pub open spec fn wf(&self) -> bool {
        self@.wf()
    }

    /// A stopped scheduler with the configuration's interval and mode.
    pub fn new(config: &Config) -> (r: Self)
        ensures
            r.wf(),
            r@ == (TimerView {
                interval: interval_millis_of(*config),
                running: false,
                cursor: 0,
                mode: config.toaster.content_switch_mode,
                last_fire: None,
                next_fire: None,
            }),
    {
        TimerService {
            interval: interval_from(config),
            is_running: false,
            content_index: 0,
            switch_mode: config.toaster.content_switch_mode,
            last_toast_time: None,
            next_toast_time: None,
            origin: Instant::now(),
        }
    }

    /// The milliseconds that went by on the scheduler's clock since it was
    /// made, at most `MAX_TIMESTAMP_MILLIS`.
    pub fn now(&self) -> (t: u64)
        ensures
            t <= MAX_TIMESTAMP_MILLIS,
    {
        let elapsed = self.origin.elapsed();
        clamp_timestamp(elapsed.as_millis())
    }

    pub fn is_running(&self) -> (r: bool)
        ensures
            r == self@.running,
    {
        self.is_running
    }

    pub fn interval_millis(&self) -> (r: u64)
        ensures
            r == self@.interval,
    {
        self.interval
    }

    pub fn content_index(&self) -> (r: usize)
        ensures
            r == self@.cursor,
    {
        self.content_index
    }

    pub fn switch_mode(&self) -> (r: ContentSwitchMode)
        ensures
            r == self@.mode,
    {
        self.switch_mode
    }

    pub fn last_toast_time(&self) -> (r: Option<u64>)
        ensures
            as_nat(r) == self@.last_fire,
    {
        self.last_toast_time
    }

    pub fn next_toast_time(&self) -> (r: Option<u64>)
        ensures
            as_nat(r) == self@.next_fire,
    {
        self.next_toast_time
    }

    /// Starts the scheduler at the clock reading `now`: the first toast is
    /// due one interval later.
    pub fn start_at(&mut self, now: u64)
        requires
            old(self).wf(),
            now <= MAX_TIMESTAMP_MILLIS,
        ensures
            final(self).wf(),
            final(self)@ == old(self)@.started_at(now as nat),
    {
        self.is_running = true;
        self.last_toast_time = Some(now);
        self.next_toast_time = Some(now + self.interval);
    }

    /// Starts the scheduler at the present reading of its clock.
    pub fn start(&mut self)
        requires
            old(self).wf(),
        ensures
            final(self).wf(),
            exists|now: nat|
                now <= MAX_TIMESTAMP_MILLIS && final(self)@ == #[trigger] old(self)@.started_at(
                    now,
                ),
    {
        let now = self.now();
        self.start_at(now);
    }

    /// Stops the scheduler; it forgets both times.
    pub fn stop(&mut self)
        requires
            old(self).wf(),
        ensures
            final(self).wf(),
            final(self)@ == old(self)@.stopped(),
    {
        self.is_running = false;
        self.last_toast_time = None;
        self.next_toast_time = None;
    }

    /// The milliseconds left at `now` until the next toast: `None` while the
    /// scheduler is stopped, zero once the toast is due.
    pub fn get_time_until_next_toast_at(&self, now: u64) -> (r: Option<u64>)
        requires
            self.wf(),
        ensures
            as_nat(r) == self@.remaining_at(now as nat),
    {
        if !self.is_running {
            return None;
        }
        match self.next_toast_time {
            Some(next_time) => {
                if next_time > now {
                    Some(next_time - now)
                } else {
                    Some(0)
                }
            },
            None => None,
        }
    }

    /// The milliseconds left until the next toast, by the scheduler's clock.
    pub fn get_time_until_next_toast(&self) -> (r: Option<u64>)
        requires
            self.wf(),
        ensures
            r is Some <==> self@.running,
            exists|now: nat|
                now <= MAX_TIMESTAMP_MILLIS && as_nat(r) == #[trigger] self@.remaining_at(now),
    {
        let now = self.now();
        self.get_time_until_next_toast_at(now)
    }

    /// Asks at the clock reading `now` whether a toast is due, and re-arms
    /// the scheduler if one is: the next toast is then due one interval
    /// after `now`. Between two due times every call answers `false` and
    /// changes nothing.
    pub fn should_send_toast_at(&mut self, now: u64) -> (fire: bool)
        requires
            old(self).wf(),
            now <= MAX_TIMESTAMP_MILLIS,
        ensures
            final(self).wf(),
            fire == old(self)@.due_at(now as nat),
            final(self)@ == old(self)@.polled_at(now as nat),
            fire ==> final(self)@.last_fire == Some(now as nat) && final(self)@.next_fire == Some(
                (now + final(self)@.interval) as nat,
            ),
    {
        if !self.is_running {
            return false;
        }
        match self.next_toast_time {
            Some(next_time) => {
                if now >= next_time {
                    self.last_toast_time = Some(now);
                    self.next_toast_time = Some(now + self.interval);
                    return true;
                }
            },
            None => {},
        }
        false
    }

    /// Asks whether a toast is due by the scheduler's clock, and re-arms the
    /// scheduler if one is.
    pub fn should_send_toast(&mut self) -> (fire: bool)
        requires
            old(self).wf(),
        ensures
            final(self).wf(),
            !fire ==> final(self)@ == old(self)@,
            exists|now: nat|
                now <= MAX_TIMESTAMP_MILLIS && fire == #[trigger] old(self)@.due_at(now)
                    && final(self)@ == old(self)@.polled_at(now),
    {
        let now = self.now();
        let fire = self.should_send_toast_at(now);
        assert(fire == old(self)@.due_at(now as nat) && self@ == old(self)@.polled_at(
            now as nat,
        ));
        fire
    }

    /// Re-arms a running scheduler at the clock reading `now`; a stopped
    /// one stays as it is.
    pub fn _reset_timer_at(&mut self, now: u64)
        requires
            old(self).wf(),
            now <= MAX_TIMESTAMP_MILLIS,
        ensures
            final(self).wf(),
            final(self)@ == old(self)@.reset_at(now as nat),
    {
        if self.is_running {
            self.last_toast_time = Some(now);
            self.next_toast_time = Some(now + self.interval);
        }
    }

    /// Re-arms a running scheduler at the present reading of its clock.
    pub fn _reset_timer(&mut self)
        requires
            old(self).wf(),
        ensures
            final(self).wf(),
            exists|now: nat|
                now <= MAX_TIMESTAMP_MILLIS && final(self)@ == #[trigger] old(self)@.reset_at(now),
    {
        let now = self.now();
        self._reset_timer_at(now);
    }

    /// Takes the interval and mode of `config`. A changed interval moves the
    /// next toast of a running scheduler; the time of the last toast stays.
    pub fn update_config(&mut self, config: &Config)
        requires
            old(self).wf(),
        ensures
            final(self).wf(),
            final(self)@ == old(self)@.reconfigured(
                interval_millis_of(*config),
                config.toaster.content_switch_mode,
            ),
    {
        let new_interval = interval_from(config);
        if self.interval != new_interval && self.is_running {
            match self.last_toast_time {
                Some(last_time) => {
                    self.next_toast_time = Some(last_time + new_interval);
                },
                None => {},
            }
        }
        self.interval = new_interval;
        self.switch_mode = config.toaster.content_switch_mode;
    }

    /// The title and content at the given places.
    pub fn content_at(
        titles: &[String],
        contents: &[String],
        title_index: usize,
        content_index: usize,
    ) -> (r: (String, String))
        requires
            title_index < titles@.len(),
            content_index < contents@.len(),
        ensures
            r.0@ == titles@[title_index as int]@,
            r.1@ == contents@[content_index as int]@,
    {
        (titles[title_index].clone(), contents[content_index].clone())
    }

    /// Picks the title and content of the next toast: the fallback pair
    /// where a list is empty, the pair under the cursor in sequential mode,
    /// and in random mode a title and a content that `rand` draws, each from
    /// its own list and independently of the other.
    pub fn get_next_content(&mut self, titles: &[String], contents: &[String]) -> (r: (
        String,
        String,
    ))
        requires
            old(self).wf(),
        ensures
            final(self).wf(),
            is_next_content(old(self)@, final(self)@, titles@, contents@, r.0@, r.1@),
    {
        if titles.len() == 0 || contents.len() == 0 {
            return ("Default Title".to_owned(), "Default Content".to_owned());
        }
        match self.switch_mode {
            ContentSwitchMode::Random => {
                let title_index = random_index(titles.len());
                let content_index = random_index(contents.len());
                Self::content_at(titles, contents, title_index, content_index)
            },
            ContentSwitchMode::Sequential => {
                let r = Self::content_at(
                    titles,
                    contents,
                    self.content_index % titles.len(),
                    self.content_index % contents.len(),
                );
                let longer = if titles.len() >= contents.len() {
                    titles.len()
                } else {
                    contents.len()
                };
                self.content_index = (self.content_index + 1) % longer;
                r
            },
        }
    }
}

/// A running scheduler whose next toast is due one interval after its last
/// one fires at every poll of a series in which each poll comes at least one
/// interval after the poll before it.
proof fn lemma_armed_fires_at_each(v: TimerView, last: nat, times: Seq<nat>)
    requires
        v.running,
        v.last_fire == Some(last),
        v.next_fire == Some(last + v.interval),
        spaced_by(last, v.interval, times),
    ensures
        v.fire_count(times) == times.len(),
        forall|k: int|
            0 <= k < times.len() ==> {
                let s = #[trigger] v.after_polls(times.take(k + 1));
                &&& s.running
                &&& s.interval == v.interval
                &&& s.last_fire == Some(times[k])
                &&& s.next_fire == Some(times[k] + v.interval)
            },
    decreases times.len(),
{
    if times.len() > 0 {
        let first = times[0];
        let rest = times.drop_first();
        let next = v.polled_at(first);
        assert forall|k: int| 0 <= k < rest.len() - 1 implies rest[k + 1] >= #[trigger] rest[k]
            + next.interval by {}
        lemma_armed_fires_at_each(next, first, rest);
        assert forall|k: int| 0 <= k < times.len() implies {
            let s = #[trigger] v.after_polls(times.take(k + 1));
            &&& s.running
            &&& s.interval == v.interval
            &&& s.last_fire == Some(times[k])
            &&& s.next_fire == Some(times[k] + v.interval)
        } by {
            let prefix = times.take(k + 1);
            assert(prefix.drop_first() =~= rest.take(k));
            assert(v.after_polls(prefix) == next.after_polls(rest.take(k)));
            if k > 0 {
                assert(rest[k - 1] == times[k]);
            }
        }
    }
}

/// After the scheduler starts, a series of polls in which each comes at
/// least one interval after the poll before it (the first at least one
/// interval after the start) fires exactly once per poll, and after each
/// fire the next toast is due one interval after the time of that fire.
pub proof fn lemma_one_fire_per_interval(v: TimerView, start: nat, times: Seq<nat>)
    requires
        spaced_by(start, v.interval, times),
    ensures
        v.started_at(start).fire_count(times) == times.len(),
        forall|k: int|
            0 <= k < times.len() ==> {
                let s = #[trigger] v.started_at(start).after_polls(times.take(k + 1));
                &&& s.last_fire == Some(times[k])
                &&& s.next_fire == Some(times[k] + v.interval)
            },
{
    lemma_armed_fires_at_each(v.started_at(start), start, times);
}

/// Between two due times a poll changes nothing: a poll that comes before
/// the next toast is due answers `false` and leaves the scheduler as it was.
pub proof fn lemma_poll_before_due_is_idle(v: TimerView, now: nat)
    requires
        v.wf(),
        v.running ==> (v.next_fire matches Some(next) && now < next),
    ensures
        !v.due_at(now),
        v.polled_at(now) == v,
{
}

/// Whenever a well-formed scheduler runs, its next toast is due exactly one
/// interval after its last one; a fire and a change of configuration keep
/// it so, and a changed interval leaves the time of the last toast alone.
pub proof fn lemma_next_is_last_plus_interval(
    v: TimerView,
    now: nat,
    interval: nat,
    mode: ContentSwitchMode,
)
    requires
        v.wf(),
        now <= MAX_TIMESTAMP_MILLIS,
        interval <= MAX_INTERVAL_MILLIS,
    ensures
        v.started_at(now).wf(),
        v.polled_at(now).wf(),
        v.reconfigured(interval, mode).wf(),
        v.reconfigured(interval, mode).last_fire == v.last_fire,
        v.running ==> v.reconfigured(interval, mode).next_fire == Some(
            (v.last_fire->0 + interval) as nat,
        ),
        v.stopped().wf(),
{
}

} // verus!
