//! Usage events: what the daily statistics take from them, and the events that
//! are kept at hand.

use vstd::prelude::*;

use std::collections::VecDeque;

use crate::time::Timestamp;
#[allow(unused_imports)]
use crate::time::utc_date_text;

verus! {

/// The use of a model by one request.
#[derive(Clone, Debug)]
pub struct UsageEvent {
    pub timestamp: Timestamp,
    pub model: String,
    pub prompt_tokens: u64,
    pub completion_tokens: u64,
    pub total_tokens: u64,
    /// The cost in US dollars, as the bits of a 64-bit floating-point number.
    pub cost_usd_bits: u64,
}

/// What a [`UsageEvent`] holds.
#[verifier::ext_equal]
pub struct UsageEventView {
    pub timestamp: Timestamp,
    pub model: Seq<char>,
    pub prompt_tokens: u64,
    pub completion_tokens: u64,
    pub total_tokens: u64,
    pub cost_usd_bits: u64,
}

impl View for UsageEvent {
    type V = UsageEventView;

    open spec fn view(&self) -> UsageEventView {
        UsageEventView {
            timestamp: self.timestamp,
            model: self.model@,
            prompt_tokens: self.prompt_tokens,
            completion_tokens: self.completion_tokens,
            total_tokens: self.total_tokens,
            cost_usd_bits: self.cost_usd_bits,
        }
    }
}

/// What is added to the statistics of a day and a model.
#[derive(Debug)]
pub struct DailyStat {
    pub date: String,
    pub model: String,
    pub prompt_tokens: i64,
    pub completion_tokens: i64,
    pub total_tokens: i64,
    /// The cost in US dollars, as the bits of a 64-bit floating-point number.
    pub cost_usd_bits: u64,
}

/// What a [`DailyStat`] holds.
#[verifier::ext_equal]
pub struct DailyStatView {
    pub date: Seq<char>,
    pub model: Seq<char>,
    pub prompt_tokens: i64,
    pub completion_tokens: i64,
    pub total_tokens: i64,
    pub cost_usd_bits: u64,
}

impl View for DailyStat {
    type V = DailyStatView;

    open spec fn view(&self) -> DailyStatView {
        DailyStatView {
            date: self.date@,
            model: self.model@,
            prompt_tokens: self.prompt_tokens,
            completion_tokens: self.completion_tokens,
            total_tokens: self.total_tokens,
            cost_usd_bits: self.cost_usd_bits,
        }
    }
}

/// `n`, or the largest signed number where `n` is larger.
pub open spec fn clamped(n: u64) -> i64 {
    if n <= i64::MAX {
        n as i64
    } else {
        i64::MAX
    }
}

/// What an event adds to the statistics of the day `date`.
pub open spec fn stat_on(event: UsageEventView, date: Seq<char>) -> DailyStatView {
    DailyStatView {
        date,
        model: event.model,
        prompt_tokens: clamped(event.prompt_tokens),
        completion_tokens: clamped(event.completion_tokens),
        total_tokens: clamped(event.total_tokens),
        cost_usd_bits: event.cost_usd_bits,
    }
}

/// What an event adds to the statistics of its day.
pub open spec fn daily_stat_of(event: UsageEventView) -> DailyStatView {
    let secs = event.timestamp.seconds();
    stat_on(event, utc_date_text(secs - secs % 86_400))
}

/// The recent events once `event` has joined them in front. The oldest one
/// leaves where `capacity` of them are there already.
pub open spec fn joined(
    recent: Seq<UsageEventView>,
    capacity: usize,
    event: UsageEventView,
) -> Seq<UsageEventView> {
    if recent.len() == capacity && recent.len() > 0 {
        seq![event] + recent.drop_last()
    } else {
        seq![event] + recent
    }
}

/// `n`, or the largest signed number where `n` is larger.
pub fn clamp_to_signed(n: u64) -> (clamped_n: i64)
    ensures
        clamped_n == clamped(n),
{
    if n <= i64::MAX as u64 {
        n as i64
    } else {
        i64::MAX
    }
}

impl UsageEvent {
    /// What the event adds to the statistics of its day.
    pub fn daily_stat(&self) -> (stat: DailyStat)
        ensures
            stat@ == daily_stat_of(self@),
            stat.date@ == utc_date_text(self.timestamp.seconds()),
            stat.model@ == self.model@,
            stat.cost_usd_bits == self.cost_usd_bits,
    {
        self.daily_stat_on(self.timestamp.date_text())
    }

    /// What the event adds to the statistics of the day `date`.
    pub fn daily_stat_on(&self, date: String) -> (stat: DailyStat)
        ensures
            stat@ == stat_on(self@, date@),
            stat.date@ == date@,
            stat.model@ == self.model@,
            stat.prompt_tokens == if self.prompt_tokens <= i64::MAX {
                self.prompt_tokens as int
            } else {
                i64::MAX as int
            },
            stat.completion_tokens == if self.completion_tokens <= i64::MAX {
                self.completion_tokens as int
            } else {
                i64::MAX as int
            },
            stat.total_tokens == if self.total_tokens <= i64::MAX {
                self.total_tokens as int
            } else {
                i64::MAX as int
            },
            stat.cost_usd_bits == self.cost_usd_bits,
    {
        DailyStat {
            date,
            model: self.model.clone(),
            prompt_tokens: clamp_to_signed(self.prompt_tokens),
            completion_tokens: clamp_to_signed(self.completion_tokens),
            total_tokens: clamp_to_signed(self.total_tokens),
            cost_usd_bits: self.cost_usd_bits,
        }
    }
}

/// What the recent events hold.
pub open spec fn events_view(events: Seq<UsageEvent>) -> Seq<UsageEventView> {
    events.map_values(|event: UsageEvent| event@)
}

/// Takes in usage events, and keeps the most recent ones at hand.
pub struct UsageAggregator {
    recent_capacity: usize,
    recent_events: VecDeque<UsageEvent>,
}

impl UsageAggregator {
    /// The number of events that are kept at hand.
    pub closed spec fn capacity(self) -> usize {
        self.recent_capacity
    }

    /// The events that are kept at hand, the most recent one first.
    pub closed spec fn recent(self) -> Seq<UsageEventView> {
        events_view(self.recent_events@)
    }

    /// An aggregator that has taken in nothing yet.
    pub fn new(recent_capacity: usize) -> (aggregator: UsageAggregator)
        ensures
            aggregator.capacity() == recent_capacity,
            aggregator.recent() == Seq::<UsageEventView>::empty(),
    {
        let aggregator = UsageAggregator { recent_capacity, recent_events: VecDeque::new() };
        assert(aggregator.recent() =~= Seq::<UsageEventView>::empty());
        aggregator
    }

    /// Takes in an event whose [`DailyStat`] has been handed to the storage.
    /// It joins the recent events only if the storage recorded it.
    pub fn handle_event(&mut self, event: UsageEvent, recorded: bool)
        ensures
            final(self).capacity() == old(self).capacity(),
            final(self).recent() == if recorded {
                joined(old(self).recent(), old(self).capacity(), event@)
            } else {
                old(self).recent()
            },
    {
        if !recorded {
            return;
        }
        let ghost before = self.recent_events@;
        if self.recent_events.len() == self.recent_capacity {
            let _ = self.recent_events.pop_back();
        }
        let ghost kept = self.recent_events@;
        self.recent_events.push_front(event);
        proof {
            assert(self.recent_events@ == seq![event] + kept);
            if before.len() == self.recent_capacity && before.len() > 0 {
                assert(events_view(kept) =~= events_view(before).drop_last());
            } else {
                assert(kept =~= before);
            }
            assert(self.recent() =~= seq![event@] + events_view(kept));
        }
    }

    /// The number of events that are at hand.
    pub fn recent_len(&self) -> (len: usize)
        ensures
            len == self.recent().len(),
    {
        self.recent_events.len()
    }

    /// The event at position `i` among those at hand, where the most recent
    /// one comes first.
    pub fn recent_event(&self, i: usize) -> (event: Option<&UsageEvent>)
        ensures
            event is Some <==> i < self.recent().len(),
            event matches Some(e) ==> e@ == self.recent()[i as int],
    {
        if i < self.recent_events.len() {
            Some(&self.recent_events[i])
        } else {
            None
        }
    }
}

/// The recent events after all of `events` have joined, one after another.
pub open spec fn joined_all(
    recent: Seq<UsageEventView>,
    capacity: usize,
    events: Seq<UsageEventView>,
) -> Seq<UsageEventView>
    decreases events.len(),
{
    if events.len() == 0 {
        recent
    } else {
        joined(joined_all(recent, capacity, events.drop_last()), capacity, events.last())
    }
}

/// The events at hand are the latest ones that were recorded, the most recent
/// first: all of them, or as many as the capacity allows.
pub proof fn law_recent_events_are_the_latest(capacity: usize, events: Seq<UsageEventView>)
    requires
        capacity > 0,
    ensures
        ({
            let recent = joined_all(seq![], capacity, events);
            &&& recent.len() == if events.len() <= capacity { events.len() } else { capacity as nat }
            &&& forall|i: int|
                0 <= i < recent.len() ==> #[trigger] recent[i] == events[events.len() - 1 - i]
        }),
    decreases events.len(),
{
    if events.len() > 0 {
        let front = events.drop_last();
        law_recent_events_are_the_latest(capacity, front);
        let before = joined_all(seq![], capacity, front);
        let recent = joined_all(seq![], capacity, events);
        assert forall|i: int| 0 <= i < recent.len() implies #[trigger] recent[i] == events[
            events.len() - 1 - i
        ] by {
            if i > 0 {
                assert(recent[i] == before[i - 1]);
                assert(before[i - 1] == front[front.len() - 1 - (i - 1)]);
            }
        }
    }
}

/// The date of an event is that of the UTC day that it lies in: events of one
/// day count for one date, which is that of the first second of the day.
pub proof fn law_events_of_one_day_share_its_date(a: UsageEventView, b: UsageEventView)
    requires
        a.timestamp.seconds() / 86_400 == b.timestamp.seconds() / 86_400,
    ensures
        daily_stat_of(a).date == daily_stat_of(b).date,
        daily_stat_of(a).date == utc_date_text((a.timestamp.seconds() / 86_400) * 86_400),
{
    assert((a.timestamp.seconds() / 86_400) * 86_400 == a.timestamp.seconds()
        - a.timestamp.seconds() % 86_400);
    assert((b.timestamp.seconds() / 86_400) * 86_400 == b.timestamp.seconds()
        - b.timestamp.seconds() % 86_400);
}

/// An event counts for its own model, with its own tokens and cost. Tokens that
/// a signed number can hold are counted as they are, and more of them as the
/// largest one.
pub proof fn law_events_count_as_they_are(event: UsageEventView, date: Seq<char>)
    ensures
        stat_on(event, date).date == date,
        daily_stat_of(event) == stat_on(event, daily_stat_of(event).date),
        stat_on(event, date).model == event.model,
        stat_on(event, date).cost_usd_bits == event.cost_usd_bits,
        stat_on(event, date).prompt_tokens == event.prompt_tokens || (event.prompt_tokens
            > i64::MAX && stat_on(event, date).prompt_tokens == i64::MAX),
        stat_on(event, date).completion_tokens == event.completion_tokens || (
        event.completion_tokens > i64::MAX && stat_on(event, date).completion_tokens == i64::MAX),
        stat_on(event, date).total_tokens == event.total_tokens || (event.total_tokens > i64::MAX
            && stat_on(event, date).total_tokens == i64::MAX),
{
}

/// A new event comes first, and the others follow as they were. Only the oldest
/// one leaves, and only where there are as many as the capacity allows.
pub proof fn law_new_event_comes_first(
    recent: Seq<UsageEventView>,
    capacity: usize,
    event: UsageEventView,
)
    ensures
        ({
            let after = joined(recent, capacity, event);
            &&& after.len() > 0 && after[0] == event
            &&& recent.len() != capacity || capacity == 0 ==> after.skip(1) == recent
            &&& recent.len() == capacity && capacity > 0 ==> after.skip(1)
                == recent.drop_last() && after.len() == capacity
        }),
{
    let after = joined(recent, capacity, event);
    if recent.len() == capacity && capacity > 0 {
        assert(after.skip(1) =~= recent.drop_last());
    } else {
        assert(after.skip(1) =~= recent);
    }
}

} // verus!
