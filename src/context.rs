use rand::rngs::StdRng;
use vstd::prelude::*;

use crate::jitter::{draw_between, seeded_rng};
use crate::message_thread::MessageThreadMessage;
use crate::queue::Queue;
use crate::settings::Settings;

verus! {

/// Timestamps are whole seconds. A timestamp below this bound leaves room for
/// any `u32` period to be added to it.
pub const TIMESTAMP_LIMIT: u64 = 18446744069414584320;

/// The two periodic content sources that feed the queue.
#[derive(Clone, Copy, Debug, PartialEq, Eq, Structural)]
pub enum PeriodicSource {
    Insult,
    Announcement,
}

/// Whether `source` is switched on in `settings`.
pub open spec fn source_enabled(source: PeriodicSource, settings: Settings) -> bool {
    match source {
        PeriodicSource::Insult => settings.enable_insults,
        PeriodicSource::Announcement => settings.enable_announcements,
    }
}

/// The configured (minimum, maximum) period of `source`, in seconds.
pub open spec fn configured_period(source: PeriodicSource, settings: Settings) -> (u32, u32) {
    match source {
        PeriodicSource::Insult => (
            settings.minimum_time_between_insults,
            settings.maximum_time_between_insults,
        ),
        PeriodicSource::Announcement => (
            settings.minimum_time_between_announcements,
            settings.maximum_time_between_announcements,
        ),
    }
}

/// The bounds actually used for a configured `(min, max)`: a minimum above the
/// maximum is lowered to the maximum.
pub open spec fn clamped(min: u32, max: u32) -> (u32, u32) {
    if min > max {
        (max, max)
    } else {
        (min, max)
    }
}

/// A message may go out at `now` when at least `interval` seconds have passed
/// since `last_sent`.
pub open spec fn may_send(last_sent: u64, now: u64, interval: u32) -> bool {
    now >= last_sent + interval
}

/// One flush of the queue at `now`: the front message leaves when the rate
/// limit allows it, and the send time is then recorded. Returns the queue
/// afterwards, the last send time afterwards, and the message sent, if any.
pub open spec fn flush_step(queue: Seq<String>, last_sent: u64, now: u64, interval: u32) -> (
    Seq<String>,
    u64,
    Option<String>,
) {
    if queue.len() > 0 && may_send(last_sent, now, interval) {
        (queue.drop_first(), now, Some(queue[0]))
    } else {
        (queue, last_sent, None)
    }
}

/// Returns `(min, max)` with the minimum lowered to the maximum where it lies
/// above it.
pub fn effective_period(min: u32, max: u32) -> (r: (u32, u32))
    ensures
        r == clamped(min, max),
        r.0 <= r.1,
{
    if min > max {
        (max, max)
    } else {
        (min, max)
    }
}

/// The state of one run of the scheduler: when each periodic source is next
/// due, the messages waiting to go out, and when the last one went.
#[derive(Debug)]
pub struct MessageThreadContext {
    pub next_insult_message_time_stamp: u64,
    pub next_announcement_message_time_stamp: u64,
    pub message_queue: Queue<String>,
    pub last_message_time: u64,
    /// Draws the random periods between firings of a source.
    pub rng: StdRng,
}

impl MessageThreadContext {
    /// When `source` is next due.
    pub open spec fn due_at(&self, source: PeriodicSource) -> u64 {
        match source {
            PeriodicSource::Insult => self.next_insult_message_time_stamp,
            PeriodicSource::Announcement => self.next_announcement_message_time_stamp,
        }
    }

    /// A fresh state at `now`: nothing queued, nothing due before each source's
    /// configured minimum period has passed, and `now` counted as the last send.
    /// `seed` fixes the random periods that this state will draw.
    pub fn new(now: u64, settings: &Settings, seed: u64) -> (r: Self)
        requires
            now < TIMESTAMP_LIMIT,
        ensures
            r.next_insult_message_time_stamp == now + settings.minimum_time_between_insults,
            r.next_announcement_message_time_stamp == now
                + settings.minimum_time_between_announcements,
            r.message_queue@ == Seq::<String>::empty(),
            r.last_message_time == now,
    {
        MessageThreadContext {
            next_insult_message_time_stamp: now + settings.minimum_time_between_insults as u64,
            next_announcement_message_time_stamp: now
                + settings.minimum_time_between_announcements as u64,
            message_queue: Queue::new(),
            last_message_time: now,
            rng: seeded_rng(seed),
        }
    }

    /// Handles one control message, or none when the channel was empty.
    /// Returns whether the scheduler keeps running: a queued message is
    /// appended and the run goes on; a shutdown ends it and changes nothing.
    pub fn handle_message(&mut self, message: Option<MessageThreadMessage>) -> (keep_running: bool)
        ensures
            keep_running == !(message matches Some(MessageThreadMessage::ThreadShutdown)),
            final(self).message_queue@ == (match message {
                Some(MessageThreadMessage::QueueMessage(text)) => old(self).message_queue@.push(
                    text,
                ),
                _ => old(self).message_queue@,
            }),
            final(self).next_insult_message_time_stamp == old(self).next_insult_message_time_stamp,
            final(self).next_announcement_message_time_stamp
                == old(self).next_announcement_message_time_stamp,
            final(self).last_message_time == old(self).last_message_time,
    {
        match message {
            None => true,
            Some(MessageThreadMessage::ThreadShutdown) => false,
            Some(MessageThreadMessage::QueueMessage(text)) => {
                self.message_queue.enqueue(text);
                true
            },
        }
    }

    /// Whether `source` should be consulted at `now`: it is enabled and its
    /// due time has passed.
    pub fn is_due(&self, source: PeriodicSource, now: u64, settings: &Settings) -> (r: bool)
        ensures
            r == (source_enabled(source, *settings) && now > self.due_at(source)),
    {
        match source {
            PeriodicSource::Insult => settings.enable_insults && now
                > self.next_insult_message_time_stamp,
            PeriodicSource::Announcement => settings.enable_announcements && now
                > self.next_announcement_message_time_stamp,
        }
    }

    /// Records that `source` was consulted at `now` and gave `content`: the
    /// content, if any, joins the back of the queue, and the source is next due
    /// `delay` seconds after `now`, whether or not it gave content.
    pub fn reschedule(
        &mut self,
        source: PeriodicSource,
        now: u64,
        content: Option<String>,
        delay: u32,
    )
        requires
            now < TIMESTAMP_LIMIT,
        ensures
            final(self).due_at(source) == now + delay,
            forall|other: PeriodicSource|
                other != source ==> final(self).due_at(other) == old(self).due_at(other),
            final(self).message_queue@ == (match content {
                Some(text) => old(self).message_queue@.push(text),
                None => old(self).message_queue@,
            }),
            final(self).last_message_time == old(self).last_message_time,
    {
        let due = now + delay as u64;
        match source {
            PeriodicSource::Insult => {
                self.next_insult_message_time_stamp = due;
            },
            PeriodicSource::Announcement => {
                self.next_announcement_message_time_stamp = due;
            },
        }
        match content {
            Some(text) => {
                self.message_queue.enqueue(text);
            },
            None => {},
        }
    }

    /// Records that `source` was consulted at `now` and gave `content`, drawing
    /// the delay until it is next due uniformly from its configured period,
    /// clamped as `effective_period` does.
    pub fn fire(
        &mut self,
        source: PeriodicSource,
        now: u64,
        content: Option<String>,
        settings: &Settings,
    )
        requires
            now < TIMESTAMP_LIMIT,
        ensures
            now + clamped(configured_period(source, *settings).0, configured_period(source, *settings).1).0
                <= final(self).due_at(source),
            final(self).due_at(source) <= now + configured_period(source, *settings).1,
            forall|other: PeriodicSource|
                other != source ==> final(self).due_at(other) == old(self).due_at(other),
            final(self).message_queue@ == (match content {
                Some(text) => old(self).message_queue@.push(text),
                None => old(self).message_queue@,
            }),
            final(self).last_message_time == old(self).last_message_time,
    {
        let (min, max) = match source {
            PeriodicSource::Insult => effective_period(
                settings.minimum_time_between_insults,
                settings.maximum_time_between_insults,
            ),
            PeriodicSource::Announcement => effective_period(
                settings.minimum_time_between_announcements,
                settings.maximum_time_between_announcements,
            ),
        };
        let delay = draw_between(&mut self.rng, min as u64, max as u64) as u32;
        self.reschedule(source, now, content, delay);
    }

    /// Takes the front message for sending at `now`, if there is one and at
    /// least `message_queue_interval` seconds have passed since the last send;
    /// `now` then becomes the last send time. Whether the send itself succeeds
    /// does not matter: the slot is used either way.
    pub fn take_message_to_send(&mut self, now: u64, settings: &Settings) -> (r: Option<String>)
        ensures
            (final(self).message_queue@, final(self).last_message_time, r) == flush_step(
                old(self).message_queue@,
                old(self).last_message_time,
                now,
                settings.message_queue_interval,
            ),
            final(self).last_message_time >= old(self).last_message_time,
            final(self).next_insult_message_time_stamp == old(self).next_insult_message_time_stamp,
            final(self).next_announcement_message_time_stamp
                == old(self).next_announcement_message_time_stamp,
    {
        let interval = settings.message_queue_interval as u64;
        if !self.message_queue.is_empty() && now >= self.last_message_time
            && now - self.last_message_time >= interval {
            let message = self.message_queue.dequeue();
            self.last_message_time = now;
            message
        } else {
            None
        }
    }
}

/// The times at which messages go out over a run of ticks. Each tick is the
/// time it runs at and the messages that joined the queue earlier in that tick;
/// the queue starts as `queue` and the last send as `last_sent`.
pub open spec fn send_times(
    queue: Seq<String>,
    last_sent: u64,
    ticks: Seq<(u64, Seq<String>)>,
    interval: u32,
) -> Seq<u64>
    decreases ticks.len(),
{
    if ticks.len() == 0 {
        Seq::empty()
    } else {
        let (now, arrivals) = ticks[0];
        let (rest, last, sent) = flush_step(queue + arrivals, last_sent, now, interval);
        let later = send_times(rest, last, ticks.drop_first(), interval);
        if sent.is_some() {
            seq![now] + later
        } else {
            later
        }
    }
}

/// The rate limit: over any run of ticks, whatever joins the queue and whatever
/// the clock says, each send comes at least `interval` seconds after the one
/// before it, and the first at least `interval` seconds after `last_sent`.
pub proof fn lemma_rate_limit(
    queue: Seq<String>,
    last_sent: u64,
    ticks: Seq<(u64, Seq<String>)>,
    interval: u32,
)
    ensures
        forall|k: int|
            0 <= k < send_times(queue, last_sent, ticks, interval).len() ==> send_times(
                queue,
                last_sent,
                ticks,
                interval,
            )[k] >= last_sent + interval,
        forall|k: int|
            0 <= k < send_times(queue, last_sent, ticks, interval).len() - 1 ==> #[trigger] send_times(
                queue,
                last_sent,
                ticks,
                interval,
            )[k] + interval <= send_times(queue, last_sent, ticks, interval)[k + 1],
    decreases ticks.len(),
{
    if ticks.len() > 0 {
        let (now, arrivals) = ticks[0];
        let (rest, last, sent) = flush_step(queue + arrivals, last_sent, now, interval);
        let later = send_times(rest, last, ticks.drop_first(), interval);
        lemma_rate_limit(rest, last, ticks.drop_first(), interval);
        let all = send_times(queue, last_sent, ticks, interval);
        if sent.is_some() {
            assert(all == seq![now] + later);
            assert(all[0] == now);
            assert(last == now);
            assert forall|k: int| 0 <= k < all.len() - 1 implies #[trigger] all[k] + interval <= all[k
                + 1] by {
                if k > 0 {
                    assert(all[k] == later[k - 1]);
                }
                assert(all[k + 1] == later[k]);
            }
        }
    }
}

/// The times at which a periodic source is consulted over a run of ticks. Each
/// tick is the time it runs at and the delay that a consultation in it would
/// draw; the source is consulted once its due time has passed, and is then next
/// due that delay later, whatever it gave.
pub open spec fn fire_times(due: int, ticks: Seq<(int, int)>) -> Seq<int>
    decreases ticks.len(),
{
    if ticks.len() == 0 {
        Seq::empty()
    } else {
        let (now, delay) = ticks[0];
        if now > due {
            seq![now] + fire_times(now + delay, ticks.drop_first())
        } else {
            fire_times(due, ticks.drop_first())
        }
    }
}

/// A periodic source that gives nothing is still rescheduled: when every drawn
/// delay is at least `min_delay`, consultations are more than `min_delay`
/// seconds apart, and the first comes after the initial due time.
pub proof fn lemma_periodic_spacing(due: int, ticks: Seq<(int, int)>, min_delay: int)
    requires
        0 <= min_delay,
        forall|k: int| 0 <= k < ticks.len() ==> ticks[k].1 >= min_delay,
    ensures
        forall|k: int| 0 <= k < fire_times(due, ticks).len() ==> fire_times(due, ticks)[k] > due,
        forall|k: int|
            0 <= k < fire_times(due, ticks).len() - 1 ==> fire_times(due, ticks)[k + 1]
                > #[trigger] fire_times(due, ticks)[k] + min_delay,
    decreases ticks.len(),
{
    if ticks.len() > 0 {
        let (now, delay) = ticks[0];
        let rest = ticks.drop_first();
        assert forall|k: int| 0 <= k < rest.len() implies rest[k].1 >= min_delay by {
            assert(rest[k] == ticks[k + 1]);
        }
        let all = fire_times(due, ticks);
        if now > due {
            lemma_periodic_spacing(now + delay, rest, min_delay);
            let later = fire_times(now + delay, rest);
            assert(all == seq![now] + later);
            assert(all[0] == now);
            assert(delay >= min_delay);
            assert forall|k: int| 0 <= k < all.len() - 1 implies all[k + 1] > #[trigger] all[k]
                + min_delay by {
                if k > 0 {
                    assert(all[k] == later[k - 1]);
                }
                assert(all[k + 1] == later[k]);
            }
            assert forall|k: int| 0 <= k < all.len() implies all[k] > due by {
                if k > 0 {
                    assert(all[k] == later[k - 1]);
                }
            }
        } else {
            lemma_periodic_spacing(due, rest, min_delay);
            assert(all == fire_times(due, rest));
        }
    }
}

/// With a configured minimum above the maximum, the only period that can be
/// drawn is the maximum itself.
pub proof fn lemma_clamp_uses_max(min: u32, max: u32, delay: u32)
    requires
        min > max,
        clamped(min, max).0 <= delay <= clamped(min, max).1,
    ensures
        delay == max,
        clamped(min, max) == (max, max),
{
}

} // verus!
