//! Laws of whole runs of the worker over one journal file: the order in which its records are
//! applied, how often, and when the file goes.

use crate::auth_event::{SharedAuthEvent, EVENT_ID_BYTES};
use crate::expiry_cache::ExpiryModel;
use crate::lock_cache::LockModel;
use crate::worker;
use crate::worker::{
    AffectedCaches, Consumer, RecordReply, RemovalReply, RotationReply, Work,
};
use crate::worker_laws;
use vstd::prelude::*;

verus! {

/// The worker and the file it replays, with what the database holds of it.
pub struct Replay {
    pub consumer: Consumer,
    /// How many records were read since the file was opened last.
    pub position: int,
    /// The end of the file was reached, and it is to be removed.
    pub removing: bool,
    /// The queue was marked corrupt; nothing is read or applied until the worker begins anew.
    pub suspended: bool,
    /// The file is gone.
    pub removed: bool,
    /// The receipts in the database.
    pub receipts: Set<[u8; EVENT_ID_BYTES]>,
    /// The events that took effect in the database, in the order in which they did.
    pub applied: Seq<SharedAuthEvent>,
    /// How far into the file transactions have ever committed.
    pub furthest: int,
}

/// One thing that happens to the worker.
pub enum Moment {
    /// Consumption begins anew: after a start, a crash, a hydration or a recovery.
    Begin,
    Rotated(RotationReply),
    Read(RecordReply),
    Removed(RemovalReply),
    /// The transaction of the pending event committed.
    Committed,
    /// The transaction of the pending event was rolled back, and the caches it writes were marked.
    RolledBack(AffectedCaches, LockModel, ExpiryModel),
    /// The pending event cannot be trusted.
    Distrusted,
}

impl Replay {
    /// The first state, with the receipts that earlier runs left.
    pub open spec fn start(receipts: Set<[u8; EVENT_ID_BYTES]>) -> Replay {
        Replay {
            consumer: Consumer::fresh(),
            position: 0,
            removing: false,
            suspended: false,
            removed: false,
            receipts,
            applied: Seq::empty(),
            furthest: 0,
        }
    }

    /// The worker is free to do `work`.
    pub open spec fn at_work(self) -> bool {
        !self.removed && !self.suspended && !self.removing
    }

    /// What can happen next. The worker does what [`Consumer::next_work`] says; a reader hands the
    /// records of the file out in order and then reports its end; and an event is tried exactly
    /// when [`worker::plan_event`] trusts it.
    pub open spec fn allows(self, file: Seq<SharedAuthEvent>, m: Moment) -> bool {
        match m {
            Moment::Begin => !self.removed,
            Moment::Rotated(_) => self.at_work() && self.consumer.work() is Rotate,
            Moment::Read(reply) => {
                &&& self.at_work()
                &&& self.consumer.work() is ReadRecord
                &&& reply matches RecordReply::Event(event) ==> self.position < file.len() && event
                    == file[self.position]
                &&& reply is EndOfFile ==> self.position == file.len()
            },
            Moment::Removed(_) => !self.removed && self.removing,
            Moment::Committed => self.at_work() && (self.consumer.work() matches Work::Process(
                event,
            ) && worker::plannable(event)),
            Moment::RolledBack(_, _, _) => self.at_work() && (
            self.consumer.work() matches Work::Process(event) && worker::plannable(event)),
            Moment::Distrusted => self.at_work() && (self.consumer.work() matches Work::Process(
                event,
            ) && !worker::plannable(event)),
        }
    }

    /// The state after `m`. A transaction that commits leaves a receipt, and has an effect when
    /// there was none before.
    pub open spec fn after(self, m: Moment) -> Replay {
        match m {
            Moment::Begin => Replay {
                consumer: Consumer::fresh(),
                position: 0,
                removing: false,
                suspended: false,
                ..self
            },
            Moment::Rotated(reply) => Replay {
                consumer: self.consumer.rotated(reply),
                position: if reply is Opened {
                    0
                } else {
                    self.position
                },
                suspended: Consumer::rotation_step(reply) is Suspend,
                ..self
            },
            Moment::Read(reply) => Replay {
                consumer: self.consumer.read(reply),
                position: if reply is Event {
                    self.position + 1
                } else {
                    self.position
                },
                suspended: Consumer::record_step(reply) is Suspend,
                removing: Consumer::record_step(reply) is RemoveFile,
                ..self
            },
            Moment::Removed(reply) => Replay {
                consumer: self.consumer.cleaned(reply),
                removing: false,
                removed: Consumer::removal_step(reply) is CleanReceipts,
                ..self
            },
            Moment::Committed => {
                let event = self.consumer.pending_event->0;
                Replay {
                    consumer: self.consumer.committed(),
                    receipts: self.receipts.insert(event.event_id),
                    applied: if self.receipts.contains(event.event_id) {
                        self.applied
                    } else {
                        self.applied.push(event)
                    },
                    furthest: if self.position > self.furthest {
                        self.position
                    } else {
                        self.furthest
                    },
                    ..self
                }
            },
            Moment::RolledBack(affects, lock, expiry) => Replay {
                consumer: Consumer {
                    degraded: self.consumer.degraded.marked(affects, lock, expiry),
                    ..self.consumer
                }.rolled_back(),
                ..self
            },
            Moment::Distrusted => Replay { suspended: true, ..self },
        }
    }

    /// The state after all of `ms`.
    pub open spec fn after_all(self, ms: Seq<Moment>) -> Replay
        decreases ms.len(),
    {
        if ms.len() == 0 {
            self
        } else {
            self.after_all(ms.drop_last()).after(ms.last())
        }
    }

    /// All of `ms` can happen, one after the other.
    pub open spec fn allows_all(self, file: Seq<SharedAuthEvent>, ms: Seq<Moment>) -> bool
        decreases ms.len(),
    {
        ms.len() == 0 || {
            &&& self.allows_all(file, ms.drop_last())
            &&& self.after_all(ms.drop_last()).allows(file, ms.last())
        }
    }

    /// What holds in every state: the database holds what applying the first `furthest` records
    /// once and in order gives, a pending event is the first of the file that this pass has not
    /// committed, and the file is removed only when all of it committed.
    pub open spec fn sound(
        self,
        file: Seq<SharedAuthEvent>,
        before: Set<[u8; EVENT_ID_BYTES]>,
    ) -> bool {
        let done = file.take(self.furthest);
        &&& 0 <= self.furthest <= file.len()
        &&& self.receipts == worker_laws::receipts_after(done, before)
        &&& self.applied == worker_laws::effective(done, before)
        &&& forall|i: int| 0 <= i < self.furthest ==> worker::plannable(#[trigger] file[i])
        &&& !self.consumer.batch_open ==> self.consumer.pending_event is None
        &&& self.consumer.batch_open ==> match self.consumer.pending_event {
            None => 0 <= self.position <= self.furthest,
            Some(event) => {
                &&& 0 < self.position <= self.furthest + 1
                &&& self.position <= file.len()
                &&& event == file[self.position - 1]
            },
        }
        &&& self.removing || self.removed ==> self.furthest == file.len()
            && !self.consumer.batch_open
    }
}

/// An event that rolled back is tried again before anything else is read.
pub proof fn rollback_retries_the_same_event(
    s: Replay,
    affects: AffectedCaches,
    lock: LockModel,
    expiry: ExpiryModel,
    event: SharedAuthEvent,
)
    requires
        s.consumer.work() == Work::Process(event),
    ensures
        s.after(Moment::RolledBack(affects, lock, expiry)).consumer.work() == Work::Process(event),
        s.after(Moment::RolledBack(affects, lock, expiry)).applied == s.applied,
        s.after(Moment::RolledBack(affects, lock, expiry)).receipts == s.receipts,
{
}

/// Records are read, and with the last of them a file is given up, only while no event is pending.
pub proof fn reading_awaits_the_pending_event(c: Consumer)
    requires
        c.work() is ReadRecord,
    ensures
        c.batch_open,
        c.pending_event is None,
{
}

/// An event that cannot be trusted is left where it is: it has no effect and no receipt, nothing is
/// acknowledged for it, and the worker does nothing until consumption begins anew.
pub proof fn distrust_suspends(s: Replay, file: Seq<SharedAuthEvent>, m: Moment)
    requires
        s.allows(file, Moment::Distrusted),
    ensures
        ({
            let after = s.after(Moment::Distrusted);
            &&& after.applied == s.applied
            &&& after.receipts == s.receipts
            &&& after.furthest == s.furthest
            &&& after.allows(file, m) ==> m is Begin
        }),
{
}

/// The furthest record grows by one, from the receipts and effects of those before it.
proof fn one_more_record(
    file: Seq<SharedAuthEvent>,
    at: int,
    before: Set<[u8; EVENT_ID_BYTES]>,
)
    requires
        0 <= at < file.len(),
    ensures
        ({
            let done = worker_laws::receipts_after(file.take(at), before);
            let event = file[at];
            &&& worker_laws::receipts_after(file.take(at + 1), before) == done.insert(
                event.event_id,
            )
            &&& worker_laws::effective(file.take(at + 1), before) == if done.contains(
                event.event_id,
            ) {
                worker_laws::effective(file.take(at), before)
            } else {
                worker_laws::effective(file.take(at), before).push(event)
            }
        }),
    decreases at,
{
    let more = before.insert(file[0].event_id);
    reveal_with_fuel(worker_laws::receipts_after, 2);
    reveal_with_fuel(worker_laws::effective, 2);
    assert(file.take(at + 1)[0] == file[0]);
    if at == 0 {
        assert(file.take(0) =~= Seq::<SharedAuthEvent>::empty());
        assert(file.take(1).drop_first() =~= Seq::<SharedAuthEvent>::empty());
        assert(seq![file[0]] + Seq::<SharedAuthEvent>::empty() =~= Seq::empty().push(file[0]));
    } else {
        let rest = file.drop_first();
        one_more_record(rest, at - 1, more);
        assert(file.take(at + 1).drop_first() =~= rest.take(at));
        assert(file.take(at).drop_first() =~= rest.take(at - 1));
        assert(file.take(at)[0] == file[0]);
        let tail = worker_laws::effective(rest.take(at - 1), more);
        assert(seq![file[0]] + tail.push(file[at]) =~= (seq![file[0]] + tail).push(file[at]));
    }
}

proof fn soundness_is_kept(
    s: Replay,
    file: Seq<SharedAuthEvent>,
    before: Set<[u8; EVENT_ID_BYTES]>,
    m: Moment,
)
    requires
        s.sound(file, before),
        s.allows(file, m),
    ensures
        s.after(m).sound(file, before),
{
    if m is Committed {
        let k = s.position - 1;
        let event = file[k];
        if k == s.furthest {
            one_more_record(file, k, before);
        } else {
            worker_laws::receipts_grow(file.take(s.furthest), before);
            assert(file.take(s.furthest)[k] == event);
            assert(s.receipts.insert(event.event_id) =~= s.receipts);
        }
    }
}

proof fn runs_are_sound(
    file: Seq<SharedAuthEvent>,
    before: Set<[u8; EVENT_ID_BYTES]>,
    ms: Seq<Moment>,
)
    requires
        Replay::start(before).allows_all(file, ms),
    ensures
        Replay::start(before).after_all(ms).sound(file, before),
    decreases ms.len(),
{
    if ms.len() == 0 {
        assert(file.take(0) =~= Seq::<SharedAuthEvent>::empty());
    } else {
        runs_are_sound(file, before, ms.drop_last());
        soundness_is_kept(
            Replay::start(before).after_all(ms.drop_last()),
            file,
            before,
            ms.last(),
        );
    }
}

/// What takes effect has no receipt from before, and no identity takes effect twice.
proof fn effects_are_distinct(
    events: Seq<SharedAuthEvent>,
    receipts: Set<[u8; EVENT_ID_BYTES]>,
)
    ensures
        ({
            let applied = worker_laws::effective(events, receipts);
            &&& forall|i: int|
                0 <= i < applied.len() ==> !receipts.contains((#[trigger] applied[i]).event_id)
            &&& forall|i: int, j: int|
                0 <= i < j < applied.len() ==> (#[trigger] applied[i]).event_id != (
                #[trigger] applied[j]).event_id
        }),
    decreases events.len(),
{
    if events.len() > 0 {
        let first = events[0];
        let more = receipts.insert(first.event_id);
        let rest = worker_laws::effective(events.drop_first(), more);
        effects_are_distinct(events.drop_first(), more);
        let applied = worker_laws::effective(events, receipts);
        assert forall|i: int| 0 <= i < applied.len() implies !receipts.contains(
            (#[trigger] applied[i]).event_id,
        ) by {
            if receipts.contains(first.event_id) {
                assert(!more.contains(rest[i].event_id));
            } else if i > 0 {
                assert(applied[i] == rest[i - 1]);
                assert(!more.contains(rest[i - 1].event_id));
            }
        }
        assert forall|i: int, j: int| 0 <= i < j < applied.len() implies (
        #[trigger] applied[i]).event_id != (#[trigger] applied[j]).event_id by {
            if receipts.contains(first.event_id) {
                assert(rest[i].event_id != rest[j].event_id);
            } else {
                assert(applied[j] == rest[j - 1]);
                assert(!more.contains(rest[j - 1].event_id));
                if i > 0 {
                    assert(applied[i] == rest[i - 1]);
                    assert(rest[i - 1].event_id != rest[j - 1].event_id);
                }
            }
        }
    }
}

/// Over every run on a file, however often it is interrupted, retried or begun anew: the effects in
/// the database are those of applying a prefix of the file once and in its order, no event takes
/// effect twice or in spite of an earlier receipt, and once the file is removed all of it was
/// applied.
pub proof fn replay_is_ordered_and_exact(
    file: Seq<SharedAuthEvent>,
    before: Set<[u8; EVENT_ID_BYTES]>,
    ms: Seq<Moment>,
)
    requires
        Replay::start(before).allows_all(file, ms),
    ensures
        ({
            let s = Replay::start(before).after_all(ms);
            &&& 0 <= s.furthest <= file.len()
            &&& s.applied == worker_laws::effective(file.take(s.furthest), before)
            &&& s.receipts == worker_laws::receipts_after(file.take(s.furthest), before)
            &&& forall|i: int|
                0 <= i < s.applied.len() ==> !before.contains((#[trigger] s.applied[i]).event_id)
            &&& forall|i: int, j: int|
                0 <= i < j < s.applied.len() ==> (#[trigger] s.applied[i]).event_id != (
                #[trigger] s.applied[j]).event_id
            &&& s.removed ==> s.applied == worker_laws::effective(file, before)
        }),
{
    runs_are_sound(file, before, ms);
    let s = Replay::start(before).after_all(ms);
    effects_are_distinct(file.take(s.furthest), before);
    assert(file.take(file.len() as int) =~= file);
}

/// In every run, the event that is tried is the first one that this pass over the file has not
/// committed: all earlier ones committed before it, in this pass or an earlier one.
pub proof fn events_are_tried_in_order(
    file: Seq<SharedAuthEvent>,
    before: Set<[u8; EVENT_ID_BYTES]>,
    ms: Seq<Moment>,
    event: SharedAuthEvent,
)
    requires
        Replay::start(before).allows_all(file, ms),
        Replay::start(before).after_all(ms).consumer.work() == Work::Process(event),
    ensures
        ({
            let s = Replay::start(before).after_all(ms);
            &&& 0 < s.position <= file.len()
            &&& event == file[s.position - 1]
            &&& s.position - 1 <= s.furthest
            &&& forall|i: int|
                0 <= i < s.position - 1 ==> s.receipts.contains((#[trigger] file[i]).event_id)
        }),
{
    runs_are_sound(file, before, ms);
    let s = Replay::start(before).after_all(ms);
    let done = file.take(s.furthest);
    worker_laws::receipts_grow(done, before);
    assert forall|i: int| 0 <= i < s.position - 1 implies s.receipts.contains(
        (#[trigger] file[i]).event_id,
    ) by {
        assert(done[i] == file[i]);
    }
}

/// A file with a record that cannot be trusted is never removed, and nothing from that record on
/// ever takes effect.
pub proof fn distrusted_record_stays(
    file: Seq<SharedAuthEvent>,
    before: Set<[u8; EVENT_ID_BYTES]>,
    ms: Seq<Moment>,
    at: int,
)
    requires
        Replay::start(before).allows_all(file, ms),
        0 <= at < file.len(),
        !worker::plannable(file[at]),
    ensures
        ({
            let s = Replay::start(before).after_all(ms);
            &&& !s.removed
            &&& s.furthest <= at
        }),
{
    runs_are_sound(file, before, ms);
    let s = Replay::start(before).after_all(ms);
    if s.furthest > at {
        assert(worker::plannable(file[at]));
    }
}

} // verus!
