//! Commands scheduled for a later time, and the collection that runs them.
use vstd::prelude::*;
use crate::io::command::IOCommand;
use crate::io::datum::Datum;
use crate::errors::DeviceError;
use crate::io::event::{IOEvent, utc_now_micros, CLOCK_MAX_MICROS};

verus! {

/// A command that should be executed at a scheduled time, outside of the
/// normal event loop, for instance turning a pump off after a delay.
///
/// `timestamp` counts microseconds since the Unix epoch. `L` is the handle
/// of the originating device's log, where the executed event is recorded.
pub struct Routine<R, W, L> {
    timestamp: i64,
    value: Datum,
    log: Option<L>,
    command: IOCommand<R, W>,
}

impl<R, W, L> Routine<R, W, L> {
    /// Scheduled time of execution.
    pub closed spec fn scheduled_at(&self) -> i64 {
        self.timestamp
    }

    /// Value passed to the command.
    pub closed spec fn spec_value(&self) -> Datum {
        self.value
    }

    /// Handle of the log that records the execution.
    pub closed spec fn spec_log(&self) -> Option<L> {
        self.log
    }

    /// Output command to execute.
    pub closed spec fn spec_command(&self) -> IOCommand<R, W> {
        self.command
    }

    /// Whether the routine is due at time `now`.
    pub open spec fn due_at(&self, now: i64) -> bool {
        now >= self.scheduled_at()
    }

    /// A routine writing `value` through the output `command` at `timestamp`.
    ///
    /// The command must be an output command.
    pub fn new(timestamp: i64, value: Datum, log: Option<L>, command: IOCommand<R, W>) -> (r: Self)
        requires
            command is Output,
        ensures
            r.scheduled_at() == timestamp,
            r.spec_value() == value,
            r.spec_log() == log,
            r.spec_command() == command,
    {
        Routine { timestamp, value, log, command }
    }

    /// Scheduled time of execution.
    pub fn timestamp(&self) -> (t: i64)
        ensures
            t == self.scheduled_at(),
    {
        self.timestamp
    }

    /// Value passed to the command.
    pub fn value(&self) -> (v: Datum)
        ensures
            v == self.spec_value(),
    {
        self.value
    }

    /// Handle of the log that records the execution.
    pub fn log(&self) -> (l: &Option<L>)
        ensures
            *l == self.spec_log(),
    {
        &self.log
    }

    /// Output command to execute.
    pub fn command(&self) -> (c: &IOCommand<R, W>)
        ensures
            *c == self.spec_command(),
    {
        &self.command
    }

    /// Whether the command can be run with the routine's value: an output
    /// command that accepts the value.
    pub open spec fn ready(&self) -> bool
        where
            R: Fn() -> Datum,
            W: Fn(Datum) -> Result<(), ()>,
    {
        self.spec_command() matches IOCommand::Output(f) && call_requires(f, (self.spec_value(),))
    }

    /// Run the command with `value` and return the event it records,
    /// stamped with the scheduled time. The command must be an output
    /// command that accepts the value.
    pub fn execute(&self, value: Option<Datum>) -> (r: Result<Option<IOEvent>, DeviceError>)
        where
            R: Fn() -> Datum,
            W: Fn(Datum) -> Result<(), ()>,
        requires
            value is Some,
            self.spec_command() matches IOCommand::Output(f) && call_requires(f, (value->0,)),
        ensures
            r == Ok::<Option<IOEvent>, DeviceError>(Some(routine_event_with(self, value->0))),
            self.spec_command() matches IOCommand::Output(f) ==> exists|res: Result<(), ()>|
                call_ensures(f, (value->0,), res),
    {
        match self.command.execute(value) {
            Ok(_) => {
                let v = value.unwrap();
                Ok(Some(IOEvent::with_timestamp(self.timestamp, v)))
            },
            Err(e) => Err(e),
        }
    }

    /// Polling step at time `now`: once the scheduled time has come, the
    /// command is run and the event it records returned; before that nothing
    /// is run and `None` is returned.
    pub fn attempt_at(&self, now: i64) -> (e: Option<IOEvent>)
        where
            R: Fn() -> Datum,
            W: Fn(Datum) -> Result<(), ()>,
        requires
            self.ready(),
        ensures
            e is Some <==> self.due_at(now),
            e matches Some(ev) ==> ev == routine_event(self),
            self.due_at(now) ==> (self.spec_command() matches IOCommand::Output(f) ==> exists|
                res: Result<(), ()>,
            | call_ensures(f, (self.spec_value(),), res)),
    {
        if now >= self.timestamp {
            match self.execute(Some(self.value)) {
                Ok(Some(event)) => Some(event),
                _ => None,
            }
        } else {
            None
        }
    }

    /// Polling step at the current time, read once from the clock: what
    /// [`Routine::attempt_at`] does at that time. The command is run and its
    /// event returned exactly when the routine is due at the time read.
    pub fn attempt(&self) -> (e: Option<IOEvent>)
        where
            R: Fn() -> Datum,
            W: Fn(Datum) -> Result<(), ()>,
        requires
            self.ready(),
        ensures
            exists|now: i64|
                {
                    &&& 0 <= now <= CLOCK_MAX_MICROS
                    &&& #[trigger] self.due_at(now) == (e is Some)
                    &&& self.due_at(now) ==> (self.spec_command() matches IOCommand::Output(f)
                        ==> exists|res: Result<(), ()>| call_ensures(f, (self.spec_value(),), res))
                },
            e matches Some(ev) ==> ev == routine_event(self),
            self.scheduled_at() <= 0 ==> e is Some,
            self.scheduled_at() > CLOCK_MAX_MICROS ==> e is None,
    {
        let now = utc_now_micros();
        let e = self.attempt_at(now);
        assert(self.due_at(now) == (e is Some));
        e
    }
}

/// The event that running a routine with `value` records: the value, stamped
/// with the scheduled time.
pub open spec fn routine_event_with<R, W, L>(r: &Routine<R, W, L>, value: Datum) -> IOEvent {
    IOEvent { timestamp: r.scheduled_at(), value }
}

/// The event that running a routine records.
pub open spec fn routine_event<R, W, L>(r: &Routine<R, W, L>) -> IOEvent {
    routine_event_with(r, r.spec_value())
}

/// The routines of `s` that are not due at `now`, in their order.
pub open spec fn pending<R, W, L>(s: Seq<Routine<R, W, L>>, now: i64) -> Seq<Routine<R, W, L>>
    decreases s.len(),
{
    if s.len() == 0 {
        s
    } else if s.last().due_at(now) {
        pending(s.drop_last(), now)
    } else {
        pending(s.drop_last(), now).push(s.last())
    }
}

/// The events recorded by running the routines of `s` that are due at
/// `now`, in their order, each with the log that records it.
pub open spec fn fired<R, W, L>(s: Seq<Routine<R, W, L>>, now: i64) -> Seq<(IOEvent, Option<L>)>
    decreases s.len(),
{
    if s.len() == 0 {
        Seq::empty()
    } else if s.last().due_at(now) {
        fired(s.drop_last(), now).push((routine_event(&s.last()), s.last().spec_log()))
    } else {
        fired(s.drop_last(), now)
    }
}

/// Collection of scheduled routines, run in real time outside of the normal
/// polling cycle.
pub struct SchedRoutineHandler<R, W, L>(Vec<Routine<R, W, L>>);

impl<R, W, L> View for SchedRoutineHandler<R, W, L> {
    type V = Seq<Routine<R, W, L>>;

    closed spec fn view(&self) -> Seq<Routine<R, W, L>> {
        self.0@
    }
}

impl<R, W, L> SchedRoutineHandler<R, W, L> {
    /// An empty collection.
    pub fn new() -> (h: Self)
        ensures
            h@ == Seq::<Routine<R, W, L>>::empty(),
    {
        SchedRoutineHandler(Vec::new())
    }

    /// Add a routine to the back of the collection.
    pub fn push(&mut self, routine: Routine<R, W, L>)
        ensures
            final(self)@ == old(self)@.push(routine),
    {
        self.0.push(routine)
    }

    /// The scheduled routines, in the order they were added.
    pub fn scheduled(&self) -> (s: &[Routine<R, W, L>])
        ensures
            s@ == self@,
    {
        self.0.as_slice()
    }

    /// Run, at time `now`, every routine that is due, in order, and clear
    /// them: the events they recorded are returned, each with the log that
    /// records it, and the routines that are not due stay, in their order.
    pub fn attempt_routines_at(&mut self, now: i64) -> (events: Vec<(IOEvent, Option<L>)>)
        where
            R: Fn() -> Datum,
            W: Fn(Datum) -> Result<(), ()>,
        requires
            forall|j: int| 0 <= j < old(self)@.len() ==> #[trigger] old(self)@[j].ready(),
        ensures
            final(self)@ == pending(old(self)@, now),
            events@ == fired(old(self)@, now),
    {
        let ghost before = self@;
        let mut events: Vec<(IOEvent, Option<L>)> = Vec::new();
        let mut i: usize = 0;
        let ghost mut k: int = 0;
        assert(before.take(0) =~= Seq::<Routine<R, W, L>>::empty());
        assert(self@ =~= pending(before.take(0), now) + before.skip(0));
        while i < self.0.len()
            invariant
                0 <= k <= before.len(),
                i == pending(before.take(k), now).len(),
                self@ == pending(before.take(k), now) + before.skip(k),
                events@ == fired(before.take(k), now),
                forall|j: int| 0 <= j < before.len() ==> #[trigger] before[j].ready(),
            decreases self@.len() - i,
        {
            assert(self@[i as int] == before[k]);
            assert(before.take(k + 1).drop_last() =~= before.take(k));
            assert(before.take(k + 1).last() == before[k]);
            let fired_now = self.0[i].attempt_at(now);
            match fired_now {
                Some(event) => {
                    let done = self.0.remove(i);
                    events.push((event, done.log));
                    assert(self@ =~= pending(before.take(k + 1), now) + before.skip(k + 1));
                },
                None => {
                    i = i + 1;
                    assert(self@ =~= pending(before.take(k + 1), now) + before.skip(k + 1));
                },
            }
            proof {
                k = k + 1;
            }
        }
        proof {
            assert(before.skip(k).len() == 0);
            assert(k == before.len());
            assert(before.take(k) =~= before);
            assert(self@ =~= pending(before, now));
        }
        events
    }

    /// Run every routine that is due at the current time, read once from the
    /// clock, and clear them; the routines that are not due stay.
    pub fn attempt_routines(&mut self) -> (events: Vec<(IOEvent, Option<L>)>)
        where
            R: Fn() -> Datum,
            W: Fn(Datum) -> Result<(), ()>,
        requires
            forall|j: int| 0 <= j < old(self)@.len() ==> #[trigger] old(self)@[j].ready(),
        ensures
            exists|now: i64|
                0 <= now <= CLOCK_MAX_MICROS && final(self)@ == pending(old(self)@, now) && events@ == fired(
                    old(self)@,
                    now,
                ),
            forall|j: int|
                0 <= j < old(self)@.len() && #[trigger] old(self)@[j].scheduled_at()
                    > CLOCK_MAX_MICROS ==> final(self)@.contains(old(self)@[j]),
    {
        let now = utc_now_micros();
        let ghost before = self@;
        let events = self.attempt_routines_at(now);
        proof {
            assert forall|j: int|
                0 <= j < before.len() && #[trigger] before[j].scheduled_at()
                    > CLOCK_MAX_MICROS implies self@.contains(before[j]) by {
                law_pending_keeps_not_due(before, now, j);
            }
        }
        events
    }
}

impl<R, W, L> Default for SchedRoutineHandler<R, W, L> {
    fn default() -> (h: Self)
        ensures
            h@ == Seq::<Routine<R, W, L>>::empty(),
    {
        SchedRoutineHandler::new()
    }
}

/// Law: an attempt clears what it executed. No routine that stays is due,
/// and each routine either stays or has recorded exactly one event.
pub proof fn law_attempt_clears_executed<R, W, L>(s: Seq<Routine<R, W, L>>, now: i64)
    ensures
        forall|j: int| 0 <= j < pending(s, now).len() ==> !#[trigger] pending(s, now)[j].due_at(now),
        pending(s, now).len() + fired(s, now).len() == s.len(),
    decreases s.len(),
{
    if s.len() > 0 {
        law_attempt_clears_executed(s.drop_last(), now);
    }
}

/// Law: a routine that is not due at `now` stays pending.
pub proof fn law_pending_keeps_not_due<R, W, L>(s: Seq<Routine<R, W, L>>, now: i64, j: int)
    requires
        0 <= j < s.len(),
        !s[j].due_at(now),
    ensures
        pending(s, now).contains(s[j]),
    decreases s.len(),
{
    if j == s.len() - 1 {
        assert(pending(s, now) == pending(s.drop_last(), now).push(s.last()));
        assert(pending(s, now)[pending(s, now).len() - 1] == s[j]);
    } else {
        assert(s.drop_last()[j] == s[j]);
        law_pending_keeps_not_due(s.drop_last(), now, j);
        let w = choose|w: int| 0 <= w < pending(s.drop_last(), now).len() && pending(s.drop_last(), now)[w] == s[j];
        if s.last().due_at(now) {
            assert(pending(s, now)[w] == s[j]);
        } else {
            assert(pending(s, now)[w] == s[j]);
        }
    }
}

/// Law: routines that are not due are untouched; when none is due, an
/// attempt keeps them all and records nothing.
pub proof fn law_nothing_due_nothing_fired<R, W, L>(s: Seq<Routine<R, W, L>>, now: i64)
    requires
        forall|j: int| 0 <= j < s.len() ==> !#[trigger] s[j].due_at(now),
    ensures
        pending(s, now) == s,
        fired(s, now) == Seq::<(IOEvent, Option<L>)>::empty(),
    decreases s.len(),
{
    if s.len() > 0 {
        assert forall|j: int| 0 <= j < s.drop_last().len() implies !#[trigger] s.drop_last()[j].due_at(now) by {
            assert(s.drop_last()[j] == s[j]);
        }
        law_nothing_due_nothing_fired(s.drop_last(), now);
        assert(s.drop_last().push(s.last()) =~= s);
    }
}

} // verus!
