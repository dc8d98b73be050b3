use vstd::prelude::*;

verus! {

/// What the code driving a connect attempt can observe, in the order it observes it.
/// Where the connector and the tick budget finish together, the connector's
/// event is reported first.
#[derive(Clone, Copy, Debug, PartialEq, Eq, Structural)]
pub enum RaceEvent {
    /// One tick of the timeout's tick stream.
    Tick,
    /// The tick stream ended: the timer is gone.
    TicksEnded,
    /// The connector produced a channel.
    Connected,
    /// The connector refused.
    Refused,
}

/// Where a connect-with-timeout attempt stands.
#[derive(Clone, Copy, Debug, PartialEq, Eq, Structural)]
pub enum RaceOutcome {
    Waiting,
    Connected,
    Refused,
    TimedOut,
}

/// The outcome of racing a connect attempt against `left` ticks, given the
/// events observed so far. With no event yet, a spent budget has timed out.
pub open spec fn race_outcome(left: nat, evs: Seq<RaceEvent>) -> RaceOutcome
    decreases evs.len(),
{
    if evs.len() == 0 {
        if left == 0 {
            RaceOutcome::TimedOut
        } else {
            RaceOutcome::Waiting
        }
    } else {
        match evs[0] {
            RaceEvent::Connected => RaceOutcome::Connected,
            RaceEvent::Refused => RaceOutcome::Refused,
            RaceEvent::TicksEnded => RaceOutcome::TimedOut,
            RaceEvent::Tick => if left <= 1 {
                RaceOutcome::TimedOut
            } else {
                race_outcome((left - 1) as nat, evs.drop_first())
            },
        }
    }
}

/// A connect attempt raced against a tick budget.
pub struct ConnectTimeout {
    ticks_left: u64,
    decided: RaceOutcome,
}

impl ConnectTimeout {
    pub closed spec fn ticks_left(&self) -> nat {
        self.ticks_left as nat
    }

    pub closed spec fn decided(&self) -> RaceOutcome {
        self.decided
    }

    /// The outcome once `evs` follow on what this attempt has seen.
    pub open spec fn outcome_after(&self, evs: Seq<RaceEvent>) -> RaceOutcome {
        if self.decided() != RaceOutcome::Waiting {
            self.decided()
        } else {
            race_outcome(self.ticks_left(), evs)
        }
    }

    pub fn new(conn_timeout_ticks: usize) -> (r: ConnectTimeout)
        ensures
            r.ticks_left() == conn_timeout_ticks,
            r.decided() == RaceOutcome::Waiting,
    {
        ConnectTimeout { ticks_left: conn_timeout_ticks as u64, decided: RaceOutcome::Waiting }
    }

    /// The outcome if nothing more is observed now.
    pub fn outcome(&self) -> (r: RaceOutcome)
        ensures
            r == self.outcome_after(Seq::empty()),
    {
        if self.decided != RaceOutcome::Waiting {
            self.decided
        } else if self.ticks_left == 0 {
            RaceOutcome::TimedOut
        } else {
            RaceOutcome::Waiting
        }
    }

    /// Takes in one observed event; the first event that settles the race decides it.
    pub fn step(&mut self, ev: RaceEvent) -> (r: RaceOutcome)
        ensures
            forall|evs: Seq<RaceEvent>| #[trigger] final(self).outcome_after(evs)
                == old(self).outcome_after(seq![ev] + evs),
            r == final(self).outcome_after(Seq::empty()),
    {
        proof {
            assert forall|evs: Seq<RaceEvent>| #[trigger] (seq![ev] + evs).drop_first() == evs by {
                assert((seq![ev] + evs).drop_first() =~= evs);
            }
        }
        if self.decided == RaceOutcome::Waiting {
            match ev {
                RaceEvent::Connected => {
                    self.decided = RaceOutcome::Connected;
                },
                RaceEvent::Refused => {
                    self.decided = RaceOutcome::Refused;
                },
                RaceEvent::TicksEnded => {
                    self.decided = RaceOutcome::TimedOut;
                },
                RaceEvent::Tick => {
                    if self.ticks_left <= 1 {
                        self.decided = RaceOutcome::TimedOut;
                    } else {
                        self.ticks_left = self.ticks_left - 1;
                    }
                },
            }
        }
        self.outcome()
    }
}

/// The outcome of racing a connector against `conn_timeout_ticks` ticks,
/// given the events in the order they were observed: the channel if the
/// connector wins, a timeout if the budget is spent or the timer ends first.
pub fn connect_with_timeout(conn_timeout_ticks: usize, events: &Vec<RaceEvent>) -> (r: RaceOutcome)
    ensures
        r == race_outcome(conn_timeout_ticks as nat, events@),
{
    let mut race = ConnectTimeout::new(conn_timeout_ticks);
    let mut i: usize = 0;
    assert(events@.skip(0) =~= events@);
    while i < events.len()
        invariant
            i <= events@.len(),
            race.outcome_after(events@.skip(i as int)) == race_outcome(conn_timeout_ticks as nat, events@),
        decreases events@.len() - i,
    {
        let ghost rest = events@.skip(i as int);
        assert(rest =~= seq![events@[i as int]] + events@.skip(i + 1));
        race.step(events[i]);
        i = i + 1;
    }
    assert(events@.skip(i as int) =~= Seq::<RaceEvent>::empty());
    race.outcome()
}

} // verus!
