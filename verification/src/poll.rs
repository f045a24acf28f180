//! The measurement cycle of a bench, as a state machine.
//!
//! One cycle asks every known battery for a telemetry sample, in the order
//! in which the bench holds them, and then, if a slot is still empty, offers
//! an id to a battery that may have been put in since. The machine decides;
//! whoever owns the serial line sends each request and hands the reply, or
//! the failure to get one, back to it. A failure is recorded with the battery
//! it belongs to and the cycle goes on with the next.

use vstd::prelude::*;
use crate::bench::holds_id;
use crate::bench::well_formed;
use crate::bench::lowest_free_id;
use crate::bench::Battery;
use crate::bench::BatteryState;
use crate::bench::Bench;
use crate::bench::MAX_SLOTS;
use crate::exchange::assign_id_outcome;
use crate::exchange::assignment_request;
use crate::exchange::assignment_result;
use crate::exchange::data_request_for;
use crate::exchange::data_request_outcome;
use crate::exchange::offer_request;
use crate::exchange::telemetry_request;
use crate::exchange::telemetry_result;
use crate::exchange::ProtocolError;
use crate::exchange::TransportError;
use crate::frame::BatteryCommand;
use crate::frame::FrameContent;
use crate::payload::TelemetryReading;

verus! {

/// The time from the start of one cycle to the start of the next, in
/// milliseconds.
pub const CYCLE_PERIOD_MS: u64 = 1000;

/// Where a cycle stands.
#[derive(Debug, Clone, Copy, PartialEq, Eq, Structural)]
pub enum PollState {
    /// The battery at `index` has been asked for a sample and its reply is
    /// awaited.
    Polling { index: usize },
    /// The id `candidate` has been offered and the reply is awaited.
    Assigning { candidate: u8 },
    /// The cycle is over.
    Done,
}

/// What one step of a cycle found.
#[derive(Debug, Clone, Copy, PartialEq, Eq)]
pub enum PollReport {
    /// The sample of the battery `battery_id`, or why there is none.
    Reading { battery_id: u8, reading: Result<TelemetryReading, ProtocolError> },
    /// The outcome of offering `candidate`: the id that the device
    /// confirmed, or why there is none; `added` tells whether a battery with
    /// the confirmed id was taken into the bench.
    Assignment { candidate: u8, confirmed: Result<u8, ProtocolError>, added: bool },
    /// Nothing was awaited.
    Nothing,
}

/// What the serial line gave for one request: the bytes of the reply, or the
/// failure.
pub type Reply<'a> = Result<&'a [u8], TransportError>;

/// The state of a cycle in which the first `polled` batteries have been
/// dealt with: the next battery is polled; after the last, an id is offered
/// if a slot is empty; otherwise the cycle is over.
pub open spec fn stage_after(batteries: Seq<Battery>, polled: int) -> PollState {
    if 0 <= polled < batteries.len() {
        PollState::Polling { index: polled as usize }
    } else if batteries.len() < MAX_SLOTS {
        match lowest_free_id(batteries) {
            Some(candidate) => PollState::Assigning { candidate },
            None => PollState::Done,
        }
    } else {
        PollState::Done
    }
}

/// The request whose reply is awaited in `state`, if one is.
pub open spec fn awaited_request(batteries: Seq<Battery>, state: PollState) -> Option<
    FrameContent,
> {
    match state {
        PollState::Polling { index } => if index < batteries.len() {
            Some(telemetry_request(batteries[index as int].id))
        } else {
            None
        },
        PollState::Assigning { candidate } => Some(assignment_request(candidate)),
        PollState::Done => None,
    }
}

/// The result of a telemetry request to the battery `battery_id` for which
/// the serial line gave `reply`.
pub open spec fn reading_result(battery_id: u8, reply: Reply) -> Result<
    TelemetryReading,
    ProtocolError,
> {
    match reply {
        Err(error) => Err(ProtocolError::Transport(error)),
        Ok(bytes) => telemetry_result(telemetry_request(battery_id), bytes@),
    }
}

/// The result of offering `candidate` for which the serial line gave `reply`.
pub open spec fn offer_result(candidate: u8, reply: Reply) -> Result<u8, ProtocolError> {
    match reply {
        Err(error) => Err(ProtocolError::Transport(error)),
        Ok(bytes) => assignment_result(assignment_request(candidate), bytes@),
    }
}

/// Whether a battery with the confirmed id of `result` is taken into a bench
/// that holds `batteries`: the offer succeeded, a slot is empty and the id
/// is new to the bench.
pub open spec fn admits(batteries: Seq<Battery>, result: Result<u8, ProtocolError>) -> bool {
    match result {
        Ok(id) => batteries.len() < MAX_SLOTS && !holds_id(batteries, id),
        Err(_) => false,
    }
}

/// What the step taken in `state` on `reply` reports.
pub open spec fn step_report(batteries: Seq<Battery>, state: PollState, reply: Reply) -> PollReport {
    match state {
        PollState::Polling { index } => if index < batteries.len() {
            PollReport::Reading {
                battery_id: batteries[index as int].id,
                reading: reading_result(batteries[index as int].id, reply),
            }
        } else {
            PollReport::Nothing
        },
        PollState::Assigning { candidate } => PollReport::Assignment {
            candidate,
            confirmed: offer_result(candidate, reply),
            added: admits(batteries, offer_result(candidate, reply)),
        },
        PollState::Done => PollReport::Nothing,
    }
}

/// The batteries of the bench after the step taken in `state` on `reply`.
/// Only a successful offer changes them.
pub open spec fn step_batteries(batteries: Seq<Battery>, state: PollState, reply: Reply) -> Seq<
    Battery,
> {
    match state {
        PollState::Assigning { candidate } => if admits(
            batteries,
            offer_result(candidate, reply),
        ) {
            batteries.push(
                Battery {
                    id: offer_result(candidate, reply)->Ok_0,
                    state: BatteryState::Standby,
                },
            )
        } else {
            batteries
        },
        _ => batteries,
    }
}

/// The state after the step taken in `state`. It does not depend on the
/// reply: a failure never ends the cycle early.
pub open spec fn step_state(batteries: Seq<Battery>, state: PollState) -> PollState {
    match state {
        PollState::Polling { index } => if index < batteries.len() {
            stage_after(batteries, index + 1)
        } else {
            PollState::Done
        },
        PollState::Assigning { candidate } => PollState::Done,
        PollState::Done => PollState::Done,
    }
}

/// The reports of the steps that a cycle standing in `state` takes when it is
/// fed `replies` in turn, until the replies run out or the cycle is over.
pub open spec fn cycle_reports(batteries: Seq<Battery>, state: PollState, replies: Seq<Reply>) -> Seq<
    PollReport,
>
    decreases replies.len(),
{
    if replies.len() == 0 || state == PollState::Done {
        Seq::empty()
    } else {
        seq![step_report(batteries, state, replies[0])] + cycle_reports(
            step_batteries(batteries, state, replies[0]),
            step_state(batteries, state),
            replies.drop_first(),
        )
    }
}

/// The batteries of the bench after those steps.
pub open spec fn cycle_batteries(batteries: Seq<Battery>, state: PollState, replies: Seq<Reply>) -> Seq<
    Battery,
>
    decreases replies.len(),
{
    if replies.len() == 0 || state == PollState::Done {
        batteries
    } else {
        cycle_batteries(
            step_batteries(batteries, state, replies[0]),
            step_state(batteries, state),
            replies.drop_first(),
        )
    }
}

impl Bench {
    /// Begins a cycle: tells which reply is awaited first.
    pub fn start_sequence(&self) -> (state: PollState)
        ensures
            state == stage_after(self@.batteries, 0),
    {
        self.stage(0)
    }

    /// The state of a cycle in which the first `polled` batteries have been
    /// dealt with.
    fn stage(&self, polled: usize) -> (state: PollState)
        ensures
            state == stage_after(self@.batteries, polled as int),
    {
        let batteries = self.batteries();
        if polled < batteries.len() {
            PollState::Polling { index: polled }
        } else if batteries.len() < MAX_SLOTS {
            PollState::Assigning { candidate: self.next_free_id() }
        } else {
            PollState::Done
        }
    }

    /// The request to send in `state`, or `None` where nothing is to be sent.
    pub fn sequence_request(&self, state: PollState) -> (request: Option<BatteryCommand>)
        ensures
            match request {
                Some(command) => awaited_request(self@.batteries, state) == Some(command@),
                None => awaited_request(self@.batteries, state) is None,
            },
    {
        let batteries = self.batteries();
        match state {
            PollState::Polling { index } => {
                if index < batteries.len() {
                    Some(data_request_for(&batteries[index]))
                } else {
                    None
                }
            },
            PollState::Assigning { candidate } => Some(offer_request(candidate)),
            PollState::Done => None,
        }
    }

    /// Takes one step of a cycle: judges `reply`, which the serial line gave
    /// for the request of `state`, takes a newly assigned battery into the
    /// bench, and tells what was found and where the cycle stands now.
    pub fn complete_sequence_step(&mut self, state: PollState, reply: Reply) -> (outcome: (
        PollReport,
        PollState,
    ))
        ensures
            outcome.0 == step_report(old(self)@.batteries, state, reply),
            outcome.1 == step_state(old(self)@.batteries, state),
            final(self)@.batteries == step_batteries(old(self)@.batteries, state, reply),
            final(self)@.port == old(self)@.port,
    {
        match state {
            PollState::Polling { index } => {
                let batteries = self.batteries();
                if index < batteries.len() {
                    let battery = batteries[index];
                    let result = match reply {
                        Err(error) => Err(ProtocolError::Transport(error)),
                        Ok(bytes) => data_request_outcome(&data_request_for(&battery), bytes),
                    };
                    let next = self.stage(index + 1);
                    (PollReport::Reading { battery_id: battery.id, reading: result }, next)
                } else {
                    (PollReport::Nothing, PollState::Done)
                }
            },
            PollState::Assigning { candidate } => {
                let result = match reply {
                    Err(error) => Err(ProtocolError::Transport(error)),
                    Ok(bytes) => assign_id_outcome(&offer_request(candidate), bytes),
                };
                let added = match result {
                    Ok(id) => self.add_battery(id),
                    Err(_) => false,
                };
                (PollReport::Assignment { candidate, confirmed: result, added }, PollState::Done)
            },
            PollState::Done => (PollReport::Nothing, PollState::Done),
        }
    }

    /// Runs a cycle from its start on replies that are already at hand,
    /// `replies[0]` for the first request, and returns the report of every
    /// step taken. The cycle stops early where the replies run out.
    pub fn complete_sequence(&mut self, replies: &[Reply]) -> (reports: Vec<PollReport>)
        ensures
            reports@ == cycle_reports(
                old(self)@.batteries,
                stage_after(old(self)@.batteries, 0),
                replies@,
            ),
            final(self)@.batteries == cycle_batteries(
                old(self)@.batteries,
                stage_after(old(self)@.batteries, 0),
                replies@,
            ),
            final(self)@.port == old(self)@.port,
    {
        let ghost first_batteries = self@.batteries;
        let ghost first_state = stage_after(first_batteries, 0);
        let ghost port = self@.port;
        let mut reports: Vec<PollReport> = Vec::new();
        let mut state = self.start_sequence();
        let mut taken: usize = 0;
        proof {
            assert(replies@.subrange(0, replies@.len() as int) =~= replies@);
        }
        while taken < replies.len() && state != PollState::Done
            invariant
                taken <= replies@.len(),
                self@.port == port,
                reports@ + cycle_reports(
                    self@.batteries,
                    state,
                    replies@.subrange(taken as int, replies@.len() as int),
                ) == cycle_reports(first_batteries, first_state, replies@),
                cycle_batteries(
                    self@.batteries,
                    state,
                    replies@.subrange(taken as int, replies@.len() as int),
                ) == cycle_batteries(first_batteries, first_state, replies@),
            decreases replies@.len() - taken,
        {
            let ghost rest = replies@.subrange(taken as int, replies@.len() as int);
            let outcome = self.complete_sequence_step(state, replies[taken]);
            reports.push(outcome.0);
            proof {
                assert(rest.drop_first() =~= replies@.subrange(
                    taken + 1,
                    replies@.len() as int,
                ));
            }
            state = outcome.1;
            taken += 1;
        }
        reports
    }
}

/// Every step of a cycle leaves the bench within its slots and its ids
/// distinct, and removes no battery: it keeps the batteries as they are or
/// adds one, in standby, at the end.
pub proof fn lemma_step_keeps_bench(batteries: Seq<Battery>, state: PollState, reply: Reply)
    requires
        well_formed(batteries),
    ensures
        well_formed(step_batteries(batteries, state, reply)),
        step_batteries(batteries, state, reply) == batteries || ({
            let after = step_batteries(batteries, state, reply);
            &&& after.drop_last() == batteries
            &&& after.last().state == BatteryState::Standby
            &&& !holds_id(batteries, after.last().id)
        }),
{
    let after = step_batteries(batteries, state, reply);
    if after != batteries {
        assert(after.drop_last() =~= batteries);
    }
}

/// However a cycle runs, it leaves the bench within its slots and its ids
/// distinct, and every battery that the bench had is still there, in its
/// place.
pub proof fn lemma_cycle_keeps_bench(batteries: Seq<Battery>, state: PollState, replies: Seq<Reply>)
    requires
        well_formed(batteries),
    ensures
        well_formed(cycle_batteries(batteries, state, replies)),
        batteries.is_prefix_of(cycle_batteries(batteries, state, replies)),
    decreases replies.len(),
{
    if replies.len() > 0 && state != PollState::Done {
        let next = step_batteries(batteries, state, replies[0]);
        lemma_step_keeps_bench(batteries, state, replies[0]);
        lemma_cycle_keeps_bench(next, step_state(batteries, state), replies.drop_first());
        assert(batteries.is_prefix_of(next));
    }
}

/// The step awaited for a battery reports on that battery and moves the
/// cycle on to the next stage, whatever the reply was: a failure is recorded
/// and does not end the cycle.
pub proof fn lemma_failure_does_not_end_cycle(
    batteries: Seq<Battery>,
    index: usize,
    reply: Reply,
)
    requires
        index < batteries.len(),
    ensures
        step_state(batteries, PollState::Polling { index }) == stage_after(batteries, index + 1),
        step_batteries(batteries, PollState::Polling { index }, reply) == batteries,
        step_report(batteries, PollState::Polling { index }, reply) == (PollReport::Reading {
            battery_id: batteries[index as int].id,
            reading: reading_result(batteries[index as int].id, reply),
        }),
        reply is Err ==> reading_result(batteries[index as int].id, reply) == Err::<
            TelemetryReading,
            ProtocolError,
        >(ProtocolError::Transport(reply->Err_0)),
{
}

/// In a cycle that has dealt with the first `polled` batteries, report `i` is
/// that of battery `polled + i`, judged from reply `i` alone.
proof fn lemma_reading_at(batteries: Seq<Battery>, polled: int, replies: Seq<Reply>, i: int)
    requires
        batteries.len() <= MAX_SLOTS,
        0 <= polled,
        0 <= i < replies.len(),
        polled + i < batteries.len(),
    ensures
        i < cycle_reports(batteries, stage_after(batteries, polled), replies).len(),
        cycle_reports(batteries, stage_after(batteries, polled), replies)[i] == (
        PollReport::Reading {
            battery_id: batteries[polled + i].id,
            reading: reading_result(batteries[polled + i].id, replies[i]),
        }),
    decreases i,
{
    if i > 0 {
        lemma_reading_at(batteries, polled + 1, replies.drop_first(), i - 1);
    }
}

/// A cycle reports on every known battery, in the order of the bench, and
/// each report depends on the reply to that battery's request alone: what
/// went wrong with one battery changes nothing for another.
pub proof fn lemma_cycle_isolates_failures(batteries: Seq<Battery>, replies: Seq<Reply>, i: int)
    requires
        batteries.len() <= MAX_SLOTS,
        0 <= i < batteries.len(),
        i < replies.len(),
    ensures
        i < cycle_reports(batteries, stage_after(batteries, 0), replies).len(),
        cycle_reports(batteries, stage_after(batteries, 0), replies)[i] == (PollReport::Reading {
            battery_id: batteries[i].id,
            reading: reading_result(batteries[i].id, replies[i]),
        }),
{
    lemma_reading_at(batteries, 0, replies, i);
}

/// From the stage in which `polled` batteries have been dealt with, a cycle
/// that gets every reply it waits for takes one step for each battery left
/// and, where a slot is empty, one more, in which it offers the lowest free
/// id.
proof fn lemma_steps_from(batteries: Seq<Battery>, polled: int, replies: Seq<Reply>)
    requires
        batteries.len() <= MAX_SLOTS,
        0 <= polled <= batteries.len(),
        replies.len() >= batteries.len() - polled + 1,
    ensures
        cycle_reports(batteries, stage_after(batteries, polled), replies).len() == batteries.len()
            - polled + if batteries.len() < MAX_SLOTS {
            1int
        } else {
            0int
        },
        batteries.len() < MAX_SLOTS ==> cycle_reports(
            batteries,
            stage_after(batteries, polled),
            replies,
        ).last() == (PollReport::Assignment {
            candidate: lowest_free_id(batteries)->Some_0,
            confirmed: offer_result(
                lowest_free_id(batteries)->Some_0,
                replies[batteries.len() - polled],
            ),
            added: admits(
                batteries,
                offer_result(lowest_free_id(batteries)->Some_0, replies[batteries.len() - polled]),
            ),
        }),
    decreases batteries.len() - polled,
{
    crate::bench::lemma_free_id_exists(batteries);
    let state = stage_after(batteries, polled);
    let reports = cycle_reports(batteries, state, replies);
    let first = seq![step_report(batteries, state, replies[0])];
    if polled < batteries.len() {
        lemma_steps_from(batteries, polled + 1, replies.drop_first());
        assert(reports == first + cycle_reports(
            batteries,
            stage_after(batteries, polled + 1),
            replies.drop_first(),
        ));
    } else if batteries.len() < MAX_SLOTS {
        assert(cycle_reports(
            step_batteries(batteries, state, replies[0]),
            PollState::Done,
            replies.drop_first(),
        ) =~= Seq::<PollReport>::empty());
        assert(reports =~= first);
    }
}

/// A cycle that gets every reply it waits for takes one step for each known
/// battery and, where a slot is empty, exactly one more, in which it offers
/// the lowest free id. A bench with every slot taken offers none.
pub proof fn lemma_cycle_length(batteries: Seq<Battery>, replies: Seq<Reply>)
    requires
        batteries.len() <= MAX_SLOTS,
        replies.len() >= batteries.len() + 1,
    ensures
        cycle_reports(batteries, stage_after(batteries, 0), replies).len() == batteries.len()
            + if batteries.len() < MAX_SLOTS {
            1int
        } else {
            0int
        },
        batteries.len() < MAX_SLOTS ==> cycle_reports(
            batteries,
            stage_after(batteries, 0),
            replies,
        ).last() == (PollReport::Assignment {
            candidate: lowest_free_id(batteries)->Some_0,
            confirmed: offer_result(lowest_free_id(batteries)->Some_0, replies[batteries.len() as int]),
            added: admits(
                batteries,
                offer_result(lowest_free_id(batteries)->Some_0, replies[batteries.len() as int]),
            ),
        }),
{
    lemma_steps_from(batteries, 0, replies);
}

} // verus!
