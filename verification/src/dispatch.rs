//! The dispatch loop: from batches of input events to playback commands.
//!
//! The loop has two states. While idle it waits for the next batch of input
//! events. While draining it takes the events of the batch in order: an
//! event that asks for a playback becomes a command to play, every other
//! event is passed over. When the batch is used up the loop is idle again.
//! How a playback ended never changes what happens next.
//!
//! The loop itself does no input and plays no sound. It is driven from
//! outside: each call of [`Dispatcher::step`] takes what the outside has to
//! report and returns what the outside is to do next.
use crate::event::{react, reaction, Event, Playback, PlaybackModel};
use crate::pack::{PackModel, SoundPack};
use crate::table::{join_path, table_of, SoundFileTable};
use std::collections::VecDeque;
use vstd::prelude::*;

verus! {

/// The two states of the dispatch loop.
#[derive(Clone, Copy, Debug, PartialEq, Eq)]
pub enum Phase {
    /// Waiting for the next batch of input events.
    Idle,
    /// Going through the events of a batch.
    Draining,
}

/// How a playback ended.
#[derive(Clone, Copy, Debug, PartialEq, Eq)]
pub enum Outcome {
    Finished,
    Failed,
}

/// What the outside reports to the loop.
#[derive(Clone, Debug, PartialEq, Eq)]
pub enum Signal {
    /// The input source delivered these events, oldest first.
    Batch(Vec<Event>),
    /// The playback last commanded has ended.
    Played(Outcome),
}

/// What the loop asks of the outside next.
#[derive(Clone, Debug, PartialEq, Eq)]
pub enum Command {
    /// Wait for input, then report the batch.
    Poll,
    /// Make this playback, then report how it ended.
    Play(Playback),
}

/// The dispatch loop as mathematical values.
pub ghost struct LoopModel {
    pub pack: PackModel,
    pub table: Map<Seq<char>, Seq<char>>,
    /// The events received and not yet looked at, oldest first.
    pub pending: Seq<Event>,
    pub phase: Phase,
}

/// The events that `signal` brings.
pub open spec fn arrivals(signal: Signal) -> Seq<Event> {
    match signal {
        Signal::Batch(events) => events@,
        Signal::Played(_) => Seq::empty(),
    }
}

/// How many events at the front of `events` ask for no playback.
pub open spec fn silent_prefix(
    defines: Map<Seq<char>, Seq<u32>>,
    table: Map<Seq<char>, Seq<char>>,
    events: Seq<Event>,
) -> nat
    decreases events.len(),
{
    if events.len() == 0 || reaction(defines, table, events[0]) is Some {
        0
    } else {
        1 + silent_prefix(defines, table, events.drop_first())
    }
}

/// One step of the loop: the events that the signal brings join the pending
/// ones at the back; the loop then passes over events up to the first that
/// asks for a playback and commands it, or finds none, and is idle.
pub open spec fn step_model(model: LoopModel, signal: Signal) -> (LoopModel, Option<PlaybackModel>) {
    let queue = model.pending + arrivals(signal);
    let passed = silent_prefix(model.pack.defines, model.table, queue);
    if passed < queue.len() {
        (
            LoopModel { pending: queue.skip(passed as int + 1), phase: Phase::Draining, ..model },
            reaction(model.pack.defines, model.table, queue[passed as int]),
        )
    } else {
        (LoopModel { pending: Seq::empty(), phase: Phase::Idle, ..model }, None)
    }
}

/// Whether `command` is the command for `expected`: to play it, or to poll
/// where there is nothing to play.
pub open spec fn same_command(command: Command, expected: Option<PlaybackModel>) -> bool {
    match command {
        Command::Play(playback) => expected == Some(playback@),
        Command::Poll => expected is None,
    }
}

/// `silent_prefix` is the index of the first event that asks for a playback,
/// or the length where none does.
pub proof fn lemma_silent_prefix(
    defines: Map<Seq<char>, Seq<u32>>,
    table: Map<Seq<char>, Seq<char>>,
    events: Seq<Event>,
    passed: int,
)
    requires
        0 <= passed <= events.len(),
        forall|i: int| 0 <= i < passed ==> reaction(defines, table, #[trigger] events[i]) is None,
        passed < events.len() ==> reaction(defines, table, events[passed]) is Some,
    ensures
        silent_prefix(defines, table, events) == passed,
    decreases passed,
{
    if passed > 0 {
        let rest = events.drop_first();
        assert forall|i: int| 0 <= i < passed - 1 implies reaction(
            defines,
            table,
            #[trigger] rest[i],
        ) is None by {
            assert(rest[i] == events[i + 1]);
        }
        lemma_silent_prefix(defines, table, rest, passed - 1);
    }
}

/// The dispatch loop: a sound pack, its table, and the input events that
/// wait their turn.
pub struct Dispatcher {
    pack: SoundPack,
    table: SoundFileTable,
    pending: VecDeque<Event>,
    phase: Phase,
}

impl View for Dispatcher {
    type V = LoopModel;

    closed spec fn view(&self) -> LoopModel {
        LoopModel {
            pack: self.pack@,
            table: self.table@,
            pending: self.pending@,
            phase: self.phase,
        }
    }
}

impl Dispatcher {
    /// An idle loop for `pack` and `table`, with no event pending.
    pub fn new(pack: SoundPack, table: SoundFileTable) -> (dispatcher: Dispatcher)
        ensures
            dispatcher@ == (LoopModel {
                pack: pack@,
                table: table@,
                pending: Seq::empty(),
                phase: Phase::Idle,
            }),
    {
        Dispatcher { pack, table, pending: VecDeque::new(), phase: Phase::Idle }
    }

    /// An idle loop for `pack` with its files in `folder`: the table is the
    /// one built for the pack there.
    pub fn start(pack: SoundPack, folder: &str) -> (dispatcher: Dispatcher)
        ensures
            dispatcher@ == (LoopModel {
                pack: pack@,
                table: table_of(pack@.defines.dom(), join_path(folder@, pack@.sound)),
                pending: Seq::empty(),
                phase: Phase::Idle,
            }),
    {
        let table = SoundFileTable::build(&pack, folder);
        Dispatcher::new(pack, table)
    }

    /// The sound pack that the loop plays from.
    pub fn pack(&self) -> (pack: &SoundPack)
        ensures
            pack@ == self@.pack,
    {
        &self.pack
    }

    /// The table that the loop resolves files in.
    pub fn table(&self) -> (table: &SoundFileTable)
        ensures
            table@ == self@.table,
    {
        &self.table
    }

    /// The state that the loop is in.
    pub fn phase(&self) -> (phase: Phase)
        ensures
            phase == self@.phase,
    {
        self.phase
    }

    /// How many events wait their turn.
    pub fn pending_len(&self) -> (n: usize)
        ensures
            n == self@.pending.len(),
    {
        self.pending.len()
    }

    /// Takes what the outside reports and says what it is to do next.
    ///
    /// The events of a batch join the waiting ones at the back. The loop
    /// then takes waiting events from the front and passes over those that
    /// ask for no playback. The first that asks for one is taken too, and
    /// the loop, now draining, commands that playback. Where no waiting
    /// event asks for one, all of them are used up, and the loop, now idle,
    /// commands a poll. The report of a playback brings no events, and
    /// whether the playback finished or failed makes no difference.
    pub fn step(&mut self, signal: Signal) -> (command: Command)
        ensures
            final(self)@ == step_model(old(self)@, signal).0,
            same_command(command, step_model(old(self)@, signal).1),
    {
        let ghost defines = self.pack@.defines;
        let ghost table = self.table@;
        let ghost queue = self.pending@ + arrivals(signal);
        match signal {
            Signal::Batch(events) => {
                for event in it: events
                    invariant
                        self.pending@ == old(self).pending@ + it.seq().take(it.index() as int),
                        self.pack == old(self).pack,
                        self.table == old(self).table,
                        it.seq() == events@,
                {
                    self.pending.push_back(event);
                }
            },
            Signal::Played(_) => {},
        }
        let ghost mut passed: int = 0;
        loop
            invariant
                0 <= passed <= queue.len(),
                self.pending@ == queue.skip(passed),
                forall|i: int| 0 <= i < passed ==> reaction(defines, table, #[trigger] queue[i]) is None,
                self.pack == old(self).pack,
                self.table == old(self).table,
                defines == self.pack@.defines,
                table == self.table@,
                queue == old(self).pending@ + arrivals(signal),
            decreases queue.len() - passed,
        {
            match self.pending.pop_front() {
                Some(event) => {
                    assert(self.pending@ == queue.skip(passed + 1));
                    match react(&self.pack, &self.table, &event) {
                        Some(playback) => {
                            proof {
                                lemma_silent_prefix(defines, table, queue, passed);
                            }
                            self.phase = Phase::Draining;
                            return Command::Play(playback);
                        },
                        None => {
                            proof {
                                passed = passed + 1;
                            }
                        },
                    }
                },
                None => {
                    proof {
                        lemma_silent_prefix(defines, table, queue, passed);
                    }
                    self.phase = Phase::Idle;
                    assert(self.pending@ =~= Seq::<Event>::empty());
                    return Command::Poll;
                },
            }
        }
    }
}

/// The playbacks that `events` ask for, in the order of the events.
pub open spec fn plan(
    defines: Map<Seq<char>, Seq<u32>>,
    table: Map<Seq<char>, Seq<char>>,
    events: Seq<Event>,
) -> Seq<PlaybackModel>
    decreases events.len(),
{
    if events.len() == 0 {
        Seq::empty()
    } else {
        let rest = plan(defines, table, events.drop_first());
        match reaction(defines, table, events[0]) {
            Some(playback) => seq![playback] + rest,
            None => rest,
        }
    }
}

/// An idle loop that is handed one event commands what that event asks for,
/// and keeps nothing pending.
pub proof fn lemma_step_on_one_event(model: LoopModel, signal: Signal, event: Event)
    requires
        model.pending.len() == 0,
        arrivals(signal) == seq![event],
    ensures
        step_model(model, signal).1 == reaction(model.pack.defines, model.table, event),
        step_model(model, signal).0.pending.len() == 0,
{
    let queue = model.pending + arrivals(signal);
    if reaction(model.pack.defines, model.table, event) is Some {
        lemma_silent_prefix(model.pack.defines, model.table, queue, 0);
    } else {
        lemma_silent_prefix(model.pack.defines, model.table, queue, 1);
    }
}

/// How a playback ended changes neither the next command nor the state
/// after it: a failed playback holds nothing up.
pub proof fn lemma_outcome_changes_nothing(model: LoopModel, first: Outcome, second: Outcome)
    ensures
        step_model(model, Signal::Played(first)) == step_model(model, Signal::Played(second)),
{
}

/// The playbacks commanded from `signal` on until the loop is idle again,
/// when the playback commanded in round `n` ends as `outcomes(n)` says.
pub open spec fn drain(
    model: LoopModel,
    signal: Signal,
    outcomes: spec_fn(int) -> Outcome,
    round: int,
) -> Seq<PlaybackModel>
    decreases (model.pending + arrivals(signal)).len(),
{
    let (next, command) = step_model(model, signal);
    match command {
        Some(playback) => seq![playback] + drain(
            next,
            Signal::Played(outcomes(round)),
            outcomes,
            round + 1,
        ),
        None => Seq::empty(),
    }
}

/// Until it is idle again the loop commands every playback that the waiting
/// events ask for, in their order, and no other, however the playbacks
/// before it ended: a failure costs the playbacks behind it nothing.
pub proof fn lemma_drain_follows_plan(
    model: LoopModel,
    signal: Signal,
    outcomes: spec_fn(int) -> Outcome,
    round: int,
)
    ensures
        drain(model, signal, outcomes, round) == plan(
            model.pack.defines,
            model.table,
            model.pending + arrivals(signal),
        ),
    decreases (model.pending + arrivals(signal)).len(),
{
    lemma_step_follows_plan(model, signal);
    let (next, command) = step_model(model, signal);
    if command is Some {
        let report = Signal::Played(outcomes(round));
        lemma_drain_follows_plan(next, report, outcomes, round + 1);
    }
}

/// A step commands the first playback that the waiting events ask for and
/// keeps the events behind it waiting; it polls only when the waiting events
/// ask for none.
pub proof fn lemma_step_follows_plan(model: LoopModel, signal: Signal)
    ensures
        plan(model.pack.defines, model.table, model.pending + arrivals(signal)) == match step_model(
            model,
            signal,
        ).1 {
            Some(playback) => seq![playback] + plan(
                model.pack.defines,
                model.table,
                step_model(model, signal).0.pending,
            ),
            None => Seq::<PlaybackModel>::empty(),
        },
        step_model(model, signal).1 is None ==> step_model(model, signal).0.pending.len() == 0,
{
    lemma_plan_after_silent_prefix(model.pack.defines, model.table, model.pending + arrivals(signal));
}

/// The plan of a sequence of events starts with what the first event that
/// plays asks for, and goes on with the plan of the events behind it.
proof fn lemma_plan_after_silent_prefix(
    defines: Map<Seq<char>, Seq<u32>>,
    table: Map<Seq<char>, Seq<char>>,
    events: Seq<Event>,
)
    ensures
        silent_prefix(defines, table, events) <= events.len(),
        silent_prefix(defines, table, events) < events.len() ==> {
            let passed = silent_prefix(defines, table, events) as int;
            &&& reaction(defines, table, events[passed]) is Some
            &&& plan(defines, table, events) == seq![
                reaction(defines, table, events[passed])->0,
            ] + plan(defines, table, events.skip(passed + 1))
        },
        silent_prefix(defines, table, events) == events.len() ==> plan(defines, table, events)
            == Seq::<PlaybackModel>::empty(),
    decreases events.len(),
{
    if events.len() > 0 && reaction(defines, table, events[0]) is None {
        let rest = events.drop_first();
        lemma_plan_after_silent_prefix(defines, table, rest);
        let passed = silent_prefix(defines, table, rest) as int;
        if passed < rest.len() {
            assert(rest.skip(passed + 1) =~= events.skip(passed + 2));
        }
    }
}

} // verus!
