//! The pointer agent. It keeps an intended position with sub-pixel
//! precision, lets a human's movement override it, and commands the backend
//! only once the intended position has drifted visibly from where the
//! pointer is.

use vstd::prelude::*;
use crate::backend::MouseBackend;
use crate::generator::StepGenerator;
use crate::types::{Position, VISIBILITY_THRESHOLD, axis_gap};

verus! {

/// What the agent remembers from one tick to the next.
#[derive(Clone, Copy, Debug, PartialEq, Eq, Structural)]
pub struct AgentState {
    /// Where the agent wants the pointer to be.
    pub intended: Position,
    /// Where the backend last said the pointer was.
    pub last_read: Position,
}

/// What the agent decides once it knows where the pointer is and which step
/// to take.
#[derive(Clone, Copy, Debug)]
pub struct Plan {
    /// The new intended position.
    pub intended: Position,
    /// The position to command, if the drift has become visible.
    pub move_to: Option<Position>,
}

/// One tick as it went: what the collaborators returned, and what the agent
/// commanded.
#[derive(Clone, Copy, Debug)]
pub struct Tick {
    /// The pointer's position as read at the start of the tick.
    pub observed: Position,
    /// The step the generator produced.
    pub step: Position,
    /// The position the backend was told to move to, if any.
    pub moved_to: Option<Position>,
    /// The pointer's position as read at the end of the tick.
    pub settled: Position,
}

/// One call of the agent on a collaborator: a read of the pointer with the
/// position it gave, a step drawn from the generator, or a move of the
/// pointer with the position it was handed.
pub enum Call {
    Read(Position),
    Step(Position),
    Move(Position),
}

/// The calls that make up a tick, in their order: the pointer is read, a
/// step is drawn, the pointer is moved if the tick commands it, and the
/// pointer is read again.
pub open spec fn tick_calls(tick: Tick) -> Seq<Call> {
    let opening = seq![Call::Read(tick.observed), Call::Step(tick.step)];
    let closing = seq![Call::Read(tick.settled)];
    match tick.moved_to {
        Some(target) => opening.push(Call::Move(target)) + closing,
        None => opening + closing,
    }
}

/// The intended position once the observed one is taken into account: where
/// the pointer was moved by hand since the last read, the observed position
/// replaces it.
pub open spec fn reconcile_spec(
    intended: Position,
    last_read: Position,
    observed: Position,
) -> Position {
    if observed.diverges_from_spec(last_read) {
        observed
    } else {
        intended
    }
}

/// The intended position at the end of a tick.
pub open spec fn target_spec(
    intended: Position,
    last_read: Position,
    observed: Position,
    step: Position,
) -> Position {
    reconcile_spec(intended, last_read, observed).offset_spec(step)
}

/// The position a tick commands: the new intended position where it lies
/// visibly apart from the observed one, nothing otherwise.
pub open spec fn move_spec(
    intended: Position,
    last_read: Position,
    observed: Position,
    step: Position,
) -> Option<Position> {
    let target = target_spec(intended, last_read, observed, step);
    if target.diverges_from_spec(observed) {
        Some(target)
    } else {
        None
    }
}

/// The agent's memory after a tick.
pub open spec fn after_tick(state: AgentState, tick: Tick) -> AgentState {
    AgentState {
        intended: target_spec(state.intended, state.last_read, tick.observed, tick.step),
        last_read: tick.settled,
    }
}

/// The agent's memory after a run of ticks, oldest first.
pub open spec fn after_ticks(state: AgentState, ticks: Seq<Tick>) -> AgentState
    decreases ticks.len(),
{
    if ticks.len() == 0 {
        state
    } else {
        after_tick(after_ticks(state, ticks.drop_last()), ticks.last())
    }
}

/// Whether no tick of the run saw the pointer further than the threshold
/// from where the read before it had left it.
pub open spec fn undisturbed(state: AgentState, ticks: Seq<Tick>) -> bool
    decreases ticks.len(),
{
    if ticks.len() == 0 {
        true
    } else {
        &&& undisturbed(state, ticks.drop_last())
        &&& !ticks.last().observed.diverges_from_spec(
            after_ticks(state, ticks.drop_last()).last_read,
        )
    }
}

/// `start` moved by the step of every tick in turn.
pub open spec fn accumulated(start: Position, ticks: Seq<Tick>) -> Position
    decreases ticks.len(),
{
    if ticks.len() == 0 {
        start
    } else {
        accumulated(start, ticks.drop_last()).offset_spec(ticks.last().step)
    }
}

/// The sum of the steps of a run along the x axis.
pub open spec fn drift_x(ticks: Seq<Tick>) -> int
    decreases ticks.len(),
{
    if ticks.len() == 0 {
        0
    } else {
        drift_x(ticks.drop_last()) + ticks.last().step.x
    }
}

/// The sum of the steps of a run along the y axis.
pub open spec fn drift_y(ticks: Seq<Tick>) -> int
    decreases ticks.len(),
{
    if ticks.len() == 0 {
        0
    } else {
        drift_y(ticks.drop_last()) + ticks.last().step.y
    }
}

/// Whether `start`, moved by the steps of the run one after another, stays
/// within the range of the coordinates all the way.
pub open spec fn stays_in_range(start: Position, ticks: Seq<Tick>) -> bool
    decreases ticks.len(),
{
    if ticks.len() == 0 {
        true
    } else {
        &&& stays_in_range(start, ticks.drop_last())
        &&& i64::MIN <= start.x + drift_x(ticks) <= i64::MAX
        &&& i64::MIN <= start.y + drift_y(ticks) <= i64::MAX
    }
}

/// The intended position once the observed one is taken into account.
pub fn reconcile(intended: Position, last_read: Position, observed: Position) -> (r: Position)
    ensures
        r == reconcile_spec(intended, last_read, observed),
{
    if observed.diverges_from(last_read) {
        observed
    } else {
        intended
    }
}

/// What a tick does, given the agent's memory, the position just read and
/// the step just drawn.
pub fn plan(
    intended: Position,
    last_read: Position,
    observed: Position,
    step: Position,
) -> (p: Plan)
    ensures
        p.intended == target_spec(intended, last_read, observed, step),
        p.move_to == move_spec(intended, last_read, observed, step),
{
    let target = reconcile(intended, last_read, observed).offset(step);
    let move_to = if target.diverges_from(observed) {
        Some(target)
    } else {
        None
    };
    Plan { intended: target, move_to }
}

/// Moves the pointer along the steps of its generator, a visible amount at a
/// time, and gives way where the pointer was moved by hand.
pub struct MouseAgent<B, S> where B: MouseBackend {
    backend: B,
    last_read_pos: Position,
    pos: Position,
    step_generator: S,
    calls: Ghost<Seq<Call>>,
}

impl<B, S> MouseAgent<B, S> where B: MouseBackend, S: StepGenerator {
    /// What the agent remembers.
    pub closed spec fn view(&self) -> AgentState {
        AgentState { intended: self.pos, last_read: self.last_read_pos }
    }

    /// The pointer this agent reads and moves.
    pub closed spec fn backend(&self) -> B {
        self.backend
    }

    /// The generator this agent takes its steps from.
    pub closed spec fn step_generator(&self) -> S {
        self.step_generator
    }

    /// Every call this agent has made on its backend and its generator,
    /// oldest first.
    pub closed spec fn calls(&self) -> Seq<Call> {
        self.calls@
    }

    /// An agent that takes `pos` for the pointer's position, without a call
    /// on the backend.
    pub fn starting_at(backend: B, step_generator: S, pos: Position) -> (agent: Self)
        ensures
            agent@ == (AgentState { intended: pos, last_read: pos }),
            agent.backend() == backend,
            agent.step_generator() == step_generator,
            agent.calls() == Seq::<Call>::empty(),
    {
        MouseAgent {
            backend,
            last_read_pos: pos,
            pos,
            step_generator,
            calls: Ghost(Seq::empty()),
        }
    }

    /// An agent that starts where the backend says the pointer is. The
    /// backend is read once and commanded nothing.
    pub fn new(backend: B, step_generator: S) -> (agent: Self)
        ensures
            backend.may_report(agent@.intended),
            agent@.intended == agent@.last_read,
            agent.calls() == seq![Call::Read(agent@.intended)],
            agent.backend() == backend,
            agent.step_generator() == step_generator,
    {
        let pos = backend.read_mouse_position();
        MouseAgent {
            backend,
            last_read_pos: pos,
            pos,
            step_generator,
            calls: Ghost(Seq::empty().push(Call::Read(pos))),
        }
    }

    /// Where the agent wants the pointer to be.
    pub fn intended_pos(&self) -> (pos: Position)
        ensures
            pos == self@.intended,
    {
        self.pos
    }

    /// Where the backend last said the pointer was.
    pub fn last_read_pos(&self) -> (pos: Position)
        ensures
            pos == self@.last_read,
    {
        self.last_read_pos
    }

    /// Reads the pointer, and notes the call.
    fn read(&mut self) -> (pos: Position)
        ensures
            old(self).backend().may_report(pos),
            final(self)@ == old(self)@,
            final(self).backend() == old(self).backend(),
            final(self).step_generator() == old(self).step_generator(),
            final(self).calls() == old(self).calls().push(Call::Read(pos)),
    {
        let pos = self.backend.read_mouse_position();
        self.calls = Ghost(self.calls@.push(Call::Read(pos)));
        pos
    }

    /// Draws a step, and notes the call.
    fn draw(&mut self) -> (step: Position)
        ensures
            old(self).step_generator().may_step(step),
            old(self).step_generator().follows_step(step, &final(self).step_generator()),
            final(self)@ == old(self)@,
            final(self).backend() == old(self).backend(),
            final(self).calls() == old(self).calls().push(Call::Step(step)),
    {
        let step = self.step_generator.step();
        self.calls = Ghost(self.calls@.push(Call::Step(step)));
        step
    }

    /// Moves the pointer, and notes the call.
    fn command(&mut self, target: Position)
        ensures
            old(self).backend().follows_move(target, &final(self).backend()),
            final(self)@ == old(self)@,
            final(self).step_generator() == old(self).step_generator(),
            final(self).calls() == old(self).calls().push(Call::Move(target)),
    {
        self.backend.move_mouse(target);
        self.calls = Ghost(self.calls@.push(Call::Move(target)));
    }

    /// One tick. The agent reads the pointer, takes the observed position
    /// for its own where the pointer was moved by hand, adds one step of the
    /// generator, commands the backend to the result if that lies visibly
    /// apart from the observed position, and reads the pointer again.
    ///
    /// The returned record holds what was read and drawn, and the position
    /// handed to the backend, if any; the agent's memory and the calls it
    /// made follow from it. What was read is what the backend reports, the
    /// step is one of the generator's, and backend and generator are left as
    /// one move at most, and one step, leave them.
    pub fn update(&mut self) -> (tick: Tick)
        ensures
            final(self)@ == after_tick(old(self)@, tick),
            tick.moved_to == move_spec(
                old(self)@.intended,
                old(self)@.last_read,
                tick.observed,
                tick.step,
            ),
            final(self).calls() == old(self).calls() + tick_calls(tick),
            old(self).backend().may_report(tick.observed),
            old(self).step_generator().may_step(tick.step),
            old(self).step_generator().follows_step(tick.step, &final(self).step_generator()),
            match tick.moved_to {
                Some(target) => old(self).backend().follows_move(
                    target,
                    &final(self).backend(),
                ),
                None => final(self).backend() == old(self).backend(),
            },
            final(self).backend().may_report(tick.settled),
    {
        let observed = self.read();
        let step = self.draw();
        let decided = plan(self.pos, self.last_read_pos, observed, step);
        self.pos = decided.intended;
        self.last_read_pos = observed;
        match decided.move_to {
            Some(target) => {
                self.command(target);
            },
            None => {},
        }
        let settled = self.read();
        self.last_read_pos = settled;
        let tick = Tick { observed, step, moved_to: decided.move_to, settled };
        assert(self.calls() =~= old(self).calls() + tick_calls(tick));
        tick
    }
}

/// A pointer moved by hand takes the agent with it: where the observed
/// position lies further than the threshold from the last read one, the tick
/// starts over from the observed position, and whatever the agent intended
/// before has no part in what it intends or commands after.
pub proof fn lemma_manual_move_resets(
    intended: Position,
    other_intended: Position,
    last_read: Position,
    observed: Position,
    step: Position,
)
    requires
        observed.diverges_from_spec(last_read),
    ensures
        reconcile_spec(intended, last_read, observed) == observed,
        target_spec(intended, last_read, observed, step) == observed.offset_spec(step),
        target_spec(intended, last_read, observed, step) == target_spec(
            other_intended,
            last_read,
            observed,
            step,
        ),
        move_spec(intended, last_read, observed, step) == move_spec(
            other_intended,
            last_read,
            observed,
            step,
        ),
{
}

/// After a manual move the agent does not pull the pointer back: a step no
/// longer than the threshold on each axis commands nothing, and any other
/// step commands the observed position moved by that step.
pub proof fn lemma_no_snap_back(
    intended: Position,
    last_read: Position,
    observed: Position,
    step: Position,
)
    requires
        observed.diverges_from_spec(last_read),
    ensures
        move_spec(intended, last_read, observed, step) == None::<Position> || move_spec(
            intended,
            last_read,
            observed,
            step,
        ) == Some(observed.offset_spec(step)),
        axis_gap(step.x, 0) <= VISIBILITY_THRESHOLD && axis_gap(step.y, 0)
            <= VISIBILITY_THRESHOLD ==> move_spec(intended, last_read, observed, step)
            == None::<Position>,
{
}

/// A tick that finds the pointer where it was left, and draws a step of
/// length zero, commands nothing and leaves the intended position alone,
/// provided the intended position lay within the threshold of the pointer.
pub proof fn lemma_idle_tick_commands_nothing(intended: Position, last_read: Position)
    requires
        !intended.diverges_from_spec(last_read),
    ensures
        move_spec(intended, last_read, last_read, Position { x: 0, y: 0 }) == None::<Position>,
        target_spec(intended, last_read, last_read, Position { x: 0, y: 0 }) == intended,
{
}

/// Without a manual move, the intended position takes every step and nothing
/// else: what the backend reported along the way has no part in it.
pub proof fn lemma_undisturbed_accumulates(state: AgentState, ticks: Seq<Tick>)
    requires
        undisturbed(state, ticks),
    ensures
        after_ticks(state, ticks).intended == accumulated(state.intended, ticks),
    decreases ticks.len(),
{
    if ticks.len() > 0 {
        lemma_undisturbed_accumulates(state, ticks.drop_last());
    }
}

/// From a manual move on, and until the next one, the intended position is
/// the position observed at that move with every step since added to it.
pub proof fn lemma_accumulates_since_reset(state: AgentState, reset: Tick, rest: Seq<Tick>)
    requires
        reset.observed.diverges_from_spec(state.last_read),
        undisturbed(after_tick(state, reset), rest),
    ensures
        after_ticks(after_tick(state, reset), rest).intended == accumulated(
            reset.observed.offset_spec(reset.step),
            rest,
        ),
{
    lemma_undisturbed_accumulates(after_tick(state, reset), rest);
}

/// While the coordinates stay in range, accumulating steps is adding them
/// up.
pub proof fn lemma_accumulated_is_sum(start: Position, ticks: Seq<Tick>)
    requires
        stays_in_range(start, ticks),
    ensures
        accumulated(start, ticks).x == start.x + drift_x(ticks),
        accumulated(start, ticks).y == start.y + drift_y(ticks),
    decreases ticks.len(),
{
    if ticks.len() > 0 {
        lemma_accumulated_is_sum(start, ticks.drop_last());
    }
}

} // verus!
