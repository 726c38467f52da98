//! Bindings of actions and their evaluation, one tick at a time.

use bevy::math::FloatOrd;
use vstd::prelude::*;
use crate::action_value::ActionValue;
use crate::action_value::ActionValueDim;
use crate::input::GamepadDevice;
use crate::input::Input;
use crate::input_action::lookup;
use crate::input_action::state_in;
use crate::input_action::transition_event;
use crate::input_action::ActionData;
use crate::input_action::ActionEvent;
use crate::input_action::ActionEventKind;
use crate::input_action::ActionState;
use crate::input_action::ActionsData;
use crate::input_condition::Condition;
use crate::input_modifier::apply_chain;
use crate::input_modifier::is_chain_result;
use crate::input_modifier::Modifier;
use crate::input_reader::InputReader;
use crate::input_reader::InputSources;
use crate::input_reader::ReaderView;
use crate::input_reader::SourcesView;
use crate::number::plus;
use crate::number::sum_of;
use crate::number::zero;
use crate::trigger_tracker::advanced;
use crate::trigger_tracker::answers_of;
use crate::trigger_tracker::blocked_action_stays_idle;
use crate::trigger_tracker::chord_fires_only_with_every_member;
use crate::trigger_tracker::events_only_block_keeps_state;
use crate::trigger_tracker::evaluate_conditions;
use crate::trigger_tracker::TriggerTracker;

verus! {

/// The sum of the readings on each of the three axes, added first to last.
pub open spec fn total(readings: Seq<ActionValue>) -> (FloatOrd, FloatOrd, FloatOrd)
    decreases readings.len(),
{
    if readings.len() == 0 {
        (zero(), zero(), zero())
    } else if readings.len() == 1 {
        readings[0].spec_as_axis3d()
    } else {
        let before = total(readings.drop_last());
        let last = readings.last().spec_as_axis3d();
        (sum_of(before.0, last.0), sum_of(before.1, last.1), sum_of(before.2, last.2))
    }
}

/// The readings of the inputs of one action as one value of the dimension of
/// the action: a single reading converted, the sum of several, zero for none.
pub open spec fn spec_combine(readings: Seq<ActionValue>, dim: ActionValueDim) -> ActionValue {
    if readings.len() == 0 {
        ActionValue::spec_zero(dim)
    } else if readings.len() == 1 {
        readings[0].spec_convert(dim)
    } else {
        let sum = total(readings);
        ActionValue::Axis3D(sum.0, sum.1, sum.2).spec_convert(dim)
    }
}

/// Combines the readings of the inputs of one action into one value of the
/// given dimension.
pub fn combine(readings: &Vec<ActionValue>, dim: ActionValueDim) -> (r: ActionValue)
    ensures
        r == spec_combine(readings@, dim),
        r.spec_dim() == dim,
{
    if readings.len() == 0 {
        return ActionValue::zero(dim);
    }
    if readings.len() == 1 {
        return readings[0].convert(dim);
    }
    let mut sum = readings[0].as_axis3d();
    let mut i: usize = 1;
    proof {
        assert(readings@.take(1).len() == 1);
    }
    while i < readings.len()
        invariant
            1 <= i <= readings.len(),
            sum == total(readings@.take(i as int)),
        decreases readings.len() - i,
    {
        proof {
            assert(readings@.take(i + 1).drop_last() =~= readings@.take(i as int));
        }
        let next = readings[i].as_axis3d();
        sum = (plus(sum.0, next.0), plus(sum.1, next.1), plus(sum.2, next.2));
        i = i + 1;
    }
    proof {
        assert(readings@.take(i as int) =~= readings@);
    }
    ActionValue::Axis3D(sum.0, sum.1, sum.2).convert(dim)
}

/// The recipe by which one action is evaluated: the inputs that feed it, the
/// modifiers of its value and the conditions that decide its state.
pub struct Binding {
    /// Identity of the action.
    pub action: u32,
    /// Dimension of the value of the action.
    pub dim: ActionValueDim,
    /// Whether the inputs are consumed on ticks on which the action is active.
    pub consume_input: bool,
    /// The inputs, read in this order.
    pub inputs: Vec<Input>,
    /// The modifiers, applied in this order.
    pub modifiers: Vec<Modifier>,
    /// The conditions, evaluated in this order.
    pub conditions: Vec<Condition>,
}

/// What a [`Binding`] holds.
pub struct BindingView {
    pub action: u32,
    pub dim: ActionValueDim,
    pub consume_input: bool,
    pub inputs: Seq<Input>,
    pub modifiers: Seq<Modifier>,
    pub conditions: Seq<Condition>,
}

impl View for Binding {
    type V = BindingView;

    open spec fn view(&self) -> BindingView {
        BindingView {
            action: self.action,
            dim: self.dim,
            consume_input: self.consume_input,
            inputs: self.inputs@,
            modifiers: self.modifiers@,
            conditions: self.conditions@,
        }
    }
}

/// What one tick makes of one action.
pub struct Resolution {
    /// State of the action after the tick.
    pub state: ActionState,
    /// Whether a condition holds back the events of the action.
    pub events_blocked: bool,
}

impl BindingView {
    /// A binding without inputs, modifiers and conditions, which consumes.
    pub open spec fn empty(action: u32, dim: ActionValueDim) -> BindingView {
        BindingView {
            action,
            dim,
            consume_input: true,
            inputs: Seq::empty(),
            modifiers: Seq::empty(),
            conditions: Seq::empty(),
        }
    }

    /// What the conditions make of the modified value while the actions are in
    /// the given states.
    pub open spec fn resolve(
        self,
        actions: Seq<(u32, ActionData)>,
        delta: u64,
        value: ActionValue,
    ) -> Resolution {
        let tracker = TriggerTracker::of(answers_of(self.conditions, actions, delta, value));
        Resolution {
            state: tracker.spec_state(value.spec_as_bool()),
            events_blocked: tracker.events_blocked,
        }
    }

    /// The binding after the tick: its conditions have advanced.
    pub open spec fn after(
        self,
        actions: Seq<(u32, ActionData)>,
        delta: u64,
        value: ActionValue,
    ) -> BindingView {
        BindingView { conditions: advanced(self.conditions, actions, delta, value), ..self }
    }
}

impl Binding {
    /// Creates a binding without inputs, modifiers and conditions.
    #[must_use]
    pub fn new(action: u32, dim: ActionValueDim) -> (r: Binding)
        ensures
            r@ == BindingView::empty(action, dim),
    {
        Binding {
            action,
            dim,
            consume_input: true,
            inputs: Vec::new(),
            modifiers: Vec::new(),
            conditions: Vec::new(),
        }
    }

    /// Adds an input.
    #[must_use]
    pub fn with(self, input: Input) -> (r: Binding)
        ensures
            r@ == (BindingView { inputs: self@.inputs.push(input), ..self@ }),
    {
        let mut binding = self;
        binding.inputs.push(input);
        binding
    }

    /// Adds a modifier at the end of the chain.
    #[must_use]
    pub fn with_modifier(self, modifier: Modifier) -> (r: Binding)
        ensures
            r@ == (BindingView { modifiers: self@.modifiers.push(modifier), ..self@ }),
    {
        let mut binding = self;
        binding.modifiers.push(modifier);
        binding
    }

    /// Adds a condition at the end of the chain.
    #[must_use]
    pub fn with_condition(self, condition: Condition) -> (r: Binding)
        ensures
            r@ == (BindingView { conditions: self@.conditions.push(condition), ..self@ }),
    {
        let mut binding = self;
        binding.conditions.push(condition);
        binding
    }

    /// Sets whether the inputs are consumed while the action is active.
    #[must_use]
    pub fn with_consume_input(self, consume_input: bool) -> (r: Binding)
        ensures
            r@ == (BindingView { consume_input, ..self@ }),
    {
        let mut binding = self;
        binding.consume_input = consume_input;
        binding
    }

    /// Evaluates the conditions on the modified value and returns the state
    /// of the action.
    pub fn resolve(&mut self, actions: &ActionsData, delta: u64, value: ActionValue) -> (r:
        Resolution)
        ensures
            r == old(self)@.resolve(actions@, delta, value),
            final(self)@ == old(self)@.after(actions@, delta, value),
    {
        let tracker = evaluate_conditions(&mut self.conditions, actions, delta, value);
        Resolution { state: tracker.state(value.as_bool()), events_blocked: tracker.events_blocked }
    }
}

/// What a [`ContextInstance`] holds: the bindings in their order, and the live
/// state of the action of each.
pub struct ContextView {
    pub gamepad: GamepadDevice,
    pub bindings: Seq<BindingView>,
    pub actions: Seq<(u32, ActionData)>,
}

/// What the tick of one binding leaves behind.
pub struct Tick {
    pub context: ContextView,
    pub reader: ReaderView,
    pub event: Option<ActionEvent>,
}

/// The event of an action whose state changed as given, if the change gives
/// rise to one and events are not blocked.
pub open spec fn spec_event(
    action: u32,
    before: ActionData,
    after: ActionData,
    events_blocked: bool,
) -> Option<ActionEvent> {
    if events_blocked {
        None
    } else {
        match transition_event(before.state, after.state, before.has_fired) {
            Some(kind) => Some(
                ActionEvent {
                    action,
                    kind,
                    state: after.state,
                    value: after.value,
                    fired_nanos: after.fired_nanos,
                    elapsed_nanos: after.elapsed_nanos,
                },
            ),
            None => None,
        }
    }
}

impl ContextView {
    /// Whether each binding has its entry in the table of actions, at its own
    /// position, and no action is bound twice.
    pub open spec fn wf(self) -> bool {
        &&& self.bindings.len() == self.actions.len()
        &&& forall|i: int|
            0 <= i < self.bindings.len() ==> (#[trigger] self.actions[i]).0
                == self.bindings[i].action
        &&& forall|i: int, j: int|
            0 <= i < j < self.bindings.len() ==> (#[trigger] self.bindings[i]).action
                != (#[trigger] self.bindings[j]).action
    }

    /// Whether the action is bound.
    pub open spec fn binds(self, action: u32) -> bool {
        exists|i: int| 0 <= i < self.bindings.len() && (#[trigger] self.bindings[i]).action == action
    }

    /// Whether `readings` and `value` can come about when the binding at
    /// `index` is read: the readings are current values of its inputs, one
    /// each, and `value` is a result of its modifier chain, step by step, on
    /// their combination.
    pub open spec fn admits(
        self,
        index: int,
        reader: ReaderView,
        sources: SourcesView,
        delta: u64,
        readings: Seq<ActionValue>,
        value: ActionValue,
    ) -> bool {
        let binding = self.bindings[index];
        &&& readings.len() == binding.inputs.len()
        &&& forall|i: int|
            0 <= i < readings.len() ==> reader.is_value(
                sources,
                binding.inputs[i],
                #[trigger] readings[i],
            )
        &&& is_chain_result(binding.modifiers, delta, spec_combine(readings, binding.dim), value)
    }

    /// The tick of the binding at `index` on the modified value: its
    /// conditions advance and decide the state, the entry of its action
    /// records state and value, its inputs are consumed where it consumes and
    /// is active, and the change of state gives rise to an event unless events
    /// are blocked.
    pub open spec fn binding_tick(
        self,
        index: int,
        reader: ReaderView,
        delta: u64,
        value: ActionValue,
    ) -> Tick {
        let binding = self.bindings[index];
        let resolution = binding.resolve(self.actions, delta, value);
        let before = self.actions[index].1;
        let after = before.spec_update(resolution.state, value, delta);
        Tick {
            context: ContextView {
                bindings: self.bindings.update(index, binding.after(self.actions, delta, value)),
                actions: self.actions.update(index, (binding.action, after)),
                ..self
            },
            reader: if binding.consume_input && resolution.state.spec_is_active() {
                reader.consume_all(binding.inputs)
            } else {
                reader
            },
            event: spec_event(binding.action, before, after, resolution.events_blocked),
        }
    }

    /// Whether the tick of the binding at `index` can lead from this context
    /// and `reader` to `next`.
    pub open spec fn steps_to(
        self,
        index: int,
        reader: ReaderView,
        sources: SourcesView,
        delta: u64,
        next: Tick,
    ) -> bool {
        exists|readings: Seq<ActionValue>, value: ActionValue|
            #[trigger] self.admits(index, reader, sources, delta, readings, value) && next
                == self.binding_tick(index, reader, delta, value)
    }

    /// Whether `run` is a run of the ticks of the first bindings, in their
    /// order, that starts from this context and `reader`: each tick leads
    /// from one context and reader of the run to the next.
    pub open spec fn starts(
        self,
        run: Run,
        reader: ReaderView,
        sources: SourcesView,
        delta: u64,
    ) -> bool {
        &&& run.contexts.len() == run.outcomes.len() + 1
        &&& run.readers.len() == run.outcomes.len() + 1
        &&& run.contexts[0] == self
        &&& run.readers[0] == reader
        &&& forall|k: int|
            0 <= k < run.outcomes.len() ==> (#[trigger] run.contexts[k]).steps_to(
                k,
                run.readers[k],
                sources,
                delta,
                (Tick {
                    context: run.contexts[k + 1],
                    reader: run.readers[k + 1],
                    event: run.outcomes[k],
                }),
            )
    }

    /// Whether the ticks of all bindings, in their order, can lead from this
    /// context and `reader` to the context `last` and the reader
    /// `last_reader`, with `events` being the events of those ticks in that
    /// order.
    pub open spec fn runs_to(
        self,
        reader: ReaderView,
        sources: SourcesView,
        delta: u64,
        last: ContextView,
        last_reader: ReaderView,
        events: Seq<ActionEvent>,
    ) -> bool {
        exists|run: Run| #[trigger]
            self.starts(run, reader, sources, delta) && run.outcomes.len() == self.bindings.len()
                && run.contexts.last() == last && run.readers.last() == last_reader && events
                == emitted(run.outcomes)
    }
}

/// The contexts and readers that the ticks of the bindings lead through, and
/// what each tick gave rise to.
pub struct Run {
    pub contexts: Seq<ContextView>,
    pub readers: Seq<ReaderView>,
    pub outcomes: Seq<Option<ActionEvent>>,
}

/// The events among what the ticks gave rise to, in their order.
pub open spec fn emitted(outcomes: Seq<Option<ActionEvent>>) -> Seq<ActionEvent>
    decreases outcomes.len(),
{
    if outcomes.len() == 0 {
        Seq::empty()
    } else {
        match outcomes.last() {
            Some(event) => emitted(outcomes.drop_last()).push(event),
            None => emitted(outcomes.drop_last()),
        }
    }
}

/// Consuming inputs does not change the gamepad that is read from.
pub proof fn consume_all_keeps_gamepad(reader: ReaderView, inputs: Seq<Input>)
    ensures
        reader.consume_all(inputs).gamepad_device == reader.gamepad_device,
    decreases inputs.len(),
{
    if inputs.len() > 0 {
        consume_all_keeps_gamepad(reader, inputs.drop_last());
    }
}

/// An ordered collection of bindings that are evaluated together.
pub struct ContextInstance {
    gamepad: GamepadDevice,
    bindings: Vec<Binding>,
    actions: ActionsData,
}

impl View for ContextInstance {
    type V = ContextView;

    closed spec fn view(&self) -> ContextView {
        ContextView {
            gamepad: self.gamepad,
            bindings: Seq::new(self.bindings.len() as nat, |i: int| self.bindings[i]@),
            actions: self.actions@,
        }
    }
}

impl ContextInstance {
    /// Creates a context without bindings that reads from any gamepad.
    pub fn new() -> (r: ContextInstance)
        ensures
            r@ == (ContextView {
                gamepad: GamepadDevice::Any,
                bindings: Seq::empty(),
                actions: Seq::empty(),
            }),
            r@.wf(),
    {
        let r = ContextInstance {
            gamepad: GamepadDevice::Any,
            bindings: Vec::new(),
            actions: ActionsData::new(),
        };
        assert(r@.bindings =~= Seq::empty());
        r
    }

    /// Selects the gamepad that the inputs of the context are read from.
    pub fn set_gamepad(&mut self, gamepad: GamepadDevice)
        ensures
            final(self)@ == (ContextView { gamepad, ..old(self)@ }),
    {
        self.gamepad = gamepad;
        assert(self@.bindings =~= old(self)@.bindings);
    }

    /// Returns the number of bindings.
    pub fn len(&self) -> (r: usize)
        ensures
            r == self@.bindings.len(),
    {
        self.bindings.len()
    }

    /// Returns whether the action is bound.
    pub fn is_bound(&self, action: u32) -> (r: bool)
        ensures
            r == self@.binds(action),
    {
        let mut i: usize = 0;
        while i < self.bindings.len()
            invariant
                i <= self.bindings.len(),
                forall|j: int| 0 <= j < i ==> (#[trigger] self@.bindings[j]).action != action,
            decreases self.bindings.len() - i,
        {
            if self.bindings[i].action == action {
                assert(self@.bindings[i as int].action == action);
                return true;
            }
            i = i + 1;
        }
        false
    }

    /// Adds a binding after those that the context holds, with its action
    /// `Idle` and at zero. A binding whose action is bound already is not
    /// added; the answer tells whether the binding was added.
    pub fn bind(&mut self, binding: Binding) -> (r: bool)
        requires
            old(self)@.wf(),
        ensures
            r == !old(self)@.binds(binding@.action),
            r ==> final(self)@ == (ContextView {
                bindings: old(self)@.bindings.push(binding@),
                actions: old(self)@.actions.push(
                    (binding@.action, ActionData::spec_new(binding@.dim)),
                ),
                ..old(self)@
            }),
            !r ==> final(self)@ == old(self)@,
            final(self)@.wf(),
    {
        if self.is_bound(binding.action) {
            return false;
        }
        let ghost view = binding@;
        self.actions.push(binding.action, ActionData::new(binding.dim));
        self.bindings.push(binding);
        proof {
            assert(self@.bindings =~= old(self)@.bindings.push(view));
            assert forall|i: int, j: int| 0 <= i < j < self@.bindings.len() implies (
            #[trigger] self@.bindings[i]).action != (#[trigger] self@.bindings[j]).action by {
                if j == old(self)@.bindings.len() {
                    assert(old(self)@.bindings[i].action != view.action);
                } else {
                    assert(old(self)@.bindings[i].action != old(self)@.bindings[j].action);
                }
            }
        }
        true
    }

    /// Returns the state of the action, `Idle` where the action is not bound.
    pub fn state_of(&self, action: u32) -> (r: ActionState)
        ensures
            r == state_in(self@.actions, action),
    {
        self.actions.state_of(action)
    }

    /// Returns the live state of the action, if the action is bound.
    pub fn data_of(&self, action: u32) -> (r: Option<ActionData>)
        ensures
            r == lookup(self@.actions, action),
    {
        self.actions.get(action)
    }

    /// Evaluates the binding at `index` for a tick of `delta` nanoseconds and
    /// returns the event of its action, if there is one.
    pub fn update_binding(
        &mut self,
        index: usize,
        reader: &mut InputReader,
        sources: &InputSources,
        delta: u64,
    ) -> (r: Option<ActionEvent>)
        requires
            old(self)@.wf(),
            index < old(self)@.bindings.len(),
        ensures
            final(self)@.wf(),
            final(self)@.gamepad == old(self)@.gamepad,
            final(self)@.bindings.len() == old(self)@.bindings.len(),
            final(reader)@.gamepad_device == old(self)@.gamepad,
            old(self)@.steps_to(
                index as int,
                (ReaderView { gamepad_device: old(self)@.gamepad, ..old(reader)@ }),
                sources@,
                delta,
                (Tick { context: final(self)@, reader: final(reader)@, event: r }),
            ),
    {
        let ghost context = self@;
        reader.set_gamepad(self.gamepad);
        let ghost reading_from = reader@;
        let readings = reader.values(sources, &self.bindings[index].inputs);
        let raw = combine(&readings, self.bindings[index].dim);
        let value = apply_chain(&self.bindings[index].modifiers, delta, raw);
        let resolution = self.bindings[index].resolve(&self.actions, delta, value);
        let entry = self.actions.entry(index);
        let before = entry.1;
        let mut after = before;
        let kind = after.update(resolution.state, value, delta);
        self.actions.set(index, after);
        if self.bindings[index].consume_input && resolution.state.is_active() {
            reader.consume_all(&self.bindings[index].inputs);
        }
        let event = if resolution.events_blocked {
            None
        } else {
            match kind {
                Some(kind) => Some(
                    ActionEvent {
                        action: entry.0,
                        kind,
                        state: after.state,
                        value: after.value,
                        fired_nanos: after.fired_nanos,
                        elapsed_nanos: after.elapsed_nanos,
                    },
                ),
                None => None,
            }
        };
        proof {
            let tick = context.binding_tick(index as int, reading_from, delta, value);
            consume_all_keeps_gamepad(reading_from, context.bindings[index as int].inputs);
            assert(context.admits(index as int, reading_from, sources@, delta, readings@, value));
            assert(self@.bindings =~= tick.context.bindings);
            assert(self@.actions =~= tick.context.actions);
            assert(tick == (Tick { context: self@, reader: reader@, event }));
        }
        event
    }

    /// Evaluates every binding for a tick of `delta` nanoseconds, in the order
    /// of the bindings, and returns the events of the tick in that order.
    ///
    /// A binding sees the states that the bindings before it have reached on
    /// this tick, and the states of the last tick of those after it.
    pub fn update(&mut self, reader: &mut InputReader, sources: &InputSources, delta: u64) -> (r:
        Vec<ActionEvent>)
        requires
            old(self)@.wf(),
        ensures
            final(self)@.wf(),
            old(self)@.runs_to(
                (ReaderView { gamepad_device: old(self)@.gamepad, ..old(reader)@ }),
                sources@,
                delta,
                final(self)@,
                final(reader)@,
                r@,
            ),
    {
        let ghost first = self@;
        reader.set_gamepad(self.gamepad);
        let ghost first_reader = reader@;
        let ghost mut run = Run {
            contexts: seq![first],
            readers: seq![first_reader],
            outcomes: Seq::empty(),
        };
        let mut events: Vec<ActionEvent> = Vec::new();
        let count = self.bindings.len();
        let mut i: usize = 0;
        while i < count
            invariant
                i <= count,
                count == first.bindings.len(),
                self@.wf(),
                self@.bindings.len() == count,
                self@.gamepad == first.gamepad,
                reader@.gamepad_device == first.gamepad,
                first.starts(run, first_reader, sources@, delta),
                run.outcomes.len() == i,
                run.contexts.last() == self@,
                run.readers.last() == reader@,
                events@ == emitted(run.outcomes),
            decreases count - i,
        {
            let ghost before = run;
            let ghost middle = self@;
            let ghost middle_reader = reader@;
            let event = self.update_binding(i, reader, sources, delta);
            match event {
                Some(event) => {
                    events.push(event);
                },
                None => {},
            }
            proof {
                run = Run {
                    contexts: before.contexts.push(self@),
                    readers: before.readers.push(reader@),
                    outcomes: before.outcomes.push(event),
                };
                assert(middle_reader == (ReaderView {
                    gamepad_device: middle.gamepad,
                    ..middle_reader
                }));
                assert(run.outcomes.drop_last() =~= before.outcomes);
                assert forall|k: int| 0 <= k < run.outcomes.len() implies (
                #[trigger] run.contexts[k]).steps_to(
                    k,
                    run.readers[k],
                    sources@,
                    delta,
                    (Tick {
                        context: run.contexts[k + 1],
                        reader: run.readers[k + 1],
                        event: run.outcomes[k],
                    }),
                ) by {
                    if k < i {
                        assert(before.contexts[k].steps_to(
                            k,
                            before.readers[k],
                            sources@,
                            delta,
                            (Tick {
                                context: before.contexts[k + 1],
                                reader: before.readers[k + 1],
                                event: before.outcomes[k],
                            }),
                        ));
                    }
                }
            }
            i = i + 1;
        }
        events
    }
}

/// Blocking, for a binding of a context. While the action that blocks is
/// `Ongoing` or `Fired` at the time the binding is evaluated, the tick of the
/// binding leaves its action `Idle` and gives rise to no start and no firing,
/// whatever its inputs read.
pub proof fn blocked_binding_is_idle(
    context: ContextView,
    index: int,
    reader: ReaderView,
    delta: u64,
    value: ActionValue,
    blocker: int,
)
    requires
        0 <= index < context.bindings.len(),
        context.bindings.len() == context.actions.len(),
        0 <= blocker < context.bindings[index].conditions.len(),
        context.bindings[index].conditions[blocker] is BlockBy,
        !context.bindings[index].conditions[blocker]->BlockBy_0.events_only,
        state_in(
            context.actions,
            context.bindings[index].conditions[blocker]->BlockBy_0.action,
        ).spec_is_active(),
    ensures
        ({
            let tick = context.binding_tick(index, reader, delta, value);
            &&& tick.context.actions[index].1.state == ActionState::Idle
            &&& tick.reader == reader
            &&& tick.event is Some ==> tick.event->0.kind != ActionEventKind::Started
                && tick.event->0.kind != ActionEventKind::Fired
        }),
{
    let before = context.actions[index].1;
    blocked_action_stays_idle(
        context.bindings[index].conditions,
        context.actions,
        delta,
        value,
        blocker,
        value.spec_as_bool(),
        before.state,
        before.has_fired,
    );
}

/// Blocking of events only, for a binding of a context. While the action that
/// blocks is `Ongoing` or `Fired`, the tick of the binding gives rise to no
/// event, and records the value and the state that the binding has without
/// the blocking condition, for chords of later bindings to see.
pub proof fn events_only_blocked_binding_is_silent(
    context: ContextView,
    index: int,
    reader: ReaderView,
    delta: u64,
    value: ActionValue,
    blocker: int,
)
    requires
        0 <= index < context.bindings.len(),
        context.bindings.len() == context.actions.len(),
        0 <= blocker < context.bindings[index].conditions.len(),
        context.bindings[index].conditions[blocker] is BlockBy,
        context.bindings[index].conditions[blocker]->BlockBy_0.events_only,
        state_in(
            context.actions,
            context.bindings[index].conditions[blocker]->BlockBy_0.action,
        ).spec_is_active(),
    ensures
        ({
            let tick = context.binding_tick(index, reader, delta, value);
            let binding = context.bindings[index];
            let unblocked = BindingView {
                conditions: binding.conditions.remove(blocker),
                ..binding
            };
            &&& tick.event is None
            &&& tick.context.actions[index].1.value == value
            &&& tick.context.actions[index].1.state == unblocked.resolve(
                context.actions,
                delta,
                value,
            ).state
        }),
{
    events_only_block_keeps_state(
        context.bindings[index].conditions,
        context.actions,
        delta,
        value,
        blocker,
        value.spec_as_bool(),
    );
}

/// Chords, for a binding of a context. The tick of a binding leaves its
/// action `Fired` only if every action that one of its chords names is
/// `Ongoing` or `Fired` at the time the binding is evaluated.
pub proof fn chord_binding_fires_with_every_member(
    context: ContextView,
    index: int,
    reader: ReaderView,
    delta: u64,
    value: ActionValue,
)
    requires
        0 <= index < context.bindings.len(),
        context.bindings.len() == context.actions.len(),
        context.binding_tick(index, reader, delta, value).context.actions[index].1.state
            == ActionState::Fired,
    ensures
        forall|i: int|
            0 <= i < context.bindings[index].conditions.len() && (
            #[trigger] context.bindings[index].conditions[i]) is Chord ==> state_in(
                context.actions,
                context.bindings[index].conditions[i]->Chord_0.action,
            ).spec_is_active(),
{
    chord_fires_only_with_every_member(
        context.bindings[index].conditions,
        context.actions,
        delta,
        value,
        value.spec_as_bool(),
    );
}

} // verus!
