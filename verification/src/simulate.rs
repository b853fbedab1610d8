use vstd::prelude::*;
use crate::control_key::ControlKey;
use crate::debug_text::is_scalar_value;
use crate::convert_map::{phys_to_key, KeyConvert};
use crate::enigo;
use crate::error::KeyboardError;
use crate::event::{KeyCode, KeyboardEvent, RawKeyboardEvent};
use crate::grab::EventType;
use crate::key::Key;
use crate::keymap::XKeyboard;
use crate::modifiers::Modifiers;
use crate::phys_key::PhysKeyCode;

verus! {

broadcast use vstd::std_specs::hash::group_hash_axioms;

/// One thing to ask of whatever synthesizes key events on the local
/// machine.
#[derive(Clone, Copy, Debug, PartialEq, Eq, Structural)]
pub enum InjectAction {
    /// Press or release the key at a position.
    Key { phys: PhysKeyCode, press: bool },
    /// Type the character with this code point, whatever keys it takes.
    Char(u32),
}

/// One step of replaying a keystroke: what to inject, and whether the rest
/// depends on it.
#[derive(Clone, Copy, Debug, PartialEq, Eq, Structural)]
pub struct InjectStep {
    /// What to inject.
    pub action: InjectAction,
    /// Whether a failure of this step ends the replay of the keystroke. A
    /// step that is not required is tried, and its failure passed over.
    pub required: bool,
}

/// The required step that injects a key event.
pub open spec fn required_key_step(event: RawKeyboardEvent) -> InjectStep {
    InjectStep { action: InjectAction::Key { phys: event.phys, press: event.press }, required: true }
}

/// The steps that inject key events one after the other, each of them
/// required.
pub open spec fn required_key_steps(events: Seq<RawKeyboardEvent>) -> Seq<InjectStep> {
    events.map_values(|event: RawKeyboardEvent| required_key_step(event))
}

/// A press of the key at `phys`, then its release.
pub open spec fn tap(phys: PhysKeyCode, press_required: bool) -> Seq<InjectStep> {
    seq![
        InjectStep { action: InjectAction::Key { phys, press: true }, required: press_required },
        InjectStep { action: InjectAction::Key { phys, press: false }, required: false },
    ]
}

/// What replays a logical key.
///
/// A modifier key is passed on as it comes: it is held, not tapped, and
/// nothing is reconciled for it. Any other key is tapped after the local
/// modifiers have been brought to what the sender wants; modifiers that
/// are held and wanted are not touched.
pub open spec fn control_key_plan(
    control_key: ControlKey,
    raw: RawKeyboardEvent,
    current: Modifiers,
) -> Seq<InjectStep> {
    if control_key.spec_is_modifier() {
        seq![required_key_step(raw)]
    } else {
        required_key_steps(current.spec_diff_modifiers(&raw.modifiers)) + tap(raw.phys, false)
    }
}

/// What replays a character.
///
/// Only the press counts: a release says nothing of which character it is
/// about, and nothing is done for it. For a press the local modifiers are
/// brought to what the sender wants, and the character is typed. A code
/// point that is no character is refused.
pub open spec fn char_plan(code_point: u32, raw: RawKeyboardEvent, current: Modifiers) -> Result<
    Seq<InjectStep>,
    KeyboardError,
> {
    if !raw.press {
        Ok(Seq::empty())
    } else if is_scalar_value(code_point) {
        Ok(
            required_key_steps(current.spec_diff_modifiers(&raw.modifiers)).push(
                InjectStep { action: InjectAction::Char(code_point), required: true },
            ),
        )
    } else {
        Err(KeyboardError::InvalidWireEvent)
    }
}

/// What replays a keyboard event while the local modifiers are `current`.
///
/// An event without a physical action is malformed. One without a key code
/// asks for nothing. Logical keys and characters are replayed; the other
/// kinds of key code are not supported.
pub open spec fn plan_of(event: KeyboardEvent, current: Modifiers) -> Result<
    Seq<InjectStep>,
    KeyboardError,
> {
    match event.raw_event {
        None => Err(KeyboardError::InvalidWireEvent),
        Some(raw) => match event.keycode {
            None => Ok(Seq::empty()),
            Some(KeyCode::ControlKey(control_key)) => Ok(
                control_key_plan(control_key, raw, current),
            ),
            Some(KeyCode::Chr(code_point)) => char_plan(code_point, raw, current),
            Some(_) => Err(KeyboardError::UnsupportedKeyCode),
        },
    }
}

/// Whether the modifiers that are active on the local machine bear on how
/// an event is replayed. They do for a logical key that is no modifier
/// and for the press of a character, which are replayed after the
/// modifiers have been brought into agreement. They do not for anything
/// else: a modifier key is passed on as it comes, and the rest asks for
/// nothing or is refused.
pub open spec fn needs_current(event: KeyboardEvent) -> bool {
    match event.raw_event {
        None => false,
        Some(raw) => match event.keycode {
            Some(KeyCode::ControlKey(control_key)) => !control_key.spec_is_modifier(),
            Some(KeyCode::Chr(code_point)) => raw.press && is_scalar_value(code_point),
            _ => false,
        },
    }
}

/// Where the active modifiers do not bear on an event, it is replayed in
/// the same way whatever they are.
pub proof fn lemma_plan_without_current(event: KeyboardEvent, one: Modifiers, other: Modifiers)
    requires
        !needs_current(event),
    ensures
        plan_of(event, one) == plan_of(event, other),
{
}

/// The eight modifier keys, released one after the other: shift, control,
/// alt and meta, the left key before the right.
pub open spec fn release_all() -> Seq<InjectStep> {
    seq![
        required_key_step(RawKeyboardEvent::spec_with_phys(PhysKeyCode::ShiftLeft, false)),
        required_key_step(RawKeyboardEvent::spec_with_phys(PhysKeyCode::ShiftRight, false)),
        required_key_step(RawKeyboardEvent::spec_with_phys(PhysKeyCode::ControlLeft, false)),
        required_key_step(RawKeyboardEvent::spec_with_phys(PhysKeyCode::ControlRight, false)),
        required_key_step(RawKeyboardEvent::spec_with_phys(PhysKeyCode::AltLeft, false)),
        required_key_step(RawKeyboardEvent::spec_with_phys(PhysKeyCode::AltRight, false)),
        required_key_step(RawKeyboardEvent::spec_with_phys(PhysKeyCode::MetaLeft, false)),
        required_key_step(RawKeyboardEvent::spec_with_phys(PhysKeyCode::MetaRight, false)),
    ]
}

impl InjectStep {
    /// A required step for a press or release of the key at `phys`.
    pub fn key(phys: PhysKeyCode, press: bool, required: bool) -> (step: InjectStep)
        ensures
            step == (InjectStep { action: InjectAction::Key { phys, press }, required }),
    {
        InjectStep { action: InjectAction::Key { phys, press }, required }
    }

    /// Says how the replay goes on after this step was tried: it ends with
    /// an error if the step was required and could not be injected, and
    /// goes on otherwise.
    pub fn outcome(&self, injected: bool) -> (outcome: Result<(), KeyboardError>)
        ensures
            outcome is Err <==> self.required && !injected,
            outcome is Err ==> outcome == Err::<(), KeyboardError>(KeyboardError::InjectorFailure),
    {
        if self.required && !injected {
            Err(KeyboardError::InjectorFailure)
        } else {
            Ok(())
        }
    }
}

/// A replay under way: the steps of a plan, and how far it has got.
///
/// The steps are taken in order. Whoever injects them asks for the next
/// action, injects it and reports whether that worked. A required step
/// that fails stops the replay: the steps after it are not taken, and
/// what was injected before it stays injected. A step that is not required
/// may fail, and the replay goes on.
#[derive(Clone, Debug)]
pub struct Replay {
    /// The steps of the plan.
    pub steps: Vec<InjectStep>,
    /// How many of the steps have been tried.
    pub done: usize,
    /// Whether a required step has failed.
    pub stopped: bool,
}

impl Replay {
    /// What is to be injected next: the action of the first step that has
    /// not been tried, unless the replay has stopped or is through.
    pub open spec fn spec_next_action(&self) -> Option<InjectAction> {
        if !self.stopped && self.done < self.steps@.len() {
            Some(self.steps@[self.done as int].action)
        } else {
            None
        }
    }

    /// The replay after its next step was tried, `injected` saying whether
    /// the step could be injected: the step counts as tried, and the
    /// replay stops if the step was required and failed.
    pub open spec fn after_report(&self, injected: bool) -> (int, bool) {
        if self.spec_next_action() is Some {
            (self.done + 1, self.steps@[self.done as int].required && !injected)
        } else {
            (self.done as int, self.stopped)
        }
    }

    /// Starts the replay of a plan.
    pub fn new(steps: Vec<InjectStep>) -> (replay: Replay)
        ensures
            replay.steps@ == steps@,
            replay.done == 0,
            !replay.stopped,
    {
        Replay { steps, done: 0, stopped: false }
    }

    /// Says what is to be injected next, if anything is.
    #[verifier::when_used_as_spec(spec_next_action)]
    pub fn next_action(&self) -> (action: Option<InjectAction>)
        ensures
            action == self.spec_next_action(),
    {
        if !self.stopped && self.done < self.steps.len() {
            Some(self.steps[self.done].action)
        } else {
            None
        }
    }

    /// Takes note of how the injection of the next action went, and says
    /// whether the replay goes on. It ends with an error exactly when the
    /// step was required and could not be injected. Where no action was
    /// due, nothing changes.
    pub fn report(&mut self, injected: bool) -> (outcome: Result<(), KeyboardError>)
        ensures
            final(self).steps@ == old(self).steps@,
            (final(self).done as int, final(self).stopped) == old(self).after_report(injected),
            outcome is Err <==> old(self).spec_next_action() is Some && old(self).steps@[old(
                self,
            ).done as int].required && !injected,
            outcome is Err ==> outcome == Err::<(), KeyboardError>(KeyboardError::InjectorFailure),
    {
        if self.stopped || self.done >= self.steps.len() {
            return Ok(());
        }
        let outcome: Result<(), KeyboardError> = self.steps[self.done].outcome(injected);
        self.done = self.done + 1;
        if outcome.is_err() {
            self.stopped = true;
        }
        outcome
    }

    /// A replay that has stopped takes no further step, and one that goes
    /// on takes the steps in their order.
    pub proof fn lemma_replay_order(replay: Replay, injected: bool)
        ensures
            replay.stopped ==> replay.spec_next_action() is None,
            replay.spec_next_action() is Some ==> replay.after_report(injected).0 == replay.done
                + 1,
            replay.spec_next_action() is Some && injected ==> !replay.after_report(injected).1,
    {
    }
}

/// Appends to `steps` the required steps that inject `events`.
fn push_required_steps(steps: &mut Vec<InjectStep>, events: &Vec<RawKeyboardEvent>)
    ensures
        final(steps)@ == old(steps)@ + required_key_steps(events@),
{
    let ghost before = steps@;
    let count: usize = events.len();
    let mut index: usize = 0;
    while index < count
        invariant
            index <= count,
            count == events@.len(),
            steps@ == before + required_key_steps(events@).subrange(0, index as int),
        decreases count - index,
    {
        let event: RawKeyboardEvent = events[index];
        steps.push(InjectStep::key(event.phys, event.press, true));
        index += 1;
        assert(steps@ =~= before + required_key_steps(events@).subrange(0, index as int));
    }
    assert(required_key_steps(events@).subrange(0, count as int) =~= required_key_steps(events@));
}

/// Tells whether a number is a Unicode scalar value.
pub fn is_char(code_point: u32) -> (scalar: bool)
    ensures
        scalar == is_scalar_value(code_point),
{
    code_point < 0xd800 || (0xe000 <= code_point && code_point <= 0x10_ffff)
}

/// The steps that replay a key code with its physical action.
fn process_keycode(keycode: &KeyCode, raw_event: RawKeyboardEvent, current: Modifiers) -> (plan:
    Result<Vec<InjectStep>, KeyboardError>)
    ensures
        match (*keycode) {
            KeyCode::ControlKey(control_key) => plan is Ok && plan->Ok_0@ == control_key_plan(
                control_key,
                raw_event,
                current,
            ),
            KeyCode::Chr(code_point) => match char_plan(code_point, raw_event, current) {
                Ok(steps) => plan is Ok && plan->Ok_0@ == steps,
                Err(error) => plan == Err::<Vec<InjectStep>, KeyboardError>(error),
            },
            _ => plan == Err::<Vec<InjectStep>, KeyboardError>(KeyboardError::UnsupportedKeyCode),
        },
{
    let mut steps: Vec<InjectStep> = Vec::new();
    match keycode {
        KeyCode::ControlKey(control_key) => {
            if control_key.is_modifier() {
                steps.push(InjectStep::key(raw_event.phys, raw_event.press, true));
                assert(steps@ =~= control_key_plan(*control_key, raw_event, current));
            } else {
                let events: Vec<RawKeyboardEvent> = current.diff_modifiers(&raw_event.modifiers);
                push_required_steps(&mut steps, &events);
                steps.push(InjectStep::key(raw_event.phys, true, false));
                steps.push(InjectStep::key(raw_event.phys, false, false));
                assert(steps@ =~= control_key_plan(*control_key, raw_event, current));
            }
            Ok(steps)
        },
        KeyCode::Chr(code_point) => {
            if !raw_event.press {
                return Ok(steps);
            }
            if !is_char(*code_point) {
                return Err(KeyboardError::InvalidWireEvent);
            }
            let events: Vec<RawKeyboardEvent> = current.diff_modifiers(&raw_event.modifiers);
            push_required_steps(&mut steps, &events);
            steps.push(InjectStep { action: InjectAction::Char(*code_point), required: true });
            assert(steps@ =~= char_plan(*code_point, raw_event, current)->Ok_0);
            Ok(steps)
        },
        _ => Err(KeyboardError::UnsupportedKeyCode),
    }
}

/// Tells whether the modifiers that are active on the local machine have
/// to be read before an event is replayed. Where they do not, any set can
/// be handed to `simulate_keyboard_event` in their place.
pub fn needs_current_modifiers(keyboard_event: &KeyboardEvent) -> (needed: bool)
    ensures
        needed == needs_current(*keyboard_event),
{
    match keyboard_event.raw_event {
        None => false,
        Some(raw_event) => match &keyboard_event.keycode {
            Some(KeyCode::ControlKey(control_key)) => !control_key.is_modifier(),
            Some(KeyCode::Chr(code_point)) => raw_event.press && is_char(*code_point),
            _ => false,
        },
    }
}

/// Works out what has to be injected to replay a keyboard event, given the
/// modifiers that are active on the local machine.
///
/// The steps are to be injected in order. Nothing has been injected when
/// an error is returned.
pub fn simulate_keyboard_event(keyboard_event: &KeyboardEvent, current: Modifiers) -> (plan: Result<
    Vec<InjectStep>,
    KeyboardError,
>)
    ensures
        match plan_of(*keyboard_event, current) {
            Ok(steps) => plan is Ok && plan->Ok_0@ == steps,
            Err(error) => plan == Err::<Vec<InjectStep>, KeyboardError>(error),
        },
{
    match keyboard_event.raw_event {
        Some(raw_event) => match &keyboard_event.keycode {
            Some(keycode) => process_keycode(keycode, raw_event, current),
            None => Ok(Vec::new()),
        },
        None => Err(KeyboardError::InvalidWireEvent),
    }
}

/// The steps that release all eight modifier keys. They are for the end of
/// a session, or for when control is interrupted, so that no modifier
/// stays down on the local machine.
pub fn release_modifiers() -> (steps: Vec<InjectStep>)
    ensures
        steps@ == release_all(),
{
    let mut steps: Vec<InjectStep> = Vec::new();
    steps.push(InjectStep::key(PhysKeyCode::ShiftLeft, false, true));
    steps.push(InjectStep::key(PhysKeyCode::ShiftRight, false, true));
    steps.push(InjectStep::key(PhysKeyCode::ControlLeft, false, true));
    steps.push(InjectStep::key(PhysKeyCode::ControlRight, false, true));
    steps.push(InjectStep::key(PhysKeyCode::AltLeft, false, true));
    steps.push(InjectStep::key(PhysKeyCode::AltRight, false, true));
    steps.push(InjectStep::key(PhysKeyCode::MetaLeft, false, true));
    steps.push(InjectStep::key(PhysKeyCode::MetaRight, false, true));
    assert(steps@ =~= release_all());
    steps
}

/// Looks up how the local keyboard produces a keysym. Without a keyboard
/// nothing can be resolved; with one, a keysym that no key produces cannot.
pub fn resolve_keysym(keyboard: Option<&XKeyboard>, keysym: u32) -> (route: Result<
    RawKeyboardEvent,
    KeyboardError,
>)
    ensures
        keyboard is None ==> route == Err::<RawKeyboardEvent, KeyboardError>(
            KeyboardError::KeymapUnavailable,
        ),
        keyboard matches Some(k) ==> (if k.keysym_event_map@.contains_key(keysym) {
            route == Ok::<RawKeyboardEvent, KeyboardError>(k.keysym_event_map@[keysym])
        } else {
            route == Err::<RawKeyboardEvent, KeyboardError>(KeyboardError::UnmappableKey)
        }),
{
    match keyboard {
        None => Err(KeyboardError::KeymapUnavailable),
        Some(keyboard) => match keyboard.keysym_event_map.get(&keysym) {
            Some(route) => Ok(*route),
            None => Err(KeyboardError::UnmappableKey),
        },
    }
}

/// The steps that type a character by the key that produces it: the local
/// modifiers are brought to those of the key's level, and the key is
/// tapped. This is for a machine where characters cannot be injected as
/// such.
pub fn simulate_resolved_char(
    keyboard: Option<&XKeyboard>,
    keysym: u32,
    current: Modifiers,
) -> (plan: Result<Vec<InjectStep>, KeyboardError>)
    ensures
        keyboard is None ==> plan == Err::<Vec<InjectStep>, KeyboardError>(
            KeyboardError::KeymapUnavailable,
        ),
        keyboard matches Some(k) ==> (if k.keysym_event_map@.contains_key(keysym) {
            plan is Ok && plan->Ok_0@ == required_key_steps(
                current.spec_diff_modifiers(&k.keysym_event_map@[keysym].modifiers),
            ) + tap(k.keysym_event_map@[keysym].phys, true)
        } else {
            plan == Err::<Vec<InjectStep>, KeyboardError>(KeyboardError::UnmappableKey)
        }),
{
    let route: RawKeyboardEvent = match resolve_keysym(keyboard, keysym) {
        Ok(route) => route,
        Err(error) => {
            return Err(error);
        },
    };
    let mut steps: Vec<InjectStep> = Vec::new();
    let events: Vec<RawKeyboardEvent> = current.diff_modifiers(&route.modifiers);
    push_required_steps(&mut steps, &events);
    steps.push(InjectStep::key(route.phys, true, true));
    steps.push(InjectStep::key(route.phys, false, false));
    assert(steps@ =~= required_key_steps(
        current.spec_diff_modifiers(&route.modifiers),
    ) + tap(route.phys, true));
    Ok(steps)
}

/// The step that a keyboard event asks for when it is injected as it is:
/// a required press or release where the event names its key by
/// position, and none for the other kinds of key code.
pub open spec fn pressed_key_step(event: KeyboardEvent) -> Seq<InjectStep> {
    match event.keycode {
        Some(KeyCode::PhysCode(phys)) => seq![
            InjectStep { action: InjectAction::Key { phys, press: event.press }, required: true },
        ],
        _ => Seq::empty(),
    }
}

/// The steps that a list of keyboard events asks for, one event after the
/// other.
pub open spec fn pressed_key_steps(events: Seq<KeyboardEvent>) -> Seq<InjectStep>
    decreases events.len(),
{
    if events.len() == 0 {
        Seq::empty()
    } else {
        pressed_key_steps(events.drop_last()) + pressed_key_step(events.last())
    }
}

/// Whether one of the events names its key by a code that only the
/// sending platform can interpret.
pub open spec fn holds_raw_code(events: Seq<KeyboardEvent>) -> bool {
    exists|i: int| 0 <= i < events.len() && (#[trigger] events[i]).keycode matches Some(KeyCode::Raw(_))
}

/// Works out the steps that inject a list of keyboard events as they are.
///
/// An event that names its key by position gives a press or release of
/// that key. Events that name it otherwise are passed over, but for one
/// with a raw code: such a code cannot be injected, and the list is
/// refused.
pub fn prepare_pressed_keys(keyboard_event_vec: &Vec<KeyboardEvent>) -> (plan: Result<
    Vec<InjectStep>,
    KeyboardError,
>)
    ensures
        holds_raw_code(keyboard_event_vec@) ==> plan == Err::<Vec<InjectStep>, KeyboardError>(
            KeyboardError::UnsupportedKeyCode,
        ),
        !holds_raw_code(keyboard_event_vec@) ==> plan is Ok && plan->Ok_0@ == pressed_key_steps(
            keyboard_event_vec@,
        ),
{
    let mut steps: Vec<InjectStep> = Vec::new();
    let count: usize = keyboard_event_vec.len();
    let mut index: usize = 0;
    while index < count
        invariant
            index <= count,
            count == keyboard_event_vec@.len(),
            !holds_raw_code(keyboard_event_vec@.subrange(0, index as int)),
            steps@ == pressed_key_steps(keyboard_event_vec@.subrange(0, index as int)),
        decreases count - index,
    {
        let ghost done = keyboard_event_vec@.subrange(0, index as int);
        let ghost next = keyboard_event_vec@.subrange(0, index + 1);
        proof {
            assert(next.drop_last() =~= done);
            assert(next.last() == keyboard_event_vec@[index as int]);
        }
        match &keyboard_event_vec[index].keycode {
            Some(KeyCode::Raw(_)) => {
                return Err(KeyboardError::UnsupportedKeyCode);
            },
            Some(KeyCode::PhysCode(phys)) => {
                steps.push(InjectStep::key(*phys, keyboard_event_vec[index].press, true));
            },
            _ => {},
        }
        proof {
            assert(steps@ =~= pressed_key_steps(done) + pressed_key_step(next.last()));
            assert forall|i: int| 0 <= i < next.len() implies !((#[trigger] next[i]).keycode matches Some(
                KeyCode::Raw(_),
            )) by {
                if i < index {
                    assert(done[i] == next[i]);
                }
            }
        }
        index += 1;
    }
    assert(keyboard_event_vec@.subrange(0, count as int) =~= keyboard_event_vec@);
    Ok(steps)
}

/// The native key event that presses or releases the key at a position.
/// A position that the local platform has no key for cannot be
/// injected.
pub fn simulate_phys(phys: PhysKeyCode, press: bool) -> (event: Result<EventType, KeyboardError>)
    ensures
        phys_to_key(phys) matches Some(key) ==> event == Ok::<EventType, KeyboardError>(
            if press {
                EventType::KeyPress(key)
            } else {
                EventType::KeyRelease(key)
            },
        ),
        phys_to_key(phys) is None ==> event == Err::<EventType, KeyboardError>(
            KeyboardError::UnmappableKey,
        ),
{
    let key: Key = match Key::from_phys(&phys) {
        Ok(key) => key,
        Err(error) => {
            return Err(error);
        },
    };
    if press {
        Ok(EventType::KeyPress(key))
    } else {
        Ok(EventType::KeyRelease(key))
    }
}

/// The native key event that presses or releases the key with a raw key
/// code. Key codes run from 8 to 255; any other number is refused.
pub fn simulate_raw(raw: u32, press: bool) -> (event: Result<EventType, KeyboardError>)
    ensures
        8 <= raw <= 255 ==> event == Ok::<EventType, KeyboardError>(
            if press {
                EventType::KeyPress(Key::Unknown(raw))
            } else {
                EventType::KeyRelease(Key::Unknown(raw))
            },
        ),
        !(8 <= raw <= 255) ==> event == Err::<EventType, KeyboardError>(
            KeyboardError::InvalidWireEvent,
        ),
{
    if raw < 8 || raw > 255 {
        return Err(KeyboardError::InvalidWireEvent);
    }
    if press {
        Ok(EventType::KeyPress(Key::Unknown(raw)))
    } else {
        Ok(EventType::KeyRelease(Key::Unknown(raw)))
    }
}

/// What types a character whatever modifiers are held: the key that
/// produces it in the active layout goes down, and then up. Each pair is
/// a key and whether it goes down.
pub fn simulate_char_without_modifiers(chr: char) -> (strokes: Vec<(enigo::Key, bool)>)
    ensures
        strokes@ == seq![(enigo::Key::Layout(chr), true), (enigo::Key::Layout(chr), false)],
{
    let mut strokes: Vec<(enigo::Key, bool)> = Vec::new();
    strokes.push((enigo::Key::Layout(chr), true));
    strokes.push((enigo::Key::Layout(chr), false));
    assert(strokes@ =~= seq![(enigo::Key::Layout(chr), true), (enigo::Key::Layout(chr), false)]);
    strokes
}

} // verus!
