use vstd::prelude::*;
use crate::event::RawKeyboardEvent;
use crate::modifiers::{Modifiers, ALT, ALT_GR, CAPS, CTRL, META, NUM, SHIFT};
use crate::phys_key::PhysKeyCode;

verus! {

/// What brings a lock state into agreement: a tap on the lock key where the
/// two sets differ in the lock's bit, nothing where they agree.
pub open spec fn lock_toggle(
    current: Modifiers,
    target: Modifiers,
    mask: u32,
    phys: PhysKeyCode,
) -> Seq<RawKeyboardEvent> {
    if current.has(mask) != target.has(mask) {
        seq![RawKeyboardEvent::spec_with_phys(phys, true), RawKeyboardEvent::spec_with_phys(phys, false)]
    } else {
        Seq::empty()
    }
}

/// What brings a held modifier into agreement. Where it has to go, both of
/// its keys are released, since nothing says which of them is down. Where
/// it has to come, its left key is pressed. Where the two sets agree,
/// nothing is done.
pub open spec fn side_events(
    current: Modifiers,
    target: Modifiers,
    mask: u32,
    left: PhysKeyCode,
    right: PhysKeyCode,
) -> Seq<RawKeyboardEvent> {
    if current.has(mask) && !target.has(mask) {
        seq![RawKeyboardEvent::spec_with_phys(left, false), RawKeyboardEvent::spec_with_phys(right, false)]
    } else if !current.has(mask) && target.has(mask) {
        seq![RawKeyboardEvent::spec_with_phys(left, true)]
    } else {
        Seq::empty()
    }
}

/// The events that take a set in logical form to another: first the locks,
/// caps before num, then the held modifiers in the order shift, control,
/// alt, meta, alternate graphics. Alternate graphics has one key only, the
/// right alt key, which stands for both of its sides.
pub open spec fn logical_diff(current: Modifiers, target: Modifiers) -> Seq<RawKeyboardEvent> {
    lock_toggle(current, target, CAPS, PhysKeyCode::CapsLock) + lock_toggle(
        current,
        target,
        NUM,
        PhysKeyCode::NumLock,
    ) + side_events(current, target, SHIFT, PhysKeyCode::ShiftLeft, PhysKeyCode::ShiftRight)
        + side_events(current, target, CTRL, PhysKeyCode::ControlLeft, PhysKeyCode::ControlRight)
        + side_events(current, target, ALT, PhysKeyCode::AltLeft, PhysKeyCode::AltRight)
        + side_events(current, target, META, PhysKeyCode::MetaLeft, PhysKeyCode::MetaRight)
        + side_events(current, target, ALT_GR, PhysKeyCode::AltRight, PhysKeyCode::AltRight)
}

/// Appends to `events` what brings one lock state into agreement.
fn push_lock_toggle(
    events: &mut Vec<RawKeyboardEvent>,
    current: Modifiers,
    target: Modifiers,
    mask: u32,
    phys: PhysKeyCode,
)
    ensures
        final(events)@ == old(events)@ + lock_toggle(current, target, mask, phys),
{
    let wanted = target.contains_bits(mask);
    let held = current.contains_bits(mask);
    if wanted && !held || !wanted && held {
        events.push(RawKeyboardEvent::with_phys(phys, true));
        events.push(RawKeyboardEvent::with_phys(phys, false));
    }
}

/// Appends to `events` what brings one held modifier into agreement.
fn push_side_events(
    events: &mut Vec<RawKeyboardEvent>,
    current: Modifiers,
    target: Modifiers,
    mask: u32,
    left: PhysKeyCode,
    right: PhysKeyCode,
)
    ensures
        final(events)@ == old(events)@ + side_events(current, target, mask, left, right),
{
    let wanted = target.contains_bits(mask);
    let held = current.contains_bits(mask);
    if !wanted && held {
        events.push(RawKeyboardEvent::with_phys(left, false));
        events.push(RawKeyboardEvent::with_phys(right, false));
    }
    if wanted && !held {
        events.push(RawKeyboardEvent::with_phys(left, true));
    }
}

impl Modifiers {
    /// The events that take this set to `target`, both read in their
    /// logical form.
    pub open spec fn spec_diff_modifiers(&self, target: &Modifiers) -> Seq<RawKeyboardEvent> {
        logical_diff(self.spec_trans_positional_mods(), target.spec_trans_positional_mods())
    }

    /// Computes the key events that, replayed in order, move the local
    /// modifiers from this set to `target`.
    ///
    /// Both sets are first reduced to their logical form. A lock whose
    /// state differs is tapped. A modifier that is held but not wanted has
    /// both of its keys released; one that is wanted but not held has its
    /// left key pressed. The events come in a fixed order: caps lock, num
    /// lock, shift, control, alt, meta, alternate graphics.
    pub fn diff_modifiers(&self, target_modifiers: &Modifiers) -> (events: Vec<RawKeyboardEvent>)
        ensures
            events@ == self.spec_diff_modifiers(target_modifiers),
    {
        let target = target_modifiers.trans_positional_mods();
        let current = self.trans_positional_mods();
        let mut events: Vec<RawKeyboardEvent> = Vec::new();
        push_lock_toggle(&mut events, current, target, CAPS, PhysKeyCode::CapsLock);
        push_lock_toggle(&mut events, current, target, NUM, PhysKeyCode::NumLock);
        push_side_events(
            &mut events,
            current,
            target,
            SHIFT,
            PhysKeyCode::ShiftLeft,
            PhysKeyCode::ShiftRight,
        );
        push_side_events(
            &mut events,
            current,
            target,
            CTRL,
            PhysKeyCode::ControlLeft,
            PhysKeyCode::ControlRight,
        );
        push_side_events(
            &mut events,
            current,
            target,
            ALT,
            PhysKeyCode::AltLeft,
            PhysKeyCode::AltRight,
        );
        push_side_events(
            &mut events,
            current,
            target,
            META,
            PhysKeyCode::MetaLeft,
            PhysKeyCode::MetaRight,
        );
        push_side_events(
            &mut events,
            current,
            target,
            ALT_GR,
            PhysKeyCode::AltRight,
            PhysKeyCode::AltRight,
        );
        events
    }

    /// Two sets that are the same need no event.
    pub proof fn lemma_diff_modifiers_same(m: Modifiers)
        ensures
            m.spec_diff_modifiers(&m) == Seq::<RawKeyboardEvent>::empty(),
    {
    }
}

/// The state of a keyboard as far as modifiers go: which keys are down,
/// and whether caps lock and num lock are on.
pub type KeyboardState = (Set<PhysKeyCode>, bool, bool);

/// What a key event does to a keyboard: a press of a lock key turns the
/// lock over, its release does nothing; any other key goes down or comes
/// up.
pub open spec fn after_event(state: KeyboardState, event: RawKeyboardEvent) -> KeyboardState {
    if event.phys == PhysKeyCode::CapsLock {
        (state.0, state.1 != event.press, state.2)
    } else if event.phys == PhysKeyCode::NumLock {
        (state.0, state.1, state.2 != event.press)
    } else if event.press {
        (state.0.insert(event.phys), state.1, state.2)
    } else {
        (state.0.remove(event.phys), state.1, state.2)
    }
}

/// What a list of key events does to a keyboard, one after the other.
pub open spec fn after_events(state: KeyboardState, events: Seq<RawKeyboardEvent>) -> KeyboardState
    decreases events.len(),
{
    if events.len() == 0 {
        state
    } else {
        after_event(after_events(state, events.drop_last()), events.last())
    }
}

/// Whether a keyboard shows a set of modifiers, read in its logical form:
/// each lock is on exactly when the set holds it, and shift, control, alt
/// and meta are held exactly when one of their two keys is down.
pub open spec fn shows(state: KeyboardState, modifiers: Modifiers) -> bool {
    let logical = modifiers.spec_trans_positional_mods();
    &&& logical.has(CAPS) == state.1
    &&& logical.has(NUM) == state.2
    &&& logical.has(SHIFT) == (state.0.contains(PhysKeyCode::ShiftLeft) || state.0.contains(
        PhysKeyCode::ShiftRight,
    ))
    &&& logical.has(CTRL) == (state.0.contains(PhysKeyCode::ControlLeft) || state.0.contains(
        PhysKeyCode::ControlRight,
    ))
    &&& logical.has(ALT) == (state.0.contains(PhysKeyCode::AltLeft) || state.0.contains(
        PhysKeyCode::AltRight,
    ))
    &&& logical.has(META) == (state.0.contains(PhysKeyCode::MetaLeft) || state.0.contains(
        PhysKeyCode::MetaRight,
    ))
}

/// Events that are given one list after another act as the first list,
/// then the second.
pub proof fn lemma_after_events_concat(
    state: KeyboardState,
    first: Seq<RawKeyboardEvent>,
    second: Seq<RawKeyboardEvent>,
)
    ensures
        after_events(state, first + second) == after_events(after_events(state, first), second),
    decreases second.len(),
{
    if second.len() == 0 {
        assert(first + second =~= first);
    } else {
        assert((first + second).drop_last() =~= first + second.drop_last());
        assert((first + second).last() == second.last());
        lemma_after_events_concat(state, first, second.drop_last());
    }
}

/// What at most two events do to a keyboard.
proof fn lemma_after_few_events(state: KeyboardState, events: Seq<RawKeyboardEvent>)
    requires
        events.len() <= 2,
    ensures
        events.len() == 0 ==> after_events(state, events) == state,
        events.len() == 1 ==> after_events(state, events) == after_event(state, events[0]),
        events.len() == 2 ==> after_events(state, events) == after_event(
            after_event(state, events[0]),
            events[1],
        ),
{
    reveal_with_fuel(after_events, 3);
    if events.len() == 1 {
        assert(events.drop_last().len() == 0);
    }
    if events.len() == 2 {
        assert(events.drop_last().len() == 1);
        assert(events.drop_last()[0] == events[0]);
        assert(events.drop_last().drop_last().len() == 0);
    }
}

/// What bringing a lock into agreement does to a keyboard: the lock is
/// turned over where the two sets differ in it, and nothing else changes.
proof fn lemma_after_lock_toggle(
    state: KeyboardState,
    current: Modifiers,
    target: Modifiers,
    mask: u32,
    caps: bool,
)
    ensures
        ({
            let phys = if caps {
                PhysKeyCode::CapsLock
            } else {
                PhysKeyCode::NumLock
            };
            let after = after_events(state, lock_toggle(current, target, mask, phys));
            let turned = current.has(mask) != target.has(mask);
            &&& after.0 == state.0
            &&& after.1 == (if caps {
                state.1 != turned
            } else {
                state.1
            })
            &&& after.2 == (if caps {
                state.2
            } else {
                state.2 != turned
            })
        }),
{
    let phys = if caps {
        PhysKeyCode::CapsLock
    } else {
        PhysKeyCode::NumLock
    };
    lemma_after_few_events(state, lock_toggle(current, target, mask, phys));
}

/// What bringing a held modifier into agreement does to a keyboard: both
/// of its keys come up where it has to go, its left key goes down where it
/// has to come, and nothing else changes.
proof fn lemma_after_side_events(
    state: KeyboardState,
    current: Modifiers,
    target: Modifiers,
    mask: u32,
    left: PhysKeyCode,
    right: PhysKeyCode,
)
    requires
        left != PhysKeyCode::CapsLock,
        left != PhysKeyCode::NumLock,
        right != PhysKeyCode::CapsLock,
        right != PhysKeyCode::NumLock,
    ensures
        ({
            let after = after_events(state, side_events(current, target, mask, left, right));
            &&& after.1 == state.1
            &&& after.2 == state.2
            &&& forall|phys: PhysKeyCode|
                phys != left && phys != right ==> after.0.contains(phys) == state.0.contains(phys)
            &&& current.has(mask) && !target.has(mask) ==> !after.0.contains(left)
                && !after.0.contains(right)
            &&& !current.has(mask) && target.has(mask) ==> after.0.contains(left) && (left != right
                ==> after.0.contains(right) == state.0.contains(right))
            &&& current.has(mask) == target.has(mask) ==> after.0 == state.0
        }),
{
    lemma_after_few_events(state, side_events(current, target, mask, left, right));
}

impl Modifiers {
    /// Replaying the events brings the keyboard to the target: on a
    /// keyboard that shows this set, the events of `diff_modifiers` leave a
    /// keyboard that shows `target`.
    ///
    /// This holds of sets without alternate graphics. That modifier has
    /// the right alt key for its own, which alt releases too, so the two
    /// cannot be told apart by the keys that are down.
    pub proof fn lemma_diff_modifiers_converges(
        current: Modifiers,
        target: Modifiers,
        state: KeyboardState,
    )
        requires
            shows(state, current),
            !current.has(ALT_GR),
            !target.has(ALT_GR),
        ensures
            shows(after_events(state, current.spec_diff_modifiers(&target)), target),
    {
        let from = current.spec_trans_positional_mods();
        let to = target.spec_trans_positional_mods();
        assert(!from.has(ALT_GR) && !to.has(ALT_GR)) by {
            Modifiers::lemma_trans_positional_mods_holds(current);
            Modifiers::lemma_trans_positional_mods_holds(target);
        }
        let caps = lock_toggle(from, to, CAPS, PhysKeyCode::CapsLock);
        let num = lock_toggle(from, to, NUM, PhysKeyCode::NumLock);
        let shift = side_events(from, to, SHIFT, PhysKeyCode::ShiftLeft, PhysKeyCode::ShiftRight);
        let ctrl = side_events(
            from,
            to,
            CTRL,
            PhysKeyCode::ControlLeft,
            PhysKeyCode::ControlRight,
        );
        let alt = side_events(from, to, ALT, PhysKeyCode::AltLeft, PhysKeyCode::AltRight);
        let meta = side_events(from, to, META, PhysKeyCode::MetaLeft, PhysKeyCode::MetaRight);
        let alt_gr = side_events(from, to, ALT_GR, PhysKeyCode::AltRight, PhysKeyCode::AltRight);
        let s1 = after_events(state, caps);
        let s2 = after_events(s1, num);
        let s3 = after_events(s2, shift);
        let s4 = after_events(s3, ctrl);
        let s5 = after_events(s4, alt);
        let s6 = after_events(s5, meta);
        let s7 = after_events(s6, alt_gr);
        assert(after_events(state, current.spec_diff_modifiers(&target)) == s7) by {
            lemma_after_events_concat(state, caps, num);
            lemma_after_events_concat(state, caps + num, shift);
            lemma_after_events_concat(state, caps + num + shift, ctrl);
            lemma_after_events_concat(state, caps + num + shift + ctrl, alt);
            lemma_after_events_concat(state, caps + num + shift + ctrl + alt, meta);
            lemma_after_events_concat(state, caps + num + shift + ctrl + alt + meta, alt_gr);
        }
        lemma_after_lock_toggle(state, from, to, CAPS, true);
        lemma_after_lock_toggle(s1, from, to, NUM, false);
        lemma_after_side_events(s2, from, to, SHIFT, PhysKeyCode::ShiftLeft, PhysKeyCode::ShiftRight);
        lemma_after_side_events(
            s3,
            from,
            to,
            CTRL,
            PhysKeyCode::ControlLeft,
            PhysKeyCode::ControlRight,
        );
        lemma_after_side_events(s4, from, to, ALT, PhysKeyCode::AltLeft, PhysKeyCode::AltRight);
        lemma_after_side_events(s5, from, to, META, PhysKeyCode::MetaLeft, PhysKeyCode::MetaRight);
        lemma_after_side_events(s6, from, to, ALT_GR, PhysKeyCode::AltRight, PhysKeyCode::AltRight);
        assert(s7.0 == s6.0);
    }
}

} // verus!
