use vstd::prelude::*;
use vstd::std_specs::convert::FromSpecImpl;
use crate::convert_map::{convert_key_to_phys, key_to_phys};
use crate::event::RawKeyboardEvent;
use crate::key::Key;
use crate::modifiers::{Modifiers, ALT_GR, SHIFT};
use crate::phys_key::PhysKeyCode;
use std::collections::HashMap;

verus! {

broadcast use vstd::std_specs::hash::group_hash_axioms;

/// One of the four layouts that a keyboard can switch between.
#[derive(Clone, Copy, Debug, PartialEq, Eq, Hash, Structural)]
pub enum GroupIndex {
    N1,
    N2,
    N3,
    N4,
}

/// The group with the given number, counted from 0. Numbers past the last
/// group stand for the last group.
pub open spec fn group_of(number: int) -> GroupIndex {
    if number == 0 {
        GroupIndex::N1
    } else if number == 1 {
        GroupIndex::N2
    } else if number == 2 {
        GroupIndex::N3
    } else {
        GroupIndex::N4
    }
}

/// The number of a group, counted from 0.
pub open spec fn number_of(group: GroupIndex) -> u32 {
    match group {
        GroupIndex::N1 => 0,
        GroupIndex::N2 => 1,
        GroupIndex::N3 => 2,
        GroupIndex::N4 => 3,
    }
}

impl From<u32> for GroupIndex {
    /// The group with the given number. Numbers past the last group give
    /// the last group.
    fn from(group_id: u32) -> (group: GroupIndex) {
        match group_id {
            0 => GroupIndex::N1,
            1 => GroupIndex::N2,
            2 => GroupIndex::N3,
            _ => GroupIndex::N4,
        }
    }
}

impl FromSpecImpl<u32> for GroupIndex {
    open spec fn obeys_from_spec() -> bool {
        true
    }

    open spec fn from_spec(group_id: u32) -> GroupIndex {
        group_of(group_id as int)
    }
}

impl From<GroupIndex> for u32 {
    /// The number of the group, counted from 0.
    fn from(group_index: GroupIndex) -> (number: u32) {
        match group_index {
            GroupIndex::N1 => 0,
            GroupIndex::N2 => 1,
            GroupIndex::N3 => 2,
            GroupIndex::N4 => 3,
        }
    }
}

impl FromSpecImpl<GroupIndex> for u32 {
    open spec fn obeys_from_spec() -> bool {
        true
    }

    open spec fn from_spec(group_index: GroupIndex) -> u32 {
        number_of(group_index)
    }
}

/// A group is read back from its own number.
pub proof fn lemma_group_number_round_trip(group: GroupIndex)
    ensures
        group_of(number_of(group) as int) == group,
        0 <= number_of(group) < 4,
{
}

/// The modifier bits that a shift level of a layout asks for: none at the
/// base level, shift at the first, alternate graphics at the second, both
/// at the third. Higher levels are not supported and ask for none.
pub open spec fn level_bits(level: int) -> u32 {
    if level == 1 {
        SHIFT
    } else if level == 2 {
        ALT_GR
    } else if level == 3 {
        0x2002
    } else {
        0
    }
}

/// The modifiers that have to be held to reach a shift level of a layout.
/// Levels past the fourth are not supported: they give the empty set.
#[inline]
pub fn level_to_modifiers(level: u32) -> (modifiers: Modifiers)
    ensures
        modifiers.bits == level_bits(level as int),
        modifiers.is_valid(),
{
    assert(0x0002u32 & !0x3ffeu32 == 0 && 0x2000u32 & !0x3ffeu32 == 0 && 0x2002u32 & !0x3ffeu32
        == 0 && 0u32 & !0x3ffeu32 == 0) by (bit_vector);
    match level {
        0 => Modifiers { bits: 0 },
        1 => Modifiers { bits: SHIFT },
        2 => Modifiers { bits: ALT_GR },
        3 => Modifiers { bits: 0x2002 },
        _ => Modifiers { bits: 0 },
    }
}

/// What the platform's keymap holds for one hardware key.
#[derive(Clone, Debug)]
pub struct HardwareKey {
    /// The native key that the platform binds to the key.
    pub key: Key,
    /// The keysym that the key produces in the keyboard's present state,
    /// or 0 where it produces none.
    pub one_sym: u32,
    /// For each layout, for each shift level of that layout, the keysyms
    /// that the key produces there.
    pub layouts: Vec<Vec<Vec<u32>>>,
}

/// A copy of the platform's keymap, as plain values: the hardware keys with
/// consecutive key codes from `min_keycode` on, and which layouts are
/// locked.
#[derive(Clone, Debug)]
pub struct HardwareKeymap {
    /// The key code of the first hardware key.
    pub min_keycode: u32,
    /// The hardware keys, in the order of their key codes.
    pub keys: Vec<HardwareKey>,
    /// For each layout, whether it is the locked one.
    pub locked_layouts: Vec<bool>,
}

impl HardwareKeymap {
    /// Whether the keymap holds a key with this key code.
    pub open spec fn has_keycode(&self, keycode: int) -> bool {
        self.min_keycode <= keycode < self.min_keycode + self.keys@.len()
    }

    /// The key with this key code.
    pub open spec fn key_at(&self, keycode: int) -> HardwareKey {
        self.keys@[keycode - self.min_keycode]
    }

    /// How many shift levels a key has in a layout: 0 where the keymap
    /// does not hold the key or the key does not have the layout.
    pub open spec fn spec_num_levels(&self, keycode: int, layout: int) -> int {
        if self.has_keycode(keycode) && 0 <= layout < self.key_at(keycode).layouts@.len() {
            self.key_at(keycode).layouts@[layout]@.len() as int
        } else {
            0
        }
    }

    /// The keysyms that a key produces at a level of a layout: none where
    /// the key has no such level.
    pub open spec fn spec_syms(&self, keycode: int, layout: int, level: int) -> Seq<u32> {
        if 0 <= level < self.spec_num_levels(keycode, layout) {
            self.key_at(keycode).layouts@[layout]@[level]@
        } else {
            Seq::empty()
        }
    }

    /// The keysym that a key produces in the keyboard's present state: 0
    /// where it produces none or the keymap does not hold the key.
    pub open spec fn spec_one_sym(&self, keycode: int) -> u32 {
        if self.has_keycode(keycode) {
            self.key_at(keycode).one_sym
        } else {
            0
        }
    }

    /// The position of a hardware key, where the keymap holds the key and
    /// its native key has a position.
    pub open spec fn spec_phys(&self, keycode: int) -> Option<PhysKeyCode> {
        if self.has_keycode(keycode) {
            key_to_phys(self.key_at(keycode).key)
        } else {
            None
        }
    }

    /// The highest key code of the keymap, where it has keys and they all
    /// have a key code.
    pub open spec fn spec_last_keycode(&self) -> Option<u32> {
        if self.keys@.len() == 0 || self.min_keycode + self.keys@.len() > u32::MAX + 1 {
            None
        } else {
            Some((self.min_keycode + self.keys@.len() - 1) as u32)
        }
    }

    /// The place of a key code in the list of keys.
    fn index_of(&self, keycode: u32) -> (index: Option<usize>)
        ensures
            self.has_keycode(keycode as int) ==> index == Some(
                (keycode - self.min_keycode) as usize,
            ),
            !self.has_keycode(keycode as int) ==> index is None,
    {
        if keycode < self.min_keycode {
            return None;
        }
        let offset: u32 = keycode - self.min_keycode;
        if (offset as usize) < self.keys.len() {
            Some(offset as usize)
        } else {
            None
        }
    }

    /// The lowest key code of the keymap.
    pub fn min_keycode(&self) -> (keycode: u32)
        ensures
            keycode == self.min_keycode,
    {
        self.min_keycode
    }

    /// The highest key code of the keymap. A keymap without keys, or with
    /// more keys than there are key codes, has none.
    pub fn max_keycode(&self) -> (keycode: Option<u32>)
        ensures
            keycode == self.spec_last_keycode(),
    {
        let count: usize = self.keys.len();
        if count == 0 {
            return None;
        }
        let room: u32 = u32::MAX - self.min_keycode;
        if count - 1 > room as usize {
            return None;
        }
        Some(self.min_keycode + (count - 1) as u32)
    }

    /// How many shift levels a key has in a layout.
    pub fn num_levels_for_key(&self, keycode: u32, layout: u32) -> (levels: usize)
        ensures
            levels == self.spec_num_levels(keycode as int, layout as int),
    {
        match self.index_of(keycode) {
            Some(index) => {
                let key = &self.keys[index];
                if (layout as usize) < key.layouts.len() {
                    key.layouts[layout as usize].len()
                } else {
                    0
                }
            },
            None => 0,
        }
    }

    /// The first keysym that a key produces at a level of a layout, if it
    /// produces any there.
    pub fn first_sym_by_level(&self, keycode: u32, layout: u32, level: usize) -> (keysym: Option<
        u32,
    >)
        ensures
            self.spec_syms(keycode as int, layout as int, level as int).len() == 0 ==> keysym
                is None,
            self.spec_syms(keycode as int, layout as int, level as int).len() > 0 ==> keysym
                == Some(self.spec_syms(keycode as int, layout as int, level as int)[0]),
    {
        if level >= self.num_levels_for_key(keycode, layout) {
            return None;
        }
        match self.index_of(keycode) {
            Some(index) => {
                let syms = &self.keys[index].layouts[layout as usize][level];
                if syms.len() > 0 {
                    Some(syms[0])
                } else {
                    None
                }
            },
            None => None,
        }
    }

    /// The keysym that a key produces in the keyboard's present state, or
    /// 0.
    pub fn key_get_one_sym(&self, keycode: u32) -> (keysym: u32)
        ensures
            keysym == self.spec_one_sym(keycode as int),
    {
        match self.index_of(keycode) {
            Some(index) => self.keys[index].one_sym,
            None => 0,
        }
    }

    /// The position of a hardware key, if it has one.
    pub fn phys_of(&self, keycode: u32) -> (phys: Option<PhysKeyCode>)
        ensures
            phys == self.spec_phys(keycode as int),
    {
        match self.index_of(keycode) {
            Some(index) => convert_key_to_phys(&self.keys[index].key),
            None => None,
        }
    }
}

/// Whether `index` is the last layout that is locked.
pub open spec fn is_last_locked(locked: Seq<bool>, index: int) -> bool {
    &&& 0 <= index < locked.len()
    &&& locked[index]
    &&& forall|later: int| index < later < locked.len() ==> !#[trigger] locked[later]
}

/// The layout that is in use: the last one that is locked, or the first
/// layout where none is locked. Keyboards have four layouts at most, so a
/// layout past the fourth counts as the fourth.
pub open spec fn active_group_of(locked: Seq<bool>) -> GroupIndex {
    if exists|index: int| is_last_locked(locked, index) {
        group_of(choose|index: int| is_last_locked(locked, index))
    } else {
        GroupIndex::N1
    }
}

/// The layout in use is the one that is locked. Where several are, it is
/// the last of them, and where none is, it is the first layout.
pub proof fn lemma_active_group(locked: Seq<bool>, index: int)
    ensures
        is_last_locked(locked, index) ==> active_group_of(locked) == group_of(index),
        (forall|any: int| 0 <= any < locked.len() ==> !#[trigger] locked[any]) ==> active_group_of(
            locked,
        ) == GroupIndex::N1,
{
    if is_last_locked(locked, index) {
        let chosen = choose|index: int| is_last_locked(locked, index);
        assert(is_last_locked(locked, chosen));
        assert(chosen == index);
    }
}

/// Finds the layout that is in use: the one whose locked state is set, and
/// the last of them should several be. Where none is locked, the first
/// layout is taken.
pub fn get_active_group_index(keymap: &HardwareKeymap) -> (group: GroupIndex)
    ensures
        group == active_group_of(keymap.locked_layouts@),
{
    let count: usize = keymap.locked_layouts.len();
    let mut group: GroupIndex = GroupIndex::N1;
    let mut index: usize = 0;
    let ghost mut last: int = -1;
    while index < count
        invariant
            index <= count,
            count == keymap.locked_layouts@.len(),
            -1 <= last < index,
            last >= 0 ==> keymap.locked_layouts@[last] && group == group_of(last),
            last == -1 ==> group == GroupIndex::N1,
            forall|later: int| last < later < index ==> !#[trigger] keymap.locked_layouts@[later],
        decreases count - index,
    {
        if keymap.locked_layouts[index] {
            group =
            if index > 3 {
                GroupIndex::N4
            } else {
                GroupIndex::from(index as u32)
            };
            proof {
                last = index as int;
            }
        }
        index += 1;
    }
    proof {
        if last >= 0 {
            assert(is_last_locked(keymap.locked_layouts@, last));
            lemma_active_group(keymap.locked_layouts@, last);
        } else {
            lemma_active_group(keymap.locked_layouts@, 0);
        }
    }
    group
}

impl HardwareKeymap {
    /// Whether a key produces `keysym` at a level of a layout, as the first
    /// keysym of that level, and has a position by which it can be
    /// tapped. Such a key and level are a route to the keysym.
    pub open spec fn route(&self, layout: int, keycode: int, level: int, keysym: u32) -> bool {
        &&& 0 <= level < self.spec_num_levels(keycode, layout)
        &&& self.spec_syms(keycode, layout, level).len() > 0
        &&& self.spec_syms(keycode, layout, level)[0] == keysym
        &&& self.spec_phys(keycode) is Some
    }

    /// What is recorded of a route: a key event at the key's position,
    /// with the modifiers that the level asks for and the keysym as its
    /// system code. It is neither a press nor yet a release: `press` is
    /// unset.
    pub open spec fn entry(&self, keycode: int, level: int, keysym: u32) -> RawKeyboardEvent {
        RawKeyboardEvent {
            phys: self.spec_phys(keycode)->0,
            press: false,
            modifiers: Modifiers { bits: level_bits(level) },
            sys_code: keysym,
        }
    }

    /// Whether a route is the one that counts among the keys from `min` to
    /// `max`: no route to the keysym is at a lower level, and of the keys
    /// that reach the keysym at its level it is on the one with the
    /// highest key code.
    pub open spec fn best_route(
        &self,
        layout: int,
        min: int,
        max: int,
        keycode: int,
        level: int,
        keysym: u32,
    ) -> bool {
        &&& min <= keycode <= max
        &&& self.route(layout, keycode, level, keysym)
        &&& forall|k: int, l: int|
            min <= k <= max && #[trigger] self.route(layout, k, l, keysym) ==> l > level || (l
                == level && k <= keycode)
    }

    /// Whether `map` is the table of keysyms for a layout and the keys
    /// from `min` to `max`: it holds exactly the keysyms that have a route,
    /// and for each of them what is recorded of the route that counts.
    pub open spec fn is_keysym_event_map(
        &self,
        map: Map<u32, RawKeyboardEvent>,
        min: int,
        max: int,
        layout: int,
    ) -> bool {
        &&& forall|keysym: u32| #[trigger]
            map.contains_key(keysym) ==> exists|k: int, l: int| #[trigger]
                self.best_route(layout, min, max, k, l, keysym) && map[keysym] == self.entry(
                    k,
                    l,
                    keysym,
                )
        &&& forall|keysym: u32, k: int, l: int|
            min <= k <= max && #[trigger] self.route(layout, k, l, keysym) ==> map.contains_key(
                keysym,
            )
    }

    /// Whether a key and level have been looked at once the keys below
    /// `keycode` are done, and of `keycode` the levels from `level` up.
    spec fn seen(min: int, keycode: int, level: int, k: int, l: int) -> bool {
        min <= k && (k < keycode || (k == keycode && l >= level))
    }

    /// Whether `map` holds what the routes that have been looked at give,
    /// `at_key` and `at_level` naming for each keysym the route that counts
    /// among them, and `levels` holding the level of that route.
    spec fn tracks(
        &self,
        map: Map<u32, RawKeyboardEvent>,
        levels: Map<u32, usize>,
        at_key: Map<u32, int>,
        at_level: Map<u32, int>,
        layout: int,
        min: int,
        keycode: int,
        level: int,
    ) -> bool {
        &&& forall|keysym: u32, k: int, l: int|
            Self::seen(min, keycode, level, k, l) && #[trigger] self.route(layout, k, l, keysym)
                ==> map.contains_key(keysym)
        &&& forall|keysym: u32| #[trigger]
            levels.contains_key(keysym) == map.contains_key(keysym)
        &&& forall|keysym: u32| #[trigger]
            map.contains_key(keysym) ==> {
                &&& levels[keysym] == at_level[keysym]
                &&& Self::seen(min, keycode, level, at_key[keysym], at_level[keysym])
                &&& self.route(layout, at_key[keysym], at_level[keysym], keysym)
                &&& map[keysym] == self.entry(at_key[keysym], at_level[keysym], keysym)
                &&& forall|k: int, l: int|
                    Self::seen(min, keycode, level, k, l) && #[trigger] self.route(
                        layout,
                        k,
                        l,
                        keysym,
                    ) ==> l > at_level[keysym] || (l == at_level[keysym] && k <= at_key[keysym])
            }
    }

    /// Once every level of the keys up to `max` has been looked at, the
    /// map is the table of keysyms.
    proof fn lemma_tracked_map_is_table(
        &self,
        map: Map<u32, RawKeyboardEvent>,
        levels: Map<u32, usize>,
        at_key: Map<u32, int>,
        at_level: Map<u32, int>,
        layout: int,
        min: int,
        max: int,
    )
        requires
            self.tracks(map, levels, at_key, at_level, layout, min, max, 0),
        ensures
            self.is_keysym_event_map(map, min, max, layout),
    {
        assert forall|keysym: u32| #[trigger] map.contains_key(keysym) implies exists|
            k: int,
            l: int,
        | #[trigger]
            self.best_route(layout, min, max, k, l, keysym) && map[keysym] == self.entry(
                k,
                l,
                keysym,
            ) by {
            let wk = at_key[keysym];
            let wl = at_level[keysym];
            assert(Self::seen(min, max, 0, wk, wl));
            assert forall|k: int, l: int|
                min <= k <= max && #[trigger] self.route(layout, k, l, keysym) implies l > wl || (l
                == wl && k <= wk) by {
                assert(Self::seen(min, max, 0, k, l));
            }
            assert(self.best_route(layout, min, max, wk, wl, keysym));
        }
        assert forall|keysym: u32, k: int, l: int|
            min <= k <= max && #[trigger] self.route(
                layout,
                k,
                l,
                keysym,
            ) implies map.contains_key(keysym) by {
            assert(Self::seen(min, max, 0, k, l));
        }
    }

    /// The route that counts is the only one of its kind: whatever route
    /// counts for a keysym is the one that the table records.
    pub proof fn lemma_table_records_best_route(
        &self,
        map: Map<u32, RawKeyboardEvent>,
        min: int,
        max: int,
        layout: int,
        keycode: int,
        level: int,
        keysym: u32,
    )
        requires
            self.is_keysym_event_map(map, min, max, layout),
            self.best_route(layout, min, max, keycode, level, keysym),
        ensures
            map.contains_key(keysym),
            map[keysym] == self.entry(keycode, level, keysym),
    {
        assert(map.contains_key(keysym));
        let (k, l) = choose|k: int, l: int| #[trigger]
            self.best_route(layout, min, max, k, l, keysym) && map[keysym] == self.entry(
                k,
                l,
                keysym,
            );
        assert(self.route(layout, k, l, keysym));
        assert(self.route(layout, keycode, level, keysym));
        assert(k == keycode && l == level);
    }
}

/// The modifiers of a level given as a count of levels below it.
fn modifiers_of_level(level: usize) -> (modifiers: Modifiers)
    ensures
        modifiers.bits == level_bits(level as int),
{
    if level < 4 {
        level_to_modifiers(level as u32)
    } else {
        Modifiers { bits: 0 }
    }
}

/// Builds the table that says, for each keysym that a layout can produce,
/// which key to tap and which modifiers to hold.
///
/// Of all the ways to produce a keysym with the keys from `min_keycode` to
/// `max_keycode`, the one at the lowest shift level is recorded, which is
/// the one that takes the fewest modifiers. Where several keys produce the
/// keysym at that level, the key with the highest key code is taken. Only
/// the first keysym of a level counts, and keys without a position are
/// passed over.
pub fn build_keysym_event_map(
    keymap: &HardwareKeymap,
    min_keycode: u32,
    max_keycode: u32,
    layout: u32,
) -> (map: HashMap<u32, RawKeyboardEvent>)
    ensures
        keymap.is_keysym_event_map(map@, min_keycode as int, max_keycode as int, layout as int),
{
    let mut map: HashMap<u32, RawKeyboardEvent> = HashMap::new();
    let mut levels_at: HashMap<u32, usize> = HashMap::new();
    let ghost mut at_key: Map<u32, int> = Map::empty();
    let ghost mut at_level: Map<u32, int> = Map::empty();
    if min_keycode > max_keycode {
        return map;
    }
    let mut keycode: u32 = min_keycode;
    loop
        invariant_except_break
            min_keycode <= keycode <= max_keycode,
            keymap.tracks(
                map@,
                levels_at@,
                at_key,
                at_level,
                layout as int,
                min_keycode as int,
                keycode as int,
                keymap.spec_num_levels(keycode as int, layout as int),
            ),
        ensures
            keymap.tracks(
                map@,
                levels_at@,
                at_key,
                at_level,
                layout as int,
                min_keycode as int,
                max_keycode as int,
                0,
            ),
        decreases max_keycode - keycode,
    {
        let levels: usize = keymap.num_levels_for_key(keycode, layout);
        let phys: Option<PhysKeyCode> = keymap.phys_of(keycode);
        let mut level: usize = levels;
        while level > 0
            invariant
                level <= levels,
                levels == keymap.spec_num_levels(keycode as int, layout as int),
                phys == keymap.spec_phys(keycode as int),
                min_keycode <= keycode <= max_keycode,
                keymap.tracks(
                    map@,
                    levels_at@,
                    at_key,
                    at_level,
                    layout as int,
                    min_keycode as int,
                    keycode as int,
                    level as int,
                ),
            decreases level,
        {
            level -= 1;
            let ghost before = map@;
            let ghost levels_before = levels_at@;
            let ghost key_before = at_key;
            let ghost level_before = at_level;
            let mut found: Option<u32> = None;
            let mut recorded: bool = false;
            if let Some(position) = phys {
                if let Some(keysym) = keymap.first_sym_by_level(keycode, layout, level) {
                    found = Some(keysym);
                    let simpler: bool = match levels_at.get(&keysym) {
                        Some(stored) => level <= *stored,
                        None => true,
                    };
                    if simpler {
                        let event = RawKeyboardEvent {
                            phys: position,
                            press: false,
                            modifiers: modifiers_of_level(level),
                            sys_code: keysym,
                        };
                        map.insert(keysym, event);
                        levels_at.insert(keysym, level);
                        recorded = true;
                        proof {
                            at_key = at_key.insert(keysym, keycode as int);
                            at_level = at_level.insert(keysym, level as int);
                        }
                    }
                }
            }
            proof {
                let lay = layout as int;
                let min = min_keycode as int;
                let kc = keycode as int;
                let lv = level as int;
                assert forall|keysym: u32, k: int, l: int|
                    HardwareKeymap::seen(min, kc, lv, k, l) && #[trigger] keymap.route(
                        lay,
                        k,
                        l,
                        keysym,
                    ) implies map@.contains_key(keysym) by {
                    if HardwareKeymap::seen(min, kc, lv + 1, k, l) {
                        assert(before.contains_key(keysym));
                    } else {
                        assert(k == kc && l == lv);
                        assert(found == Some(keysym));
                        if !recorded {
                            assert(levels_before.contains_key(keysym));
                            assert(before.contains_key(keysym));
                        }
                    }
                }
                assert forall|keysym: u32| #[trigger]
                    levels_at@.contains_key(keysym) == map@.contains_key(keysym) by {
                    assert(levels_before.contains_key(keysym) == before.contains_key(keysym));
                }
                assert forall|keysym: u32| #[trigger] map@.contains_key(keysym) implies {
                    &&& levels_at@[keysym] == at_level[keysym]
                    &&& HardwareKeymap::seen(min, kc, lv, at_key[keysym], at_level[keysym])
                    &&& keymap.route(lay, at_key[keysym], at_level[keysym], keysym)
                    &&& map@[keysym] == keymap.entry(at_key[keysym], at_level[keysym], keysym)
                    &&& forall|k: int, l: int|
                        HardwareKeymap::seen(min, kc, lv, k, l) && #[trigger] keymap.route(
                            lay,
                            k,
                            l,
                            keysym,
                        ) ==> l > at_level[keysym] || (l == at_level[keysym] && k
                            <= at_key[keysym])
                } by {
                    if recorded && found == Some(keysym) {
                        assert(at_key[keysym] == kc && at_level[keysym] == lv);
                        assert forall|k: int, l: int|
                            HardwareKeymap::seen(min, kc, lv, k, l) && #[trigger] keymap.route(
                                lay,
                                k,
                                l,
                                keysym,
                            ) implies l > lv || (l == lv && k <= kc) by {
                            if HardwareKeymap::seen(min, kc, lv + 1, k, l) {
                                assert(before.contains_key(keysym));
                                assert(levels_before.contains_key(keysym));
                                assert(levels_before[keysym] == level_before[keysym]);
                                assert(HardwareKeymap::seen(
                                    min,
                                    kc,
                                    lv + 1,
                                    key_before[keysym],
                                    level_before[keysym],
                                ));
                            }
                        }
                    } else {
                        assert(before.contains_key(keysym));
                        assert(at_key[keysym] == key_before[keysym]);
                        assert(at_level[keysym] == level_before[keysym]);
                        assert(map@[keysym] == before[keysym]);
                        assert(levels_at@[keysym] == levels_before[keysym]);
                        assert(HardwareKeymap::seen(
                            min,
                            kc,
                            lv + 1,
                            at_key[keysym],
                            at_level[keysym],
                        ));
                        assert forall|k: int, l: int|
                            HardwareKeymap::seen(min, kc, lv, k, l) && #[trigger] keymap.route(
                                lay,
                                k,
                                l,
                                keysym,
                            ) implies l > at_level[keysym] || (l == at_level[keysym] && k
                            <= at_key[keysym]) by {
                            if !HardwareKeymap::seen(min, kc, lv + 1, k, l) {
                                assert(k == kc && l == lv);
                                assert(found == Some(keysym));
                                assert(!recorded);
                                assert(levels_before.contains_key(keysym));
                            }
                        }
                    }
                }
            }
        }
        if keycode == max_keycode {
            break ;
        }
        proof {
            let lay = layout as int;
            let min = min_keycode as int;
            let kc = keycode as int;
            let next_levels = keymap.spec_num_levels(kc + 1, lay);
            assert forall|k: int, l: int, keysym: u32| #[trigger]
                keymap.route(lay, k, l, keysym) implies (HardwareKeymap::seen(min, kc, 0, k, l)
                <==> HardwareKeymap::seen(min, kc + 1, next_levels, k, l)) by {}
        }
        keycode += 1;
    }
    proof {
        keymap.lemma_tracked_map_is_table(
            map@,
            levels_at@,
            at_key,
            at_level,
            layout as int,
            min_keycode as int,
            max_keycode as int,
        );
    }
    map
}

/// Where a keysym can be reached without modifiers on any key, the table
/// records it without modifiers, whatever other keys and levels reach it
/// too.
pub proof fn lemma_base_level_route_wins(
    keymap: HardwareKeymap,
    map: Map<u32, RawKeyboardEvent>,
    min: int,
    max: int,
    layout: int,
    keycode: int,
    keysym: u32,
)
    requires
        keymap.is_keysym_event_map(map, min, max, layout),
        min <= keycode <= max,
        keymap.route(layout, keycode, 0, keysym),
    ensures
        map.contains_key(keysym),
        map[keysym].modifiers == (Modifiers { bits: 0 }),
{
    lemma_lowest_level_wins(keymap, map, min, max, layout, keycode, 0, keysym);
}

/// The table records each keysym at the lowest level at which any key
/// reaches it, with the modifiers of that level, and on the highest of the
/// keys that reach it there.
pub proof fn lemma_lowest_level_wins(
    keymap: HardwareKeymap,
    map: Map<u32, RawKeyboardEvent>,
    min: int,
    max: int,
    layout: int,
    keycode: int,
    level: int,
    keysym: u32,
)
    requires
        keymap.is_keysym_event_map(map, min, max, layout),
        min <= keycode <= max,
        keymap.route(layout, keycode, level, keysym),
        forall|k: int, l: int|
            min <= k <= max && #[trigger] keymap.route(layout, k, l, keysym) ==> l >= level,
    ensures
        map.contains_key(keysym),
        map[keysym].modifiers == (Modifiers { bits: level_bits(level) }),
        exists|highest: int|
            {
                &&& keycode <= highest <= max
                &&& #[trigger] keymap.route(layout, highest, level, keysym)
                &&& map[keysym] == keymap.entry(highest, level, keysym)
                &&& forall|k: int|
                    min <= k <= max && #[trigger] keymap.route(layout, k, level, keysym) ==> k
                        <= highest
            },
{
    assert(map.contains_key(keysym));
    let (k, l) = choose|k: int, l: int| #[trigger]
        keymap.best_route(layout, min, max, k, l, keysym) && map[keysym] == keymap.entry(
            k,
            l,
            keysym,
        );
    assert(keymap.route(layout, k, l, keysym));
    assert(l == level);
    assert(keymap.route(layout, k, level, keysym));
}

/// What is known of the local keyboard for one session: which layout is
/// in use, and how each keysym of that layout is produced.
///
/// It is built from a copy of the platform's keymap and holds for as long
/// as the platform reports no change of layout. After a change it has to be
/// built again.
#[derive(Clone, Debug)]
pub struct XKeyboard {
    /// For each keysym that a key produces in the keyboard's present state,
    /// the code of that key.
    pub keysym_keycode_map: HashMap<u32, u32>,
    /// For each keysym of the layout in use, the key to tap and the
    /// modifiers to hold.
    pub keysym_event_map: HashMap<u32, RawKeyboardEvent>,
    /// The codes of the keys that produce nothing.
    pub unused_keycodes: Vec<u32>,
    /// The layout in use.
    pub active_group: GroupIndex,
    /// The platform's number for the keyboard.
    pub device_id: u8,
}

impl HardwareKeymap {
    /// Whether `map` says which key produces each keysym in the
    /// keyboard's present state, for the keys from `min` up to but not
    /// including `end`: it holds exactly the keysyms that one of them
    /// produces, each with the highest key code that produces it.
    pub open spec fn is_keysym_keycode_map(&self, map: Map<u32, u32>, min: int, end: int) -> bool {
        &&& forall|keysym: u32| #[trigger]
            map.contains_key(keysym) ==> {
                &&& keysym != 0
                &&& min <= map[keysym] < end
                &&& self.spec_one_sym(map[keysym] as int) == keysym
            }
        &&& forall|k: int|
            min <= k < end && #[trigger] self.spec_one_sym(k) != 0 ==> {
                &&& map.contains_key(self.spec_one_sym(k))
                &&& k <= map[self.spec_one_sym(k)]
            }
    }

    /// Whether `unused` lists, in rising order, the keys from `min` up to
    /// but not including `end` that produce nothing in the keyboard's
    /// present state.
    pub open spec fn is_unused_list(&self, unused: Seq<u32>, min: int, end: int) -> bool {
        &&& forall|i: int, j: int| 0 <= i < j < unused.len() ==> unused[i] < unused[j]
        &&& forall|i: int|
            0 <= i < unused.len() ==> min <= (#[trigger] unused[i]) < end && self.spec_one_sym(
                unused[i] as int,
            ) == 0
        &&& forall|k: u32|
            min <= k < end && #[trigger] self.spec_one_sym(k as int) == 0 ==> unused.contains(k)
    }
}

impl XKeyboard {
    /// Works out what a session needs to know of the keyboard from a copy
    /// of the platform's keymap.
    ///
    /// The layout in use is the locked one. The table of keysyms is built
    /// for that layout over all keys of the keymap. The keys but the last
    /// are sorted by what they produce in the keyboard's present state:
    /// those that produce a keysym are recorded under it, the others are
    /// listed as unused.
    pub fn new(keymap: &HardwareKeymap, device_id: u8) -> (keyboard: XKeyboard)
        ensures
            keyboard.device_id == device_id,
            keyboard.active_group == active_group_of(keymap.locked_layouts@),
            keymap.spec_last_keycode() matches Some(max) ==> {
                &&& keymap.is_keysym_event_map(
                    keyboard.keysym_event_map@,
                    keymap.min_keycode as int,
                    max as int,
                    number_of(keyboard.active_group) as int,
                )
                &&& keymap.is_keysym_keycode_map(
                    keyboard.keysym_keycode_map@,
                    keymap.min_keycode as int,
                    max as int,
                )
                &&& keymap.is_unused_list(
                    keyboard.unused_keycodes@,
                    keymap.min_keycode as int,
                    max as int,
                )
            },
            keymap.spec_last_keycode() is None ==> {
                &&& keyboard.keysym_event_map@ == Map::<u32, RawKeyboardEvent>::empty()
                &&& keyboard.keysym_keycode_map@ == Map::<u32, u32>::empty()
                &&& keyboard.unused_keycodes@ == Seq::<u32>::empty()
            },
    {
        let active_group: GroupIndex = get_active_group_index(keymap);
        let mut keysym_keycode_map: HashMap<u32, u32> = HashMap::new();
        let mut unused_keycodes: Vec<u32> = Vec::new();
        let min_keycode: u32 = keymap.min_keycode();
        let max_keycode: u32 = match keymap.max_keycode() {
            Some(max_keycode) => max_keycode,
            None => {
                return XKeyboard {
                    keysym_keycode_map,
                    keysym_event_map: HashMap::new(),
                    unused_keycodes,
                    active_group,
                    device_id,
                };
            },
        };
        let mut keycode: u32 = min_keycode;
        while keycode < max_keycode
            invariant
                min_keycode == keymap.min_keycode,
                min_keycode <= keycode <= max_keycode,
                keymap.is_keysym_keycode_map(
                    keysym_keycode_map@,
                    min_keycode as int,
                    keycode as int,
                ),
                keymap.is_unused_list(unused_keycodes@, min_keycode as int, keycode as int),
            decreases max_keycode - keycode,
        {
            let keysym: u32 = keymap.key_get_one_sym(keycode);
            let ghost unused_before = unused_keycodes@;
            let ghost map_before = keysym_keycode_map@;
            if keysym == 0 {
                unused_keycodes.push(keycode);
                proof {
                    assert(unused_keycodes@[unused_before.len() as int] == keycode);
                    assert forall|k: u32|
                        min_keycode <= k < keycode + 1 && #[trigger] keymap.spec_one_sym(k as int)
                            == 0 implies unused_keycodes@.contains(k) by {
                        if k < keycode {
                            assert(unused_before.contains(k));
                            let i = choose|i: int| 0 <= i < unused_before.len() && unused_before[i] == k;
                            assert(unused_keycodes@[i] == k);
                        }
                    }
                }
            } else {
                keysym_keycode_map.insert(keysym, keycode);
            }
            keycode += 1;
        }
        let keysym_event_map: HashMap<u32, RawKeyboardEvent> = build_keysym_event_map(
            keymap,
            min_keycode,
            max_keycode,
            active_group.into(),
        );
        XKeyboard { keysym_keycode_map, keysym_event_map, unused_keycodes, active_group, device_id }
    }
}

} // verus!
