use crate::action::{Keybind, KeybindAction};
use crate::protocol::{mod_mask_n4, mod_mask_shift, super_bits, super_shift_bits};
use vstd::prelude::*;

verus! {

/// No two bindings answer to the same key under the same modifiers.
pub open spec fn distinct_bindings(keybinds: Seq<Keybind>) -> bool {
    forall|i: int, j: int|
        0 <= i < j < keybinds.len() ==> !(#[trigger] keybinds[i]).binds(
            (#[trigger] keybinds[j]).keycode,
            keybinds[j].modifier,
        )
}

/// The position of the first binding of `keybinds` that answers to `keycode`
/// under `state`, or the length of `keybinds` if none does.
pub open spec fn first_binding(keybinds: Seq<Keybind>, keycode: u8, state: u32) -> int
    decreases keybinds.len(),
{
    if keybinds.len() == 0 {
        0
    } else if keybinds[0].binds(keycode, state) {
        0
    } else {
        1 + first_binding(keybinds.drop_first(), keycode, state)
    }
}

/// The binding that a press of `keycode` under `state` selects: the first one
/// that answers to it.
pub open spec fn lookup(keybinds: Seq<Keybind>, keycode: u8, state: u32) -> Option<Keybind> {
    let at = first_binding(keybinds, keycode, state);
    if at < keybinds.len() {
        Some(keybinds[at])
    } else {
        None
    }
}

/// The number of workspaces that the built-in bindings address.
pub const DEFAULT_WORKSPACES: usize = 10;

/// The built-in table. Under Super, key 36 launches a terminal and key 33 a
/// program menu; under Super and Shift, key 54 closes the focused window. The
/// keys 10 to 19 stand for the workspaces 0 to 9: under Super they switch to
/// their workspace, under Super and Shift they send the focused window there.
pub open spec fn default_keybinds() -> Seq<Keybind> {
    seq![
        Keybind { action: KeybindAction::Command("alacritty"), keycode: 36, modifier: super_bits() },
        Keybind { action: KeybindAction::Command("dmenu_run"), keycode: 33, modifier: super_bits() },
        Keybind {
            action: KeybindAction::CloseFocused,
            keycode: 54,
            modifier: super_shift_bits(),
        },
    ] + workspace_keybinds(DEFAULT_WORKSPACES as nat)
}

/// The bindings of the first `count` workspaces, two for each: the switch,
/// then the move.
pub open spec fn workspace_keybinds(count: nat) -> Seq<Keybind> {
    Seq::new(
        2 * count,
        |k: int|
            if k % 2 == 0 {
                Keybind {
                    action: KeybindAction::MoveToWorkspace((k / 2) as usize),
                    keycode: (k / 2 + 10) as u8,
                    modifier: super_bits(),
                }
            } else {
                Keybind {
                    action: KeybindAction::MoveFocusedToWorkspace((k / 2) as usize),
                    keycode: (k / 2 + 10) as u8,
                    modifier: super_shift_bits(),
                }
            },
    )
}

/// The keybind table. It is built once and only read afterwards.
#[derive(Debug, PartialEq, Eq)]
pub struct Config {
    keybinds: Vec<Keybind>,
}

impl View for Config {
    type V = Seq<Keybind>;

    closed spec fn view(&self) -> Seq<Keybind> {
        self.keybinds@
    }
}

impl Clone for Config {
    fn clone(&self) -> (copy: Self)
        ensures
            copy@ == self@,
    {
        let keybinds = self.keybinds.clone();
        Config { keybinds }
    }
}

impl Config {
    /// The invariant of a table: see `distinct_bindings`.
    pub open spec fn wf(&self) -> bool {
        distinct_bindings(self@)
    }

    /// The empty table.
    pub fn new() -> (config: Self)
        ensures
            config@ == Seq::<Keybind>::empty(),
            config.wf(),
    {
        Self { keybinds: Vec::new() }
    }

    /// The table that holds `keybinds` in their order, unless two of them
    /// answer to the same key under the same modifiers.
    pub fn from_keybinds(keybinds: Vec<Keybind>) -> (config: Option<Self>)
        ensures
            config is Some <==> distinct_bindings(keybinds@),
            config matches Some(c) ==> c@ == keybinds@ && c.wf(),
    {
        let mut j: usize = 0;
        while j < keybinds.len()
            invariant
                j <= keybinds.len(),
                distinct_bindings(keybinds@.take(j as int)),
            decreases keybinds.len() - j,
        {
            let mut i: usize = 0;
            while i < j
                invariant
                    i <= j < keybinds.len(),
                    forall|k: int|
                        0 <= k < i ==> !(#[trigger] keybinds@[k]).binds(
                            keybinds@[j as int].keycode,
                            keybinds@[j as int].modifier,
                        ),
                decreases j - i,
            {
                if keybinds[i].keycode == keybinds[j].keycode && keybinds[i].modifier
                    == keybinds[j].modifier {
                    return None;
                }
                i = i + 1;
            }
            j = j + 1;
        }
        proof {
            assert(keybinds@.take(keybinds@.len() as int) == keybinds@);
        }
        Some(Self { keybinds })
    }

    /// The binding that a press of `keycode` under the modifier bits `state`
    /// selects: the first of the table that answers to exactly that pair.
    pub fn get_keybind(&self, keycode: u8, state: u32) -> (found: Option<&Keybind>)
        ensures
            found matches Some(k) ==> lookup(self@, keycode, state) == Some(*k),
            found is None ==> lookup(self@, keycode, state) is None,
    {
        let mut i: usize = 0;
        assert(self.keybinds@.skip(0) == self.keybinds@);
        while i < self.keybinds.len()
            invariant
                i <= self.keybinds.len(),
                first_binding(self.keybinds@, keycode, state) == i + first_binding(
                    self.keybinds@.skip(i as int),
                    keycode,
                    state,
                ),
            decreases self.keybinds.len() - i,
        {
            let ghost rest = self.keybinds@.skip(i as int);
            if self.keybinds[i].keycode == keycode && self.keybinds[i].modifier == state {
                return Some(&self.keybinds[i]);
            }
            assert(rest.drop_first() == self.keybinds@.skip(i + 1));
            i = i + 1;
        }
        None
    }

    /// All bindings, in table order.
    pub fn keybinds(&self) -> (keybinds: &Vec<Keybind>)
        ensures
            keybinds@ == self@,
    {
        &self.keybinds
    }
}

impl Default for Config {
    /// The built-in table.
    fn default() -> (config: Self)
        ensures
            config@ == default_keybinds(),
            config.wf(),
    {
        let n4 = mod_mask_n4();
        let shift = mod_mask_shift();
        let n4_shift = n4 | shift;
        assert(n4_shift == 0x41) by (bit_vector)
            requires
                n4_shift == n4 | shift,
                n4 == 0x40,
                shift == 0x01,
        ;
        let mut keybinds: Vec<Keybind> = Vec::new();
        keybinds.push(Keybind { action: KeybindAction::Command("alacritty"), keycode: 36, modifier: n4 });
        keybinds.push(Keybind { action: KeybindAction::Command("dmenu_run"), keycode: 33, modifier: n4 });
        keybinds.push(Keybind { action: KeybindAction::CloseFocused, keycode: 54, modifier: n4_shift });
        let ghost fixed = keybinds@;
        let mut i: usize = 0;
        while i < DEFAULT_WORKSPACES
            invariant
                i <= DEFAULT_WORKSPACES,
                n4 == super_bits(),
                n4_shift == super_shift_bits(),
                keybinds@ == fixed + workspace_keybinds(i as nat),
            decreases DEFAULT_WORKSPACES - i,
        {
            let keycode: u8 = (i + 10) as u8;
            keybinds.push(Keybind { action: KeybindAction::MoveToWorkspace(i), keycode, modifier: n4 });
            keybinds.push(
                Keybind { action: KeybindAction::MoveFocusedToWorkspace(i), keycode, modifier: n4_shift },
            );
            i = i + 1;
        }
        proof {
            lemma_default_keybinds_distinct();
        }
        Self { keybinds }
    }
}

/// The built-in table holds no two bindings for one key under one set of
/// modifiers.
pub proof fn lemma_default_keybinds_distinct()
    ensures
        distinct_bindings(default_keybinds()),
{
}

/// `first_binding` is the position of the first binding that answers, or the
/// length of the table.
pub proof fn lemma_first_binding(keybinds: Seq<Keybind>, keycode: u8, state: u32)
    ensures
        0 <= first_binding(keybinds, keycode, state) <= keybinds.len(),
        first_binding(keybinds, keycode, state) < keybinds.len() ==> keybinds[first_binding(
            keybinds,
            keycode,
            state,
        )].binds(keycode, state),
        forall|i: int|
            0 <= i < first_binding(keybinds, keycode, state) ==> !(#[trigger] keybinds[i]).binds(
                keycode,
                state,
            ),
    decreases keybinds.len(),
{
    if keybinds.len() > 0 && !keybinds[0].binds(keycode, state) {
        let rest = keybinds.drop_first();
        lemma_first_binding(rest, keycode, state);
        assert forall|i: int| 0 <= i < first_binding(keybinds, keycode, state) implies !(
        #[trigger] keybinds[i]).binds(keycode, state) by {
            if i > 0 {
                assert(rest[i - 1] == keybinds[i]);
            }
        }
    }
}

/// A lookup finds nothing exactly when no binding of the table answers to the
/// key under the modifiers. What it finds is a binding of the table that
/// answers to them; in a table without duplicates it is the only one.
pub proof fn lemma_lookup(keybinds: Seq<Keybind>, keycode: u8, state: u32)
    ensures
        lookup(keybinds, keycode, state) is None <==> forall|i: int|
            0 <= i < keybinds.len() ==> !(#[trigger] keybinds[i]).binds(keycode, state),
        lookup(keybinds, keycode, state) matches Some(found) ==> found.binds(keycode, state)
            && keybinds.contains(found),
        distinct_bindings(keybinds) ==> forall|i: int|
            0 <= i < keybinds.len() && (#[trigger] keybinds[i]).binds(keycode, state) ==> i
                == first_binding(keybinds, keycode, state),
{
    lemma_first_binding(keybinds, keycode, state);
}

} // verus!
