//! How the cursor behaves under repeated moves.
//!
//! Moving down and moving up are rotations of the cursor around the items.
//! The proofs below show that they undo each other, that as many moves as
//! there are items bring the cursor back to where it was, that moving up from
//! the first item passes every item once on the way, and that a menu without
//! items never gets a cursor.

use crate::input::Key;
use crate::menu::{MenuState, Move};
use vstd::arithmetic::div_mod::{
    lemma_add_mod_noop, lemma_add_mod_noop_right, lemma_mod_add_multiples_vanish, lemma_mod_bound,
    lemma_mod_self_0, lemma_small_mod, lemma_sub_mod_noop, lemma_sub_mod_noop_right,
};
use vstd::prelude::*;

verus! {

impl MenuState {
    /// The state after `k` moves down.
    pub open spec fn next_n(self, k: nat) -> MenuState
        decreases k,
    {
        if k == 0 {
            self
        } else {
            self.next_n((k - 1) as nat).next()
        }
    }

    /// The state after `k` moves up.
    pub open spec fn prev_n(self, k: nat) -> MenuState
        decreases k,
    {
        if k == 0 {
            self
        } else {
            self.prev_n((k - 1) as nat).prev()
        }
    }

    /// The state after the moves of `moves`, made in order.
    pub open spec fn run(self, moves: Seq<Move>) -> MenuState
        decreases moves.len(),
    {
        if moves.len() == 0 {
            self
        } else {
            self.run(moves.drop_last()).step(moves.last())
        }
    }

    /// This state with the cursor on item `i`.
    pub open spec fn at(self, i: int) -> MenuState {
        MenuState { items: self.items, selected: Some(i) }
    }
}

/// One step down from position `i` among `n` items, and one step up.
proof fn lemma_wrap(i: int, n: int)
    requires
        0 <= i < n,
    ensures
        (i + 1) % n == if i + 1 == n {
            0
        } else {
            i + 1
        },
        (i - 1) % n == if i == 0 {
            n - 1
        } else {
            i - 1
        },
{
    if i + 1 == n {
        lemma_mod_self_0(n);
    } else {
        lemma_small_mod((i + 1) as nat, n as nat);
    }
    if i == 0 {
        lemma_mod_add_multiples_vanish(-1, n);
        lemma_small_mod((n - 1) as nat, n as nat);
    } else {
        lemma_small_mod((i - 1) as nat, n as nat);
    }
}

/// A move down from item `i` of `n` leads to item `(i + 1) mod n`, and a
/// move up to item `(i - 1) mod n`.
pub proof fn lemma_moves_are_modular(m: MenuState)
    requires
        m.wf(),
        m.selected is Some,
    ensures
        m.next() == m.at((m.selected->0 + 1) % (m.items.len() as int)),
        m.prev() == m.at((m.selected->0 - 1) % (m.items.len() as int)),
{
    lemma_wrap(m.selected->0, m.items.len() as int);
}

/// Every move keeps the items as they are and leaves the cursor on an item
/// of a menu that has items, and absent in a menu that has none.
pub proof fn lemma_step_keeps_wf(m: MenuState, mv: Move)
    requires
        m.wf(),
    ensures
        m.step(mv).wf(),
        m.step(mv).items == m.items,
{
    if let Some(i) = m.selected {
        lemma_wrap(i, m.items.len() as int);
    }
}

/// Moving down and moving up undo each other, in either order.
pub proof fn lemma_next_prev_inverse(m: MenuState)
    requires
        m.wf(),
    ensures
        m.next().prev() == m,
        m.prev().next() == m,
{
    if let Some(i) = m.selected {
        let n = m.items.len() as int;
        lemma_wrap(i, n);
        lemma_wrap(
            if i == 0 {
                n - 1
            } else {
                i - 1
            },
            n,
        );
    }
}

/// After `k` moves down from item `i` of `n`, the cursor is on item
/// `(i + k) mod n`. A menu without cursor stays as it is.
pub proof fn lemma_next_n(m: MenuState, k: nat)
    requires
        m.wf(),
    ensures
        m.next_n(k) == match m.selected {
            None => m,
            Some(i) => m.at((i + k) % (m.items.len() as int)),
        },
    decreases k,
{
    match m.selected {
        None => {
            if k > 0 {
                lemma_next_n(m, (k - 1) as nat);
            }
        },
        Some(i) => {
            let n = m.items.len() as int;
            if k == 0 {
                lemma_small_mod(i as nat, n as nat);
            } else {
                lemma_next_n(m, (k - 1) as nat);
                let r = (i + k - 1) % n;
                lemma_mod_bound(i + k - 1, n);
                lemma_wrap(r, n);
                assert((r + 1) % n == (i + k) % n) by {
                    lemma_add_mod_noop(i + k - 1, 1, n);
                    lemma_add_mod_noop_right(r, 1, n);
                }
            }
        },
    }
}

/// After `k` moves up from item `i` of `n`, the cursor is on item
/// `(i - k) mod n`. A menu without cursor stays as it is.
pub proof fn lemma_prev_n(m: MenuState, k: nat)
    requires
        m.wf(),
    ensures
        m.prev_n(k) == match m.selected {
            None => m,
            Some(i) => m.at((i - k) % (m.items.len() as int)),
        },
    decreases k,
{
    match m.selected {
        None => {
            if k > 0 {
                lemma_prev_n(m, (k - 1) as nat);
            }
        },
        Some(i) => {
            let n = m.items.len() as int;
            if k == 0 {
                lemma_small_mod(i as nat, n as nat);
            } else {
                lemma_prev_n(m, (k - 1) as nat);
                let r = (i - (k - 1)) % n;
                lemma_mod_bound(i - (k - 1), n);
                lemma_wrap(r, n);
                assert((r - 1) % n == (i - k) % n) by {
                    lemma_sub_mod_noop(i - (k - 1), 1, n);
                    lemma_sub_mod_noop_right(r, 1, n);
                }
            }
        },
    }
}

/// As many moves down as the menu has items bring the cursor back to where
/// it was. In particular the cursor of a menu of `n` items that starts on the
/// first item is on the first item again after `n` moves down.
pub proof fn lemma_next_full_turn(m: MenuState)
    requires
        m.wf(),
    ensures
        m.next_n(m.items.len()) == m,
        m.selected == Some(0int) ==> m.next_n(m.items.len()).selected == Some(0int),
{
    lemma_next_n(m, m.items.len());
    if let Some(i) = m.selected {
        let n = m.items.len() as int;
        lemma_mod_add_multiples_vanish(i, n);
        lemma_small_mod(i as nat, n as nat);
    }
}

/// The position of the cursor after `k` moves up from the first of `n`
/// items, for `k` up to `n`.
pub open spec fn upward_position(n: int, k: int) -> int {
    if k == 0 || k == n {
        0
    } else {
        n - k
    }
}

/// Moving up from the first item passes every item once before the cursor
/// is on the first item again. In a menu of `n` items, the jump to the first
/// item followed by `k` moves up leaves the cursor on item `n - k` (on item
/// 0 for `k = 0`); so the positions after 0, 1, ..., `n - 1` moves differ from
/// each other, every item is among them, and the `n`-th move closes the turn.
pub proof fn lemma_prev_visits_every_item(m: MenuState)
    requires
        m.wf(),
        m.items.len() > 0,
    ensures
        forall|k: nat|
            k <= m.items.len() ==> (#[trigger] m.first().prev_n(k)).selected == Some(
                upward_position(m.items.len() as int, k as int),
            ),
        forall|j: nat, k: nat|
            j < k < m.items.len() ==> (#[trigger] m.first().prev_n(j)).selected != (
            #[trigger] m.first().prev_n(k)).selected,
        forall|i: int|
            0 <= i < m.items.len() ==> exists|k: nat|
                k < m.items.len() && #[trigger] m.first().prev_n(k) == #[trigger] m.at(i),
        m.first().prev_n(m.items.len()) == m.first(),
{
    let n = m.items.len() as int;
    let start = m.first();
    assert forall|k: nat| k <= n implies (#[trigger] start.prev_n(k)).selected == Some(
        upward_position(n, k as int),
    ) by {
        lemma_prev_n(start, k);
        if k == 0 {
            lemma_small_mod(0, n as nat);
        } else if k == n {
            lemma_mod_add_multiples_vanish(-n, n);
            lemma_small_mod(0, n as nat);
        } else {
            lemma_mod_add_multiples_vanish(-k, n);
            lemma_small_mod((n - k) as nat, n as nat);
        }
    }
    assert forall|i: int| 0 <= i < n implies exists|k: nat|
        k < n && #[trigger] start.prev_n(k) == #[trigger] m.at(i) by {
        let k: nat = if i == 0 {
            0
        } else {
            (n - i) as nat
        };
        lemma_prev_n(start, k);
        assert(k < n && start.prev_n(k) == m.at(i));
    }
    lemma_prev_n(start, n as nat);
}

/// A menu without items has no cursor, and no sequence of moves gives it
/// one: every move, and so every key press, leaves it as it is.
pub proof fn lemma_empty_menu_never_selects(m: MenuState, moves: Seq<Move>)
    requires
        m.wf(),
        m.items.len() == 0,
    ensures
        m.selected is None,
        m.run(moves) == m,
        m.run(moves).selected is None,
        forall|key: Key| #[trigger] m.on_key(key) == m,
    decreases moves.len(),
{
    if moves.len() > 0 {
        lemma_empty_menu_never_selects(m, moves.drop_last());
    }
}

} // verus!
