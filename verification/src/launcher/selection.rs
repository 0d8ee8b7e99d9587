//! Moving the selection through a provider's items, switching providers,
//! and what each key does.

use vstd::prelude::*;
use crate::text::char_vec;

verus! {

/// A direction in which the selection moves.
#[derive(Debug, Clone, Copy, PartialEq, Eq, Structural)]
pub enum Direction {
    Up,
    Right,
    Down,
    Left,
}

/// The keys that the launcher reacts to; every other key is `Other`.
#[derive(Debug, Clone, Copy, PartialEq, Eq, Structural)]
pub enum Key {
    Up,
    Right,
    Down,
    Left,
    Tab,
    Return,
    Escape,
    Other,
}

impl Direction {
    /// The direction of an arrow key; any other key has none.
    pub fn try_from(key: Key) -> (r: Result<Direction, ()>)
        ensures
            r == match key {
                Key::Up => Ok::<Direction, ()>(Direction::Up),
                Key::Right => Ok(Direction::Right),
                Key::Down => Ok(Direction::Down),
                Key::Left => Ok(Direction::Left),
                _ => Err(()),
            },
    {
        match key {
            Key::Up => Ok(Direction::Up),
            Key::Right => Ok(Direction::Right),
            Key::Down => Ok(Direction::Down),
            Key::Left => Ok(Direction::Left),
            _ => Err(()),
        }
    }
}

/// What the launcher window does on a key press.
#[derive(Debug, Clone, Copy, PartialEq, Eq, Structural)]
pub enum KeyAction {
    /// Move the selection of the active provider.
    MoveSelection(Direction),
    /// Switch to the next provider.
    NextProvider,
    /// Run the action of the selected item, and hide the launcher when it ran.
    InvokeAction,
    /// Show or hide the launcher.
    ToggleVisibility,
    /// Leave the key to the focused widget.
    Proceed,
}

impl KeyAction {
    /// Whether the key press is stopped here rather than passed on.
    pub open spec fn stops(self) -> bool {
        !(self is Proceed)
    }
}

/// The action of the launcher window for a key: arrows move the selection,
/// Tab switches provider, Return runs the selected item, Escape hides.
pub fn keypress_action(key: Key) -> (r: KeyAction)
    ensures
        r == match key {
            Key::Up => KeyAction::MoveSelection(Direction::Up),
            Key::Right => KeyAction::MoveSelection(Direction::Right),
            Key::Down => KeyAction::MoveSelection(Direction::Down),
            Key::Left => KeyAction::MoveSelection(Direction::Left),
            Key::Tab => KeyAction::NextProvider,
            Key::Return => KeyAction::InvokeAction,
            Key::Escape => KeyAction::ToggleVisibility,
            Key::Other => KeyAction::Proceed,
        },
{
    match key {
        Key::Up | Key::Right | Key::Down | Key::Left => {
            match Direction::try_from(key) {
                Ok(direction) => KeyAction::MoveSelection(direction),
                Err(()) => KeyAction::Proceed,
            }
        },
        Key::Tab => KeyAction::NextProvider,
        Key::Return => KeyAction::InvokeAction,
        Key::Escape => KeyAction::ToggleVisibility,
        Key::Other => KeyAction::Proceed,
    }
}

/// The selection of a vertical list after a move: up and down move by one
/// item and stop at the ends; left and right do not move.
pub open spec fn list_target(i: u32, len: u32, direction: Direction) -> u32 {
    match direction {
        Direction::Up => if i > 0 { (i - 1) as u32 } else { i },
        Direction::Down => if i + 1 < len { (i + 1) as u32 } else { i },
        _ => i,
    }
}

/// The number of columns of the wallpaper grid.
pub const GRID_COLUMNS: u32 = 5;

/// The selection of a grid of `GRID_COLUMNS` columns after a move: up and
/// down move by a row, left and right by one item, and a move that would
/// leave the grid does not happen.
pub open spec fn grid_target(i: u32, len: u32, direction: Direction) -> u32 {
    match direction {
        Direction::Up => if i >= GRID_COLUMNS { (i - GRID_COLUMNS) as u32 } else { i },
        Direction::Right => if i + 1 < len { (i + 1) as u32 } else { i },
        Direction::Down => if i + GRID_COLUMNS < len { (i + GRID_COLUMNS) as u32 } else { i },
        Direction::Left => if i > 0 { (i - 1) as u32 } else { i },
    }
}

/// Moves the selection `i` of a list of `len` items.
pub fn list_move_selection(i: u32, len: u32, direction: Direction) -> (r: u32)
    requires
        direction == Direction::Down ==> i < u32::MAX,
    ensures
        r == list_target(i, len, direction),
{
    match direction {
        Direction::Up if i > 0 => i - 1,
        Direction::Down if i + 1 < len => i + 1,
        _ => i,
    }
}

/// Moves the selection `i` of a grid of `len` items.
pub fn grid_move_selection(i: u32, len: u32, direction: Direction) -> (r: u32)
    requires
        direction == Direction::Right ==> i < u32::MAX,
        direction == Direction::Down ==> i + GRID_COLUMNS <= u32::MAX,
    ensures
        r == grid_target(i, len, direction),
{
    match direction {
        Direction::Up if i >= GRID_COLUMNS => i - GRID_COLUMNS,
        Direction::Right if i + 1 < len => i + 1,
        Direction::Down if i + GRID_COLUMNS < len => i + GRID_COLUMNS,
        Direction::Left if i > 0 => i - 1,
        _ => i,
    }
}

/// Moving the selection of a list keeps a valid selection valid.
pub proof fn law_list_move_stays_in_list(i: u32, len: u32, direction: Direction)
    requires
        i < len,
    ensures
        list_target(i, len, direction) < len,
{
}

/// Moving the selection of a grid keeps a valid selection valid.
pub proof fn law_grid_move_stays_in_grid(i: u32, len: u32, direction: Direction)
    requires
        i < len,
    ensures
        grid_target(i, len, direction) < len,
{
}

/// In a list, a move up undoes a move down that happened.
pub proof fn law_list_up_undoes_down(i: u32, len: u32)
    requires
        list_target(i, len, Direction::Down) != i,
    ensures
        list_target(list_target(i, len, Direction::Down), len, Direction::Up) == i,
{
}

/// A move goes to the neighbouring item in its direction whenever there is
/// one, and stays otherwise: in a list, Down to the next item and Up to the
/// one before, Left and Right nowhere; in a grid of rows of five, Down and
/// Up by a row, Right and Left by one item.
pub proof fn law_moves_reach_the_neighbour(i: u32, len: u32)
    ensures
        list_target(i, len, Direction::Down) == if i + 1 < len { i + 1 } else { i as int },
        list_target(i, len, Direction::Up) == if i > 0 { i - 1 } else { i as int },
        list_target(i, len, Direction::Left) == i,
        list_target(i, len, Direction::Right) == i,
        grid_target(i, len, Direction::Down) == if i + 5 < len { i + 5 } else { i as int },
        grid_target(i, len, Direction::Up) == if i >= 5 { i - 5 } else { i as int },
        grid_target(i, len, Direction::Right) == if i + 1 < len { i + 1 } else { i as int },
        grid_target(i, len, Direction::Left) == if i > 0 { i - 1 } else { i as int },
{
}

/// Every item of a list is reached from the first by Down presses: after
/// `k` presses from the first item the selection is item `k`, for every
/// `k` below the length.
pub proof fn law_down_reaches_every_item(len: u32, k: u32)
    requires
        k < len,
    ensures
        downs(len, k as nat) == k,
    decreases k,
{
    if k > 0 {
        law_down_reaches_every_item(len, (k - 1) as u32);
    }
}

/// The selection after `k` presses of Down in a list, from the first item.
pub open spec fn downs(len: u32, k: nat) -> u32
    decreases k,
{
    if k == 0 {
        0
    } else {
        list_target(downs(len, (k - 1) as nat), len, Direction::Down)
    }
}

/// In a grid, a move up undoes a move down that happened, and a move left
/// undoes a move right that happened.
pub proof fn law_grid_moves_undo(i: u32, len: u32)
    ensures
        grid_target(i, len, Direction::Down) != i ==> grid_target(grid_target(i, len, Direction::Down), len, Direction::Up) == i,
        grid_target(i, len, Direction::Right) != i ==> grid_target(grid_target(i, len, Direction::Right), len, Direction::Left) == i,
{
}

/// The selection after the window's own Down key (`root_key_action`): one
/// item further when there is one.
pub open spec fn below_target(i: u32, len: usize) -> Option<u32> {
    if i + 1 < len {
        Some((i + 1) as u32)
    } else {
        None
    }
}

/// The item to select below the selected item `selected`, if there is one.
pub fn select_below(selected: u32, len: usize) -> (r: Option<u32>)
    requires
        selected < u32::MAX,
    ensures
        r == below_target(selected, len),
{
    let i = selected + 1;
    if (i as usize) < len {
        Some(i)
    } else {
        None
    }
}

/// The item that a reset selects: the first, when there is one.
pub fn reset_target(len: usize) -> (r: Option<u32>)
    ensures
        r == if len > 0 { Some(0u32) } else { None::<u32> },
{
    if len > 0 {
        Some(0)
    } else {
        None
    }
}

/// The provider after `active` among `count` providers: the next one, and
/// the first after the last.
pub open spec fn next_index(active: nat, count: nat) -> nat {
    (active + 1) % count
}

/// The index of the provider that follows the active one.
pub fn next_provider(active: usize, count: usize) -> (r: usize)
    requires
        count > 0,
        active < usize::MAX,
    ensures
        r == next_index(active as nat, count as nat),
        r < count,
{
    (active + 1) % count
}

/// The provider reached from `active` after `k` presses of Tab.
pub open spec fn after_presses(active: nat, count: nat, k: nat) -> nat
    decreases k,
{
    if k == 0 {
        active
    } else {
        next_index(after_presses(active, count, (k - 1) as nat), count)
    }
}

/// After `k` presses of Tab the provider `k` places further on, counted
/// round the end, is active.
pub proof fn lemma_after_presses(active: nat, count: nat, k: nat)
    requires
        count > 0,
        active < count,
    ensures
        after_presses(active, count, k) == (active + k) % count,
    decreases k,
{
    if k > 0 {
        lemma_after_presses(active, count, (k - 1) as nat);
        let prev = after_presses(active, count, (k - 1) as nat);
        vstd::arithmetic::div_mod::lemma_add_mod_noop_right(1, active + k - 1, count as int);
        assert((prev + 1) % count == (active + k) % count);
    } else {
        vstd::arithmetic::div_mod::lemma_small_mod(active, count);
    }
}

/// The number of presses of Tab that lead from `active` to `p`.
pub open spec fn presses_to(active: nat, count: nat, p: nat) -> nat {
    if p >= active {
        (p - active) as nat
    } else {
        (p + count - active) as nat
    }
}

/// Pressing Tab as many times as there are providers comes back to the
/// provider that was active, and each provider is reached on the way.
pub proof fn law_tab_cycles_through_providers(active: nat, count: nat)
    requires
        count > 0,
        active < count,
    ensures
        after_presses(active, count, count) == active,
        forall|p: nat|
            p < count ==> presses_to(active, count, p) < count && after_presses(
                active,
                count,
                #[trigger] presses_to(active, count, p),
            ) == p,
{
    lemma_after_presses(active, count, count);
    assert((active + count) % count == active) by {
        vstd::arithmetic::div_mod::lemma_mod_add_multiples_vanish(active as int, count as int);
        vstd::arithmetic::div_mod::lemma_small_mod(active, count);
    }
    assert forall|p: nat| p < count implies presses_to(active, count, p) < count && after_presses(
        active,
        count,
        #[trigger] presses_to(active, count, p),
    ) == p by {
        let k = presses_to(active, count, p);
        lemma_after_presses(active, count, k);
        if p >= active {
            vstd::arithmetic::div_mod::lemma_small_mod(p, count);
        } else {
            vstd::arithmetic::div_mod::lemma_mod_add_multiples_vanish(p as int, count as int);
            vstd::arithmetic::div_mod::lemma_small_mod(p, count);
        }
    }
}

/// How a new query changes the filter of a provider's items.
#[derive(Debug, Clone, Copy, PartialEq, Eq, Structural)]
pub enum Strictness {
    /// The new query is a beginning of the last one: items that were
    /// filtered out may come back, and no item that was shown goes.
    LessStrict,
    /// The new query goes on from the last one: an item that was filtered
    /// out stays out, and every shown item is checked again.
    MoreStrict,
    /// Neither: every item is checked again.
    Different,
}

/// Whether `s` begins with `p`.
pub open spec fn begins_with(s: Seq<char>, p: Seq<char>) -> bool {
    p.len() <= s.len() && s.take(p.len() as int) == p
}

/// The change of the filter when the query goes from `last_query` to
/// `query`: stricter when the new query goes on from the last one, less
/// strict when it is a shorter beginning of it, and different otherwise, so
/// that an item the last query filtered out is shown again whenever the new
/// query matches it.
pub open spec fn query_change(query: Seq<char>, last_query: Seq<char>) -> Strictness {
    if begins_with(query, last_query) {
        Strictness::MoreStrict
    } else if begins_with(last_query, query) {
        Strictness::LessStrict
    } else {
        Strictness::Different
    }
}

/// Whether `v` begins with `p`.
fn chars_begin_with(v: &Vec<char>, p: &Vec<char>) -> (r: bool)
    ensures
        r == begins_with(v@, p@),
{
    if p.len() > v.len() {
        return false;
    }
    let mut i: usize = 0;
    while i < p.len()
        invariant
            p@.len() <= v@.len(),
            i <= p@.len(),
            v@.take(i as int) == p@.take(i as int),
        decreases p@.len() - i,
    {
        if v[i] != p[i] {
            assert(v@.take(p@.len() as int)[i as int] != p@[i as int]);
            return false;
        }
        assert(v@.take(i + 1) =~= v@.take(i as int).push(v@[i as int]));
        assert(p@.take(i + 1) =~= p@.take(i as int).push(p@[i as int]));
        i += 1;
    }
    assert(p@.take(p@.len() as int) =~= p@);
    true
}

/// The change of the filter when the query goes from `last_query` to
/// `query`.
pub fn filter_change(query: &str, last_query: &str) -> (r: Strictness)
    ensures
        r == query_change(query@, last_query@),
{
    let q = char_vec(query);
    let l = char_vec(last_query);
    if chars_begin_with(&q, &l) {
        Strictness::MoreStrict
    } else if chars_begin_with(&l, &q) {
        Strictness::LessStrict
    } else {
        Strictness::Different
    }
}

/// The name of the page that the launcher shows for `count` matching items.
pub fn page_for_count(count: usize) -> (r: &'static str)
    ensures
        r@ == if count == 0 { "notfound"@ } else { "default"@ },
{
    if count == 0 {
        "notfound"
    } else {
        "default"
    }
}

} // verus!
