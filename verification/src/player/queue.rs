//! The play queue: its items, the current position, repeat and shuffle.
use vstd::prelude::*;
use crate::client::models::Item;
use crate::rng::{shuffle, thread_rng};

verus! {

broadcast use vstd::seq_lib::group_to_multiset_ensures;

/// What happens at the end of the queue.
#[derive(Debug, Clone, Copy, PartialEq, Eq, Structural)]
pub enum RepeatMode {
    Off,
    All,
    One,
}

/// The mode after `m` in the cycle Off, All, One, Off.
pub open spec fn next_mode(m: RepeatMode) -> RepeatMode {
    match m {
        RepeatMode::Off => RepeatMode::All,
        RepeatMode::All => RepeatMode::One,
        RepeatMode::One => RepeatMode::Off,
    }
}

/// The label shown for a mode.
pub open spec fn mode_label(m: RepeatMode) -> Seq<char> {
    match m {
        RepeatMode::Off => "Off"@,
        RepeatMode::All => "All"@,
        RepeatMode::One => "One"@,
    }
}

impl RepeatMode {
    /// The next mode in the cycle Off, All, One.
    pub fn next(self) -> (r: Self)
        ensures
            r == next_mode(self),
    {
        match self {
            RepeatMode::Off => RepeatMode::All,
            RepeatMode::All => RepeatMode::One,
            RepeatMode::One => RepeatMode::Off,
        }
    }

    /// "Off", "All" or "One".
    pub fn label(self) -> (s: &'static str)
        ensures
            s@ == mode_label(self),
    {
        match self {
            RepeatMode::Off => "Off",
            RepeatMode::All => "All",
            RepeatMode::One => "One",
        }
    }
}

/// Pressing the repeat key three times brings back the mode one started with.
pub proof fn lemma_repeat_cycle(m: RepeatMode)
    ensures
        next_mode(next_mode(next_mode(m))) == m,
        next_mode(m) != m,
{
}

/// `o` lists each index below `n` exactly once.
pub open spec fn is_index_permutation(o: Seq<usize>, n: nat) -> bool {
    &&& o.len() == n
    &&& o.no_duplicates()
    &&& forall|i: int| 0 <= i < o.len() ==> #[trigger] o[i] < n
}

/// The first position of `x` in `o`, if it occurs.
pub open spec fn position_of(o: Seq<usize>, x: usize) -> Option<int>
    decreases o.len(),
{
    if o.len() == 0 {
        None
    } else if o.last() == x {
        match position_of(o.drop_last(), x) {
            Some(p) => Some(p),
            None => Some(o.len() - 1),
        }
    } else {
        position_of(o.drop_last(), x)
    }
}

/// The index that follows `cur` in shuffle order; `n` (past the end) when `cur` is the last
/// one or when the order is empty; the first of the order when `cur` is not in it.
pub open spec fn shuffle_successor(o: Seq<usize>, n: nat, cur: usize) -> int {
    match position_of(o, cur) {
        Some(p) => if p + 1 < o.len() { o[p + 1] as int } else { n as int },
        None => if o.len() > 0 { o[0] as int } else { n as int },
    }
}

/// Where `next` moves the current position. With nothing queued, or with repeat One, the
/// position stays. With no position yet it goes to the first item. Otherwise it goes to the
/// following index (in shuffle order when shuffle is on); past the end it wraps to the first
/// item with repeat All and leaves the queue without a position otherwise.
pub open spec fn next_position(
    n: nat,
    current: Option<usize>,
    repeat: RepeatMode,
    shuffle: bool,
    order: Seq<usize>,
) -> Option<usize> {
    if n == 0 || repeat == RepeatMode::One {
        current
    } else {
        match current {
            Some(cur) => {
                let nx = if shuffle { shuffle_successor(order, n, cur) } else { cur + 1 };
                if nx >= n {
                    if repeat == RepeatMode::All { Some(0) } else { None }
                } else {
                    Some(nx as usize)
                }
            },
            None => Some(0),
        }
    }
}

/// Where `prev` moves the current position. With nothing queued the position stays. From the
/// first item it wraps to the last with repeat All and stays otherwise; from any other item it
/// goes one back; with no position yet it goes to the first item.
pub open spec fn prev_position(n: nat, current: Option<usize>, repeat: RepeatMode) -> Option<usize> {
    if n == 0 {
        current
    } else {
        match current {
            Some(cur) => {
                if cur == 0 {
                    if repeat == RepeatMode::All { Some((n - 1) as usize) } else { current }
                } else {
                    Some((cur - 1) as usize)
                }
            },
            None => Some(0),
        }
    }
}

/// Where the position goes when the item at `index` is removed from a queue of `n` items
/// (`index < n`): an earlier removal shifts it back by one; removing the current item keeps
/// the position, or moves it to the new last item when it fell off the end, or clears it when
/// the queue became empty.
pub open spec fn position_after_remove(n: nat, current: Option<usize>, index: usize) -> Option<usize> {
    match current {
        Some(cur) => {
            if index < cur {
                Some((cur - 1) as usize)
            } else if index == cur && cur >= n - 1 {
                if n - 1 == 0 { None } else { Some((n - 2) as usize) }
            } else {
                current
            }
        },
        None => None,
    }
}

/// The item at an optional position.
pub open spec fn item_at<'a>(items: Seq<Item>, pos: Option<usize>) -> Option<&'a Item> {
    match pos {
        Some(i) => if i < items.len() { Some(&items[i as int]) } else { None },
        None => None,
    }
}

/// The play queue.
#[derive(Debug)]
pub struct Queue {
    pub items: Vec<Item>,
    pub current: Option<usize>,
    pub repeat: RepeatMode,
    pub shuffle: bool,
    /// The order in which shuffle mode walks the items: every index exactly once (see
    /// [`Queue::wf`]).
    pub shuffle_order: Vec<usize>,
}

impl Queue {
    /// The order in which shuffle mode walks the items.
    pub open spec fn order(&self) -> Seq<usize> {
        self.shuffle_order@
    }

    /// The queue is consistent: the position, if any, is an index of an item, and the shuffle
    /// order lists every index exactly once.
    pub open spec fn wf(&self) -> bool {
        &&& (self.current matches Some(c) ==> c < self.items@.len())
        &&& is_index_permutation(self.order(), self.items@.len())
    }

    /// An empty queue: no items, no position, repeat Off, shuffle off.
    pub fn new() -> (q: Self)
        ensures
            q.wf(),
            q.items@.len() == 0,
            q.current is None,
            q.repeat == RepeatMode::Off,
            !q.shuffle,
    {
        let q = Queue {
            items: Vec::new(),
            current: None,
            repeat: RepeatMode::Off,
            shuffle: false,
            shuffle_order: Vec::new(),
        };
        assert(q.order().len() == 0);
        q
    }

    /// The item at the current position, if any.
    pub fn current_item(&self) -> (r: Option<&Item>)
        ensures
            r == item_at(self.items@, self.current),
    {
        match self.current {
            Some(i) => if i < self.items.len() { Some(&self.items[i]) } else { None },
            None => None,
        }
    }

    /// Draws a fresh shuffle order over the current items.
    fn rebuild_shuffle(&mut self)
        ensures
            final(self).items == old(self).items,
            final(self).current == old(self).current,
            final(self).repeat == old(self).repeat,
            final(self).shuffle == old(self).shuffle,
            is_index_permutation(final(self).order(), final(self).items@.len()),
    {
        let mut rng = thread_rng();
        let n = self.items.len();
        let mut order: Vec<usize> = Vec::new();
        let mut i: usize = 0;
        while i < n
            invariant
                i <= n,
                order@ == Seq::new(i as nat, |k: int| k as usize),
            decreases n - i,
        {
            order.push(i);
            i = i + 1;
            assert(order@ =~= Seq::new(i as nat, |k: int| k as usize));
        }
        let ghost before = order@;
        shuffle(&mut order, &mut rng);
        proof {
            lemma_shuffled_range(before, order@, n as nat);
        }
        self.shuffle_order = order;
    }

    /// Replaces the queue with `items`, positioned at `start_index` (clamped to the last item),
    /// or without a position when `items` is empty.
    pub fn replace(&mut self, items: Vec<Item>, start_index: usize)
        ensures
            final(self).wf(),
            final(self).items@ == items@,
            final(self).current == (if items@.len() == 0 { None } else {
                Some(if start_index < items@.len() { start_index } else { (items@.len() - 1) as usize })
            }),
            final(self).repeat == old(self).repeat,
            final(self).shuffle == old(self).shuffle,
    {
        self.items = items;
        self.current = if self.items.len() == 0 {
            None
        } else {
            let last = self.items.len() - 1;
            Some(if start_index < last { start_index } else { last })
        };
        self.rebuild_shuffle();
    }

    /// Adds `item` at the end. A queue without a position starts at its first item; a queue
    /// with one keeps it.
    pub fn enqueue(&mut self, item: Item)
        ensures
            old(self).wf() ==> final(self).wf(),
            final(self).items@ == old(self).items@.push(item),
            final(self).current == (if old(self).current is None { Some(0usize) } else { old(self).current }),
            final(self).repeat == old(self).repeat,
            final(self).shuffle == old(self).shuffle,
    {
        self.items.push(item);
        if self.current.is_none() {
            self.current = Some(0);
        }
        self.rebuild_shuffle();
    }

    /// Adds `items` at the end. A queue that was empty starts at its first item when something
    /// was added; otherwise the position is kept.
    pub fn enqueue_many(&mut self, items: Vec<Item>)
        ensures
            old(self).wf() ==> final(self).wf(),
            final(self).items@ == old(self).items@ + items@,
            final(self).current == (if old(self).items@.len() == 0 && items@.len() > 0 {
                Some(0usize)
            } else {
                old(self).current
            }),
            final(self).repeat == old(self).repeat,
            final(self).shuffle == old(self).shuffle,
    {
        let was_empty = self.items.len() == 0;
        let mut items = items;
        self.items.append(&mut items);
        if was_empty && self.items.len() > 0 {
            self.current = Some(0);
        }
        self.rebuild_shuffle();
    }

    /// Moves to the next item (see [`next_position`]) and returns it.
    pub fn next(&mut self) -> (r: Option<&Item>)
        ensures
            old(self).wf() ==> final(self).wf(),
            final(self).items == old(self).items,
            final(self).current == next_position(
                old(self).items@.len(),
                old(self).current,
                old(self).repeat,
                old(self).shuffle,
                old(self).order(),
            ),
            final(self).repeat == old(self).repeat,
            final(self).shuffle == old(self).shuffle,
            final(self).order() == old(self).order(),
            *final(self) == (Queue { current: final(self).current, ..*old(self) }),
            r == item_at(final(self).items@, final(self).current),
    {
        if self.items.len() == 0 {
            return None;
        }
        match self.repeat {
            RepeatMode::One => {},
            _ => {
                if let Some(cur) = self.current {
                    let next = if self.shuffle {
                        self.next_shuffle_index(cur)
                    } else if cur < self.items.len() {
                        cur + 1
                    } else {
                        self.items.len()
                    };
                    if next >= self.items.len() {
                        match self.repeat {
                            RepeatMode::All => self.current = Some(0),
                            _ => {
                                self.current = None;
                                return None;
                            },
                        }
                    } else {
                        self.current = Some(next);
                    }
                } else {
                    self.current = Some(0);
                }
            },
        }
        self.current_item()
    }

    /// Moves to the previous item (see [`prev_position`]) and returns it.
    pub fn prev(&mut self) -> (r: Option<&Item>)
        ensures
            old(self).wf() ==> final(self).wf(),
            final(self).items == old(self).items,
            final(self).current == prev_position(
                old(self).items@.len(),
                old(self).current,
                old(self).repeat,
            ),
            final(self).repeat == old(self).repeat,
            final(self).shuffle == old(self).shuffle,
            final(self).order() == old(self).order(),
            *final(self) == (Queue { current: final(self).current, ..*old(self) }),
            r == item_at(final(self).items@, final(self).current),
    {
        if self.items.len() == 0 {
            return None;
        }
        if let Some(cur) = self.current {
            if cur == 0 {
                if self.repeat == RepeatMode::All {
                    self.current = Some(self.items.len() - 1);
                }
            } else {
                self.current = Some(cur - 1);
            }
        } else {
            self.current = Some(0);
        }
        self.current_item()
    }

    /// Empties the queue and drops the position; repeat and shuffle stay as they were.
    pub fn clear(&mut self)
        ensures
            final(self).wf(),
            final(self).items@.len() == 0,
            final(self).current is None,
            final(self).repeat == old(self).repeat,
            final(self).shuffle == old(self).shuffle,
    {
        self.items.clear();
        self.current = None;
        self.shuffle_order.clear();
        assert(self.order().len() == 0);
    }

    /// Removes the item at `index` (nothing happens for an index past the end) and moves the
    /// position as [`position_after_remove`] says.
    pub fn remove(&mut self, index: usize)
        ensures
            old(self).wf() ==> final(self).wf(),
            index >= old(self).items@.len() ==> *final(self) == *old(self),
            index < old(self).items@.len() ==> {
                &&& final(self).items@ == old(self).items@.remove(index as int)
                &&& final(self).current == position_after_remove(
                    old(self).items@.len(),
                    old(self).current,
                    index,
                )
            },
            final(self).repeat == old(self).repeat,
            final(self).shuffle == old(self).shuffle,
    {
        if index >= self.items.len() {
            return;
        }
        self.items.remove(index);
        if let Some(cur) = self.current {
            if index < cur {
                self.current = Some(cur - 1);
            } else if index == cur {
                if cur >= self.items.len() {
                    self.current = if self.items.len() == 0 {
                        None
                    } else {
                        Some(self.items.len() - 1)
                    };
                }
            }
        }
        self.rebuild_shuffle();
    }

    /// Flips shuffle; turning it on draws a fresh shuffle order.
    pub fn toggle_shuffle(&mut self)
        ensures
            old(self).wf() ==> final(self).wf(),
            final(self).shuffle == !old(self).shuffle,
            final(self).items == old(self).items,
            final(self).current == old(self).current,
            final(self).repeat == old(self).repeat,
            !final(self).shuffle ==> final(self).order() == old(self).order(),
    {
        self.shuffle = !self.shuffle;
        if self.shuffle {
            self.rebuild_shuffle();
        }
    }

    /// The index after `current` in shuffle order (see [`shuffle_successor`]).
    fn next_shuffle_index(&self, current: usize) -> (r: usize)
        ensures
            r == shuffle_successor(self.order(), self.items@.len(), current),
    {
        let n = self.shuffle_order.len();
        let mut pos: usize = 0;
        while pos < n
            invariant
                n == self.shuffle_order@.len(),
                pos <= n,
                position_of(self.shuffle_order@.take(pos as int), current) is None,
            decreases n - pos,
        {
            if self.shuffle_order[pos] == current {
                proof {
                    lemma_position_prefix(self.shuffle_order@, current, pos as int);
                }
                if pos + 1 < n {
                    return self.shuffle_order[pos + 1];
                } else {
                    return self.items.len();
                }
            }
            proof {
                let t = self.shuffle_order@.take(pos + 1);
                assert(t.drop_last() =~= self.shuffle_order@.take(pos as int));
            }
            pos = pos + 1;
        }
        assert(self.shuffle_order@.take(n as int) =~= self.shuffle_order@);
        if n > 0 {
            self.shuffle_order[0]
        } else {
            self.items.len()
        }
    }
}

/// When `x` does not occur before position `p` and sits at `p`, its first position is `p`.
proof fn lemma_position_prefix(o: Seq<usize>, x: usize, p: int)
    requires
        0 <= p < o.len(),
        o[p] == x,
        position_of(o.take(p), x) is None,
    ensures
        position_of(o, x) == Some(p),
    decreases o.len(),
{
    if p == o.len() - 1 {
        assert(o.drop_last() =~= o.take(p));
    } else {
        assert(o.drop_last().take(p) =~= o.take(p));
        lemma_position_prefix(o.drop_last(), x, p);
    }
}

/// Shuffling the indices below `n` gives each of them exactly once.
proof fn lemma_shuffled_range(before: Seq<usize>, after: Seq<usize>, n: nat)
    requires
        before == Seq::new(n, |k: int| k as usize),
        after.to_multiset() == before.to_multiset(),
        n <= usize::MAX,
    ensures
        is_index_permutation(after, n),
{
    assert forall|i: int, j: int| 0 <= i < before.len() && 0 <= j < before.len() && i != j
        implies before[i] != before[j] by {
        assert(before[i] == i as usize);
        assert(before[j] == j as usize);
    }
    assert forall|i: int| 0 <= i < before.len() implies #[trigger] before[i] < n by {
        assert(before[i] == i as usize);
    }
    before.lemma_multiset_has_no_duplicates();
    assert(after.len() == before.len()) by {
        before.to_multiset_ensures();
        after.to_multiset_ensures();
    }
    assert forall|x: usize| after.to_multiset().contains(x) implies after.to_multiset().count(x) == 1 by {
    }
    after.lemma_multiset_has_no_duplicates_conv();
    assert forall|i: int| 0 <= i < after.len() implies #[trigger] after[i] < n by {
        assert(after.contains(after[i]));
        assert(after.to_multiset().count(after[i]) > 0);
        assert(before.contains(after[i]));
    }
}


/// The position after `j` presses of "next".
pub open spec fn iterate_next(
    n: nat,
    current: Option<usize>,
    repeat: RepeatMode,
    shuffle: bool,
    order: Seq<usize>,
    j: nat,
) -> Option<usize>
    decreases j,
{
    if j == 0 {
        current
    } else {
        next_position(n, iterate_next(n, current, repeat, shuffle, order, (j - 1) as nat), repeat, shuffle, order)
    }
}

/// Playing a queue in order: from the item at `k`, with shuffle and repeat off, the `j`-th
/// press of "next" reaches the item at `k + j`, and the press after the last item leaves the
/// queue without a position.
pub proof fn lemma_plays_in_order(n: nat, k: usize, order: Seq<usize>, j: nat)
    requires
        k < n,
        k + j <= n,
        n <= usize::MAX,
    ensures
        k + j < n ==> iterate_next(n, Some(k), RepeatMode::Off, false, order, j) == Some((k + j) as usize),
        k + j == n ==> iterate_next(n, Some(k), RepeatMode::Off, false, order, j) is None,
    decreases j,
{
    if j > 0 {
        lemma_plays_in_order(n, k, order, (j - 1) as nat);
    }
}

/// Repeat All loops over the queue: from any item, with shuffle off, `n` presses of "next"
/// come back to it.
pub proof fn lemma_repeat_all_cycles(n: nat, k: usize, order: Seq<usize>)
    requires
        k < n,
        n <= usize::MAX,
    ensures
        iterate_next(n, Some(k), RepeatMode::All, false, order, n) == Some(k),
{
    lemma_repeat_all_prefix(n, k, order, (n - k - 1) as nat);
    let m = (n - k) as nat;
    assert(iterate_next(n, Some(k), RepeatMode::All, false, order, m) == Some(0usize));
    lemma_repeat_all_from(n, k, order, m, k as nat);
}

proof fn lemma_repeat_all_prefix(n: nat, k: usize, order: Seq<usize>, j: nat)
    requires
        k + j < n,
        n <= usize::MAX,
    ensures
        iterate_next(n, Some(k), RepeatMode::All, false, order, j) == Some((k + j) as usize),
    decreases j,
{
    if j > 0 {
        lemma_repeat_all_prefix(n, k, order, (j - 1) as nat);
    }
}

proof fn lemma_repeat_all_from(n: nat, k: usize, order: Seq<usize>, m: nat, j: nat)
    requires
        j <= k,
        k < n,
        n <= usize::MAX,
        iterate_next(n, Some(k), RepeatMode::All, false, order, m) == Some(0usize),
    ensures
        iterate_next(n, Some(k), RepeatMode::All, false, order, m + j) == Some(j as usize),
    decreases j,
{
    if j > 0 {
        lemma_repeat_all_from(n, k, order, m, (j - 1) as nat);
    }
}

/// Repeat One stays on the current item whatever else holds.
pub proof fn lemma_repeat_one_stays(n: nat, current: Option<usize>, shuffle: bool, order: Seq<usize>)
    ensures
        next_position(n, current, RepeatMode::One, shuffle, order) == current,
{
}

/// "Previous" undoes "next" inside the queue: from an item that is not the last, with shuffle
/// off and repeat not One, going forward and back returns to it; and going back then forward
/// returns to any item but the first.
pub proof fn lemma_prev_undoes_next(n: nat, cur: usize, repeat: RepeatMode, order: Seq<usize>)
    requires
        repeat != RepeatMode::One,
        n <= usize::MAX,
    ensures
        cur + 1 < n ==> prev_position(n, next_position(n, Some(cur), repeat, false, order), repeat) == Some(cur),
        0 < cur < n ==> next_position(n, prev_position(n, Some(cur), repeat), repeat, false, order) == Some(cur),
{
}

/// In a permutation each element's first position is where it stands.
pub proof fn lemma_position_in_permutation(o: Seq<usize>, p: int)
    requires
        o.no_duplicates(),
        0 <= p < o.len(),
    ensures
        position_of(o, o[p]) == Some(p),
{
    assert forall|q: int| 0 <= q < p implies o.take(p)[q] != o[p] by {}
    lemma_position_absent(o.take(p), o[p]);
    lemma_position_prefix(o, o[p], p);
}

proof fn lemma_position_absent(o: Seq<usize>, x: usize)
    requires
        forall|q: int| 0 <= q < o.len() ==> o[q] != x,
    ensures
        position_of(o, x) is None,
    decreases o.len(),
{
    if o.len() > 0 {
        lemma_position_absent(o.drop_last(), x);
    }
}

/// Shuffle plays each item once: from the item at position `p` of the shuffle order, with
/// repeat off, the `j`-th press of "next" reaches the item at position `p + j` of the order,
/// and the press after the last one leaves the queue without a position. Starting from the
/// first of the order, every item comes exactly once.
pub proof fn lemma_shuffle_plays_order(n: nat, order: Seq<usize>, p: nat, j: nat)
    requires
        is_index_permutation(order, n),
        p + j <= n,
        p < n,
        n <= usize::MAX,
    ensures
        p + j < n ==> iterate_next(n, Some(order[p as int]), RepeatMode::Off, true, order, j) == Some(order[(p + j) as int]),
        p + j == n ==> iterate_next(n, Some(order[p as int]), RepeatMode::Off, true, order, j) is None,
    decreases j,
{
    if j > 0 {
        lemma_shuffle_plays_order(n, order, p, (j - 1) as nat);
        let q = p + j - 1;
        lemma_position_in_permutation(order, q as int);
    }
}

/// A permutation of the indices below `n` contains each of them.
pub proof fn lemma_permutation_covers(o: Seq<usize>, n: nat, c: usize)
    requires
        is_index_permutation(o, n),
        c < n,
    ensures
        o.contains(c),
{
    let oi = Seq::new(o.len(), |i: int| o[i] as int);
    assert(oi.no_duplicates()) by {
        assert forall|i: int, j: int| 0 <= i < oi.len() && 0 <= j < oi.len() && i != j
            implies oi[i] != oi[j] by {
            assert(o[i] != o[j]);
        }
    }
    let range = vstd::set_lib::set_int_range(0, n as int);
    vstd::set_lib::lemma_int_range(0, n as int);
    assert(oi.to_set().subset_of(range)) by {
        assert forall|x: int| oi.to_set().contains(x) implies range.contains(x) by {
            let i = choose|i: int| 0 <= i < oi.len() && oi[i] == x;
            assert(o[i] < n);
        }
    }
    vstd::set_lib::lemma_len_subset(oi.to_set(), range);
    oi.unique_seq_to_set();
    vstd::set_lib::lemma_subset_equality(oi.to_set(), range);
    assert(range.contains(c as int));
    assert(oi.to_set().contains(c as int));
    let i = choose|i: int| 0 <= i < oi.len() && oi[i] == c as int;
    assert(o[i] == c);
}

/// Shuffle plays each item once, whatever item is playing: from any item `c` of a queue of
/// `n` items, with shuffle on and repeat off, the presses of "next" reach items other than
/// `c`, each at most once, until after at most `n` presses the queue is left without a
/// position.
pub proof fn lemma_shuffle_from_current(n: nat, order: Seq<usize>, c: usize)
    requires
        is_index_permutation(order, n),
        c < n,
        n <= usize::MAX,
    ensures
        exists|m: nat| {
            &&& 1 <= m <= n
            &&& iterate_next(n, Some(c), RepeatMode::Off, true, order, m) is None
            &&& forall|j: nat| 1 <= j < m ==> ((#[trigger] iterate_next(n, Some(c), RepeatMode::Off, true, order, j)) matches Some(x)
                && x < n && x != c)
            &&& forall|j1: nat, j2: nat| 1 <= j1 < j2 < m ==> #[trigger] iterate_next(n, Some(c), RepeatMode::Off, true, order, j1)
                != #[trigger] iterate_next(n, Some(c), RepeatMode::Off, true, order, j2)
        },
{
    lemma_permutation_covers(order, n, c);
    let p = choose|p: int| 0 <= p < order.len() && order[p] == c;
    let pn = p as nat;
    let m = (n - pn) as nat;
    assert forall|j: nat| j <= m implies {
        &&& pn + j < n ==> #[trigger] iterate_next(n, Some(c), RepeatMode::Off, true, order, j) == Some(order[(pn + j) as int])
        &&& pn + j == n ==> iterate_next(n, Some(c), RepeatMode::Off, true, order, j) is None
    } by {
        lemma_shuffle_plays_order(n, order, pn, j);
    }
    assert forall|j: nat| 1 <= j < m implies ((#[trigger] iterate_next(n, Some(c), RepeatMode::Off, true, order, j)) matches Some(x)
        && x < n && x != c) by {
        assert(order[(pn + j) as int] != order[p]);
    }
    assert forall|j1: nat, j2: nat| 1 <= j1 < j2 < m implies #[trigger] iterate_next(n, Some(c), RepeatMode::Off, true, order, j1)
        != #[trigger] iterate_next(n, Some(c), RepeatMode::Off, true, order, j2) by {
        assert(order[(pn + j1) as int] != order[(pn + j2) as int]);
    }
    assert(iterate_next(n, Some(c), RepeatMode::Off, true, order, m) is None);
}

/// Adding items at the end does not disturb what is playing: the item at the current
/// position is the same before and after.
pub proof fn lemma_enqueue_keeps_current(items: Seq<Item>, added: Seq<Item>, current: usize)
    requires
        current < items.len(),
    ensures
        item_at(items + added, Some(current)) == item_at(items, Some(current)),
{
}

/// Removing another item does not disturb what is playing: after removing the item at
/// `index` (not the current one), the new position points at the same item as before.
pub proof fn lemma_remove_keeps_current(items: Seq<Item>, current: usize, index: usize)
    requires
        current < items.len(),
        index < items.len(),
        index != current,
    ensures
        position_after_remove(items.len(), Some(current), index) matches Some(c)
            && items.remove(index as int)[c as int] == items[current as int],
{
}

} // verus!
