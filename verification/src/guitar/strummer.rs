//! Strum direction and string ordering of a strummed chord.
//!
//! A chord is struck one string after another: a down-strum travels from the
//! low E string (index 5) to the high E string (index 0), an up-strum the other
//! way. Notes on the same string keep the order in which they were given.
use vstd::prelude::*;

verus! {

#[derive(Debug, Clone, Copy, PartialEq, Eq, Structural)]
pub enum StrumDirection {
    /// Low E (string 6) to High E (string 1)
    Down,
    /// High E (string 1) to Low E (string 6)
    Up,
    /// Automatically alternates Down and Up strokes
    Auto,
}

impl StrumDirection {
    pub open spec fn spec_is_down_stroke(self, last_was_down: bool) -> bool {
        match self {
            StrumDirection::Down => true,
            StrumDirection::Up => false,
            StrumDirection::Auto => !last_was_down,
        }
    }

    /// Whether the next stroke goes down, given whether the previous one did.
    pub fn is_down_stroke(self, last_was_down: bool) -> (r: bool)
        ensures
            r == self.spec_is_down_stroke(last_was_down),
            self == StrumDirection::Down ==> r,
            self == StrumDirection::Up ==> !r,
            self == StrumDirection::Auto ==> r == !last_was_down,
    {
        match self {
            StrumDirection::Down => true,
            StrumDirection::Up => false,
            StrumDirection::Auto => !last_was_down,
        }
    }
}

/// A fixed direction ignores the previous stroke: `Down` always strikes
/// down, `Up` always strikes up; only `Auto` looks at the last stroke, and it
/// goes the other way.
pub proof fn lemma_fixed_direction_ignores_last(last_was_down: bool)
    ensures
        StrumDirection::Down.spec_is_down_stroke(last_was_down) == true,
        StrumDirection::Up.spec_is_down_stroke(last_was_down) == false,
        StrumDirection::Auto.spec_is_down_stroke(last_was_down) == !last_was_down,
{
}

/// In a down-stroke the strings are struck from the low E (highest index)
/// towards the high E (index 0), in an up-stroke the other way: along a stroke
/// order the string index never rises (down) or never falls (up), and notes
/// on one string keep the order they were given in.
pub proof fn lemma_stroke_direction(strings: Seq<usize>, order: Seq<usize>, is_down: bool)
    requires
        is_stroke_order(strings, order, is_down),
    ensures
        forall|k: int, l: int| 0 <= k < l < order.len() ==> (if is_down {
            strings[#[trigger] order[k] as int] >= strings[#[trigger] order[l] as int]
        } else {
            strings[order[k] as int] <= strings[order[l] as int]
        }),
        forall|k: int, l: int| 0 <= k < l < order.len() && strings[#[trigger] order[k] as int] == strings[#[trigger] order[l] as int]
            ==> order[k] < order[l],
{
    assert forall|k: int, l: int| 0 <= k < l < order.len() implies (if is_down {
        strings[#[trigger] order[k] as int] >= strings[#[trigger] order[l] as int]
    } else {
        strings[order[k] as int] <= strings[order[l] as int]
    }) by {
        assert(comes_before(strings, order[k] as int, order[l] as int, is_down));
    }
    assert forall|k: int, l: int| 0 <= k < l < order.len() && strings[#[trigger] order[k] as int] == strings[#[trigger] order[l] as int]
        implies order[k] < order[l] by {
        assert(comes_before(strings, order[k] as int, order[l] as int, is_down));
    }
}

/// In automatic mode consecutive strokes alternate: two strokes in a row
/// bring the direction back to where it was.
pub proof fn lemma_auto_strum_alternates(last_was_down: bool)
    ensures
        StrumDirection::Auto.spec_is_down_stroke(last_was_down) != last_was_down,
        StrumDirection::Auto.spec_is_down_stroke(
            StrumDirection::Auto.spec_is_down_stroke(last_was_down),
        ) == last_was_down,
{
}

/// String `a` is struck strictly before string `b` in a stroke.
pub open spec fn strikes_before(a: usize, b: usize, is_down: bool) -> bool {
    if is_down { a > b } else { a < b }
}

/// Whether string `a` is struck strictly before string `b`.
fn struck_earlier(a: usize, b: usize, is_down: bool) -> (r: bool)
    ensures
        r == strikes_before(a, b, is_down),
{
    if is_down { a > b } else { a < b }
}

/// Position `x` of the chord comes before position `y` in the stroke: its
/// string is struck earlier, or it is on the same string and was given first.
pub open spec fn comes_before(strings: Seq<usize>, x: int, y: int, is_down: bool) -> bool {
    ||| strikes_before(strings[x], strings[y], is_down)
    ||| (strings[x] == strings[y] && x < y)
}

/// `order` lists chord positions in stroke order.
pub open spec fn is_stroke_order(strings: Seq<usize>, order: Seq<usize>, is_down: bool) -> bool {
    &&& order.len() == strings.len()
    &&& forall|k: int| 0 <= k < order.len() ==> #[trigger] order[k] < strings.len()
    &&& forall|k: int, l: int| 0 <= k < l < order.len() ==>
        comes_before(strings, #[trigger] order[k] as int, #[trigger] order[l] as int, is_down)
}

/// Orders the notes of a chord for one stroke. `strings` holds the string
/// index of each chord note; the result lists chord positions in the order
/// they are struck (a stable sort by string index, descending for a
/// down-stroke and ascending for an up-stroke).
pub fn strum_order(strings: &Vec<usize>, is_down: bool) -> (order: Vec<usize>)
    ensures
        is_stroke_order(strings@, order@, is_down),
{
    let n = strings.len();
    let mut order: Vec<usize> = Vec::new();
    let mut i: usize = 0;
    while i < n
        invariant
            n == strings.len(),
            i <= n,
            order.len() == i,
            forall|k: int| 0 <= k < order.len() ==> #[trigger] order@[k] < i,
            forall|k: int, l: int| 0 <= k < l < order.len() ==>
                comes_before(strings@, #[trigger] order@[k] as int, #[trigger] order@[l] as int, is_down),
        decreases n - i,
    {
        let key = strings[i];
        // First position whose string is struck after string `key`.
        let mut pos: usize = 0;
        while pos < order.len() && !struck_earlier(key, strings[order[pos]], is_down)
            invariant
                n == strings.len(),
                i < n,
                key == strings@[i as int],
                order.len() == i,
                pos <= order.len(),
                forall|k: int| 0 <= k < order.len() ==> #[trigger] order@[k] < i,
                forall|k: int| 0 <= k < pos ==> comes_before(strings@, #[trigger] order@[k] as int, i as int, is_down),
            decreases order.len() - pos,
        {
            pos = pos + 1;
        }
        proof {
            if pos < order.len() {
                assert(strikes_before(key, strings@[order@[pos as int] as int], is_down));
                assert forall|k: int| pos <= k < order.len() implies comes_before(
                    strings@,
                    i as int,
                    #[trigger] order@[k] as int,
                    is_down,
                ) by {
                    if k > pos {
                        assert(comes_before(strings@, order@[pos as int] as int, order@[k] as int, is_down));
                    }
                }
            }
        }
        let ghost old_order = order@;
        order.insert(pos, i);
        proof {
            assert forall|k: int| 0 <= k < order.len() implies #[trigger] order@[k] < i + 1 by {
                if k < pos {
                    assert(order@[k] == old_order[k]);
                } else if k > pos {
                    assert(order@[k] == old_order[k - 1]);
                }
            }
            assert forall|k: int, l: int| 0 <= k < l < order.len() implies comes_before(
                strings@,
                #[trigger] order@[k] as int,
                #[trigger] order@[l] as int,
                is_down,
            ) by {
                if k < pos && l < pos {
                    assert(order@[k] == old_order[k] && order@[l] == old_order[l]);
                } else if k < pos && l == pos {
                    assert(order@[k] == old_order[k]);
                } else if k < pos && l > pos {
                    assert(order@[k] == old_order[k] && order@[l] == old_order[l - 1]);
                } else if k == pos {
                    assert(order@[l] == old_order[l - 1]);
                } else {
                    assert(order@[k] == old_order[k - 1] && order@[l] == old_order[l - 1]);
                }
            }
        }
        i = i + 1;
    }
    order
}

/// Value `p` occurs somewhere in `s`.
pub open spec fn occurs_in(s: Seq<usize>, p: int) -> bool {
    exists|k: int| 0 <= k < s.len() && s[k] == p
}

/// A stroke order visits every chord note exactly once.
pub proof fn lemma_stroke_order_is_permutation(strings: Seq<usize>, order: Seq<usize>, is_down: bool)
    requires
        is_stroke_order(strings, order, is_down),
    ensures
        forall|k: int, l: int| 0 <= k < l < order.len() ==> order[k] != order[l],
        forall|p: int| 0 <= p < strings.len() ==> #[trigger] occurs_in(order, p),
{
    assert forall|k: int, l: int| 0 <= k < l < order.len() implies order[k] != order[l] by {
        assert(comes_before(strings, order[k] as int, order[l] as int, is_down));
    }
    lemma_distinct_below_covers(order, strings.len() as int);
}

/// `n` distinct values below `n` cover every value below `n`.
proof fn lemma_distinct_below_covers(s: Seq<usize>, n: int)
    requires
        s.len() == n,
        forall|k: int| 0 <= k < s.len() ==> #[trigger] s[k] < n,
        forall|k: int, l: int| 0 <= k < l < s.len() ==> s[k] != s[l],
    ensures
        forall|p: int| 0 <= p < n ==> #[trigger] occurs_in(s, p),
{
    assert forall|p: int| 0 <= p < n implies #[trigger] occurs_in(s, p) by {
        if !occurs_in(s, p) {
            // s has n distinct values among the n - 1 values below n other than p
            let others = vstd::set_lib::set_int_range(0, n).remove(p);
            let ints = s.map_values(|v: usize| v as int);
            assert forall|k: int, l: int| 0 <= k < l < ints.len() implies ints[k] != ints[l] by {
                assert(s[k] != s[l]);
            }
            assert(ints.no_duplicates()) by {
                assert forall|k: int, l: int| 0 <= k < ints.len() && 0 <= l < ints.len() && k != l implies ints[k] != ints[l] by {
                    if k < l {
                        assert(s[k] != s[l]);
                    } else {
                        assert(s[l] != s[k]);
                    }
                }
            }
            ints.unique_seq_to_set();
            assert(ints.to_set().subset_of(others)) by {
                assert forall|v: int| ints.to_set().contains(v) implies others.contains(v) by {
                    let k = choose|k: int| 0 <= k < ints.len() && ints[k] == v;
                    assert(s[k] == v);
                }
            }
            vstd::set_lib::lemma_int_range(0, n);
            vstd::set_lib::lemma_len_subset(ints.to_set(), others);
            assert(false);
        }
    }
}

/// The items of `q` that are due now (delay 0), in queue order.
pub open spec fn due_items<T>(q: Seq<(T, usize)>) -> Seq<T>
    decreases q.len(),
{
    if q.len() == 0 {
        Seq::empty()
    } else if q.last().1 == 0 {
        due_items(q.drop_last()).push(q.last().0)
    } else {
        due_items(q.drop_last())
    }
}

/// The items of `q` still waiting after one sample, one sample closer, in
/// queue order.
pub open spec fn still_waiting<T>(q: Seq<(T, usize)>) -> Seq<(T, usize)>
    decreases q.len(),
{
    if q.len() == 0 {
        Seq::empty()
    } else if q.last().1 == 0 {
        still_waiting(q.drop_last())
    } else {
        still_waiting(q.drop_last()).push((q.last().0, (q.last().1 - 1) as usize))
    }
}

/// Plucks of a strummed chord waiting for their moment: each item carries
/// the number of samples still to wait.
pub struct PluckQueue<T> {
    entries: Vec<(T, usize)>,
}

impl<T> PluckQueue<T> {
    /// The waiting items with their delays, in the order they were queued.
    pub closed spec fn spec_entries(self) -> Seq<(T, usize)> {
        self.entries@
    }

    pub fn new() -> (r: Self)
        ensures
            r.spec_entries() == Seq::<(T, usize)>::empty(),
    {
        PluckQueue { entries: Vec::new() }
    }

    /// Number of waiting items.
    pub fn len(&self) -> (r: usize)
        ensures
            r == self.spec_entries().len(),
    {
        self.entries.len()
    }

    /// Queues `item` to come out after `delay_samples` samples (0: on the
    /// next step).
    pub fn push(&mut self, item: T, delay_samples: usize)
        ensures
            final(self).spec_entries() == old(self).spec_entries().push((item, delay_samples)),
    {
        self.entries.push((item, delay_samples));
    }

    /// Advances one sample: hands the due items to `ready` (appended in queue
    /// order) and brings every other item one sample closer.
    pub fn step_into(&mut self, ready: &mut Vec<T>)
        ensures
            final(ready)@ == old(ready)@ + due_items(old(self).spec_entries()),
            final(self).spec_entries() == still_waiting(old(self).spec_entries()),
    {
        let ghost q = self.entries@;
        let ghost r0 = ready@;
        let mut rest: Vec<(T, usize)> = Vec::new();
        std::mem::swap(&mut rest, &mut self.entries);
        let mut k: usize = 0;
        let n = rest.len();
        while rest.len() > 0
            invariant
                n == q.len(),
                k + rest@.len() == n,
                rest@ == q.skip(k as int),
                self.entries@ == still_waiting(q.take(k as int)),
                ready@ == r0 + due_items(q.take(k as int)),
            decreases rest@.len(),
        {
            let (item, delay) = rest.remove(0);
            proof {
                assert(q.take(k + 1).drop_last() =~= q.take(k as int));
                assert(q.take(k + 1).last() == q[k as int]);
                assert(q[k as int] == (item, delay));
                assert(rest@ =~= q.skip(k + 1));
            }
            if delay == 0 {
                ready.push(item);
                assert(ready@ =~= r0 + due_items(q.take(k + 1)));
            } else {
                self.entries.push((item, delay - 1));
            }
            k = k + 1;
        }
        assert(q.take(n as int) =~= q);
    }
}

/// `notes` without the notes on string `string_index`, in order.
pub open spec fn without_string<T>(notes: Seq<(usize, T)>, string_index: usize) -> Seq<(usize, T)>
    decreases notes.len(),
{
    if notes.len() == 0 {
        Seq::empty()
    } else if notes.last().0 == string_index {
        without_string(notes.drop_last(), string_index)
    } else {
        without_string(notes.drop_last(), string_index).push(notes.last())
    }
}

/// Gathers the notes of a chord that arrive within a short window into one
/// strum: each new note restarts the window and replaces an earlier note on
/// the same string; when the window runs out the gathered notes come out
/// together.
pub struct ChordGather<T> {
    notes: Vec<(usize, T)>,
    timer: usize,
}

impl<T> ChordGather<T> {
    /// The gathered notes (string index, note), in arrival order.
    pub closed spec fn spec_notes(self) -> Seq<(usize, T)> {
        self.notes@
    }

    /// Samples left in the gathering window (0: no window open).
    pub closed spec fn spec_timer(self) -> usize {
        self.timer
    }

    pub fn new() -> (r: Self)
        ensures
            r.spec_notes() == Seq::<(usize, T)>::empty(),
            r.spec_timer() == 0,
    {
        ChordGather { notes: Vec::new(), timer: 0 }
    }

    /// A note on `string_index` arrives: it replaces any gathered note on that
    /// string and the window restarts with `window_samples` samples.
    pub fn add(&mut self, string_index: usize, note: T, window_samples: usize)
        ensures
            final(self).spec_notes() == without_string(old(self).spec_notes(), string_index).push((string_index, note)),
            final(self).spec_timer() == window_samples,
    {
        let ghost q = self.notes@;
        let mut rest: Vec<(usize, T)> = Vec::new();
        std::mem::swap(&mut rest, &mut self.notes);
        let mut k: usize = 0;
        let n = rest.len();
        while rest.len() > 0
            invariant
                n == q.len(),
                k + rest@.len() == n,
                rest@ == q.skip(k as int),
                self.notes@ == without_string(q.take(k as int), string_index),
            decreases rest@.len(),
        {
            let entry = rest.remove(0);
            proof {
                assert(q.take(k + 1).drop_last() =~= q.take(k as int));
                assert(q.take(k + 1).last() == q[k as int]);
                assert(rest@ =~= q.skip(k + 1));
            }
            if entry.0 != string_index {
                self.notes.push(entry);
            }
            k = k + 1;
        }
        assert(q.take(n as int) =~= q);
        self.notes.push((string_index, note));
        self.timer = window_samples;
    }

    /// Advances one sample. When the window runs out with notes gathered,
    /// returns them all (in arrival order) and starts empty again.
    pub fn step(&mut self) -> (chord: Option<Vec<(usize, T)>>)
        ensures
            final(self).spec_timer() == if old(self).spec_timer() > 0 {
                (old(self).spec_timer() - 1) as usize
            } else {
                0
            },
            old(self).spec_timer() == 1 && old(self).spec_notes().len() > 0 ==> (chord matches Some(c) && c@ == old(self).spec_notes()),
            old(self).spec_timer() == 1 && old(self).spec_notes().len() > 0 ==> final(self).spec_notes().len() == 0,
            !(old(self).spec_timer() == 1 && old(self).spec_notes().len() > 0) ==> chord is None,
            !(old(self).spec_timer() == 1 && old(self).spec_notes().len() > 0) ==> final(self).spec_notes() == old(self).spec_notes(),
    {
        if self.timer > 0 {
            self.timer = self.timer - 1;
            if self.timer == 0 && self.notes.len() > 0 {
                let mut chord: Vec<(usize, T)> = Vec::new();
                std::mem::swap(&mut chord, &mut self.notes);
                return Some(chord);
            }
        }
        None
    }
}

} // verus!
