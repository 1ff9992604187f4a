//! Polyphony bookkeeping of the piano engine.
//!
//! The pool tracks which keys have a sounding voice ("active") and which keys
//! are physically held down ("depressed"). When a new key would exceed the
//! polyphony limit, a voice is stolen: the quietest voice whose key is no
//! longer held, or, when every sounding key is held, the quietest of all. The
//! caller ranks the voices by loudness (quietest first); the pool decides.
use vstd::prelude::*;
use crate::piano::engine::EngineOutEvent;

verus! {

pub open spec fn note_end_key(ev: EngineOutEvent) -> u8 {
    match ev {
        EngineOutEvent::NoteEnd { key, .. } => key,
    }
}

pub open spec fn note_end_time(ev: EngineOutEvent) -> usize {
    match ev {
        EngineOutEvent::NoteEnd { time, .. } => time,
    }
}

/// Default polyphony limit of the engine.
pub const MAX_ACTIVE_VOICES: usize = 16;

/// Position `i` of `order` is the first key that is sounding and released.
pub open spec fn is_first_released(active: Seq<u8>, depressed: Seq<u8>, order: Seq<u8>, i: int) -> bool {
    &&& 0 <= i < order.len()
    &&& active.contains(order[i]) && !depressed.contains(order[i])
    &&& forall|j: int| 0 <= j < i ==> !(active.contains(#[trigger] order[j]) && !depressed.contains(order[j]))
}

/// Position `i` of `order` is the first key that is sounding.
pub open spec fn is_first_sounding(active: Seq<u8>, order: Seq<u8>, i: int) -> bool {
    &&& 0 <= i < order.len()
    &&& active.contains(order[i])
    &&& forall|j: int| 0 <= j < i ==> !active.contains(#[trigger] order[j])
}

/// Some key of `order` is sounding and released.
pub open spec fn has_released(active: Seq<u8>, depressed: Seq<u8>, order: Seq<u8>) -> bool {
    exists|j: int| 0 <= j < order.len() && active.contains(#[trigger] order[j]) && !depressed.contains(order[j])
}

/// Some key of `order` is sounding.
pub open spec fn has_sounding(active: Seq<u8>, order: Seq<u8>) -> bool {
    exists|j: int| 0 <= j < order.len() && active.contains(#[trigger] order[j])
}

/// The key a steal takes, given the voices ranked quietest first: the first
/// released sounding key, else the first sounding key, else none.
pub open spec fn steal_choice_ok(active: Seq<u8>, depressed: Seq<u8>, order: Seq<u8>, r: Option<u8>) -> bool {
    match r {
        None => !has_sounding(active, order),
        Some(k) => if has_released(active, depressed, order) {
            exists|i: int| is_first_released(active, depressed, order, i) && order[i] == k
        } else {
            exists|i: int| is_first_sounding(active, order, i) && order[i] == k
        },
    }
}

/// Every sounding key appears in the ranking.
pub open spec fn ranks_all(active: Seq<u8>, order: Seq<u8>) -> bool {
    forall|k: u8| active.contains(k) ==> #[trigger] order.contains(k)
}

/// `a` is ranked before `b`: it occurs in `order` before the first
/// occurrence of `b` (or `b` does not occur at all).
pub open spec fn ranked_before(order: Seq<u8>, a: u8, b: u8) -> bool {
    exists|i: int| 0 <= i < order.len() && #[trigger] order[i] == a && forall|j: int| 0 <= j < i ==> order[j] != b
}

/// Among keys of one kind (held or released), every key that lost its voice
/// is ranked quieter than every key that kept it.
pub open spec fn quietest_stolen_first(order: Seq<u8>, before: Set<u8>, after: Seq<u8>, depressed: Seq<u8>) -> bool {
    forall|s: u8, k: u8|
        #![trigger before.contains(s), after.contains(k)]
        before.contains(s) && !after.contains(s) && after.contains(k) && depressed.contains(s) == depressed.contains(k)
            ==> ranked_before(order, s, k)
}

/// A held key lost its voice only if every released key that sounded lost
/// its voice too.
pub open spec fn held_stolen_last(before: Set<u8>, after: Seq<u8>, depressed: Seq<u8>) -> bool {
    forall|h: u8, r: u8|
        #![trigger before.contains(h), after.contains(r)]
        before.contains(h) && !after.contains(h) && depressed.contains(h) && after.contains(r) ==> depressed.contains(r)
}

/// The keys still sounding after the decayed released keys of `quiet` are
/// retired.
pub open spec fn kept_after_quiet(active: Seq<u8>, quiet: Seq<u8>, depressed: Seq<u8>) -> Set<u8> {
    Set::new(|x: u8| active.contains(x) && !(quiet.contains(x) && !depressed.contains(x)))
}

/// Some event from position `from` on reports the end of `key`.
pub open spec fn reported(events: Seq<EngineOutEvent>, from: int, key: u8) -> bool {
    exists|e: int| from <= e < events.len() && note_end_key(#[trigger] events[e]) == key
}

/// The events from position `from` on report each key that stopped sounding
/// between `before` and `after`, and no key twice.
pub open spec fn ends_each_once(before: Seq<u8>, after: Seq<u8>, from: int, events: Seq<EngineOutEvent>) -> bool {
    &&& forall|x: u8|
        #![trigger before.contains(x), after.contains(x)]
        before.contains(x) && !after.contains(x) ==> exists|e: int| from <= e < events.len() && note_end_key(#[trigger] events[e]) == x
    &&& forall|e1: int, e2: int|
        from <= e1 < events.len() && from <= e2 < events.len() && e1 != e2 ==> note_end_key(#[trigger] events[e1]) != note_end_key(#[trigger] events[e2])
}

pub struct VoicePool {
    active: Vec<u8>,
    depressed: Vec<u8>,
    max_active_voices: usize,
}

/// `s` with `k` taken out: same members except `k`.
pub open spec fn removed(before: Seq<u8>, after: Seq<u8>, k: u8) -> bool {
    &&& forall|x: u8| #[trigger] after.contains(x) <==> before.contains(x) && x != k
    &&& after.no_duplicates()
    &&& after.len() == if before.contains(k) { before.len() - 1 } else { before.len() as int }
}

/// `s` with `k` added: same members plus `k`.
pub open spec fn added(before: Seq<u8>, after: Seq<u8>, k: u8) -> bool {
    &&& forall|x: u8| #[trigger] after.contains(x) <==> before.contains(x) || x == k
    &&& after.no_duplicates()
    &&& after.len() == if before.contains(k) { before.len() as int } else { before.len() + 1int }
}

fn position_of(v: &Vec<u8>, key: u8) -> (r: Option<usize>)
    ensures
        r matches Some(i) ==> i < v.len() && v@[i as int] == key,
        r is None ==> !v@.contains(key),
{
    let mut i: usize = 0;
    while i < v.len()
        invariant
            i <= v.len(),
            forall|j: int| 0 <= j < i ==> v@[j] != key,
        decreases v.len() - i,
    {
        if v[i] == key {
            return Some(i);
        }
        i = i + 1;
    }
    None
}

fn remove_key(v: &mut Vec<u8>, key: u8)
    requires
        old(v)@.no_duplicates(),
    ensures
        removed(old(v)@, final(v)@, key),
{
    match position_of(v, key) {
        Some(i) => {
            let ghost before = v@;
            v.remove(i);
            assert forall|x: u8| #[trigger] v@.contains(x) <==> before.contains(x) && x != key by {
                if v@.contains(x) {
                    let j = choose|j: int| 0 <= j < v@.len() && v@[j] == x;
                    if j < i {
                        assert(before[j] == x);
                    } else {
                        assert(before[j + 1] == x);
                    }
                }
                if before.contains(x) && x != key {
                    let j = choose|j: int| 0 <= j < before.len() && before[j] == x;
                    if j < i {
                        assert(v@[j] == x);
                    } else {
                        assert(v@[j - 1] == x);
                    }
                }
            }
            assert(v@.no_duplicates()) by {
                assert forall|a: int, b: int| 0 <= a < v@.len() && 0 <= b < v@.len() && a != b implies v@[a] != v@[b] by {
                    let a1 = if a < i { a } else { a + 1 };
                    let b1 = if b < i { b } else { b + 1 };
                    assert(v@[a] == before[a1] && v@[b] == before[b1]);
                }
            }
        },
        None => {},
    }
}

fn add_key(v: &mut Vec<u8>, key: u8)
    requires
        old(v)@.no_duplicates(),
    ensures
        added(old(v)@, final(v)@, key),
{
    match position_of(v, key) {
        Some(_) => {},
        None => {
            let ghost before = v@;
            v.push(key);
            assert forall|x: u8| #[trigger] v@.contains(x) <==> before.contains(x) || x == key by {
                if v@.contains(x) {
                    let j = choose|j: int| 0 <= j < v@.len() && v@[j] == x;
                    if j < before.len() {
                        assert(before[j] == x);
                    }
                }
                if before.contains(x) {
                    let j = choose|j: int| 0 <= j < before.len() && before[j] == x;
                    assert(v@[j] == x);
                }
                if x == key {
                    assert(v@[before.len() as int] == x);
                }
            }
        },
    }
}

impl VoicePool {
    pub closed spec fn spec_active(self) -> Seq<u8> {
        self.active@
    }

    pub closed spec fn spec_depressed(self) -> Seq<u8> {
        self.depressed@
    }

    pub closed spec fn spec_max_active_voices(self) -> usize {
        self.max_active_voices
    }

    /// No key is listed twice.
    pub open spec fn wf(self) -> bool {
        self.spec_active().no_duplicates() && self.spec_depressed().no_duplicates()
    }

    /// A new key has to steal a voice: the pool is full and the key is not
    /// sounding already.
    pub open spec fn spec_needs_steal(self, key: u8) -> bool {
        self.spec_active().len() >= self.spec_max_active_voices() && !self.spec_active().contains(key)
    }

    /// An empty pool with the given polyphony limit.
    pub fn new(max_active_voices: usize) -> (r: Self)
        ensures
            r.wf(),
            r.spec_active().len() == 0,
            r.spec_depressed().len() == 0,
            r.spec_max_active_voices() == max_active_voices,
    {
        VoicePool { active: Vec::new(), depressed: Vec::new(), max_active_voices }
    }

    /// The sounding keys.
    pub fn active_keys(&self) -> (r: &Vec<u8>)
        ensures
            r@ == self.spec_active(),
    {
        &self.active
    }

    /// The keys held down.
    pub fn depressed_keys(&self) -> (r: &Vec<u8>)
        ensures
            r@ == self.spec_depressed(),
    {
        &self.depressed
    }

    pub fn max_active_voices(&self) -> (r: usize)
        ensures
            r == self.spec_max_active_voices(),
    {
        self.max_active_voices
    }

    pub fn is_active(&self, key: u8) -> (r: bool)
        ensures
            r == self.spec_active().contains(key),
    {
        position_of(&self.active, key).is_some()
    }

    pub fn is_depressed(&self, key: u8) -> (r: bool)
        ensures
            r == self.spec_depressed().contains(key),
    {
        position_of(&self.depressed, key).is_some()
    }

    pub fn needs_steal(&self, key: u8) -> (r: bool)
        ensures
            r == self.spec_needs_steal(key),
    {
        self.active.len() >= self.max_active_voices && !self.is_active(key)
    }

    /// Steals a voice: picks the key by `steal_choice_ok` from `order` (the
    /// voices ranked quietest first) and stops its voice. The caller resets the
    /// stolen key's voice.
    pub fn steal_voice(&mut self, order: &[u8]) -> (stolen: Option<u8>)
        requires
            old(self).wf(),
        ensures
            final(self).wf(),
            steal_choice_ok(old(self).spec_active(), old(self).spec_depressed(), order@, stolen),
            stolen matches Some(k) ==> removed(old(self).spec_active(), final(self).spec_active(), k)
                && old(self).spec_active().contains(k),
            stolen is None ==> final(self).spec_active() == old(self).spec_active(),
            final(self).spec_depressed() == old(self).spec_depressed(),
            final(self).spec_max_active_voices() == old(self).spec_max_active_voices(),
    {
        let ghost active = self.active@;
        let ghost depressed = self.depressed@;
        // Candidate 1: key not physically held down, lowest vibrational energy
        let mut i: usize = 0;
        while i < order.len()
            invariant
                i <= order.len(),
                active == self.active@,
                depressed == self.depressed@,
                self.wf(),
                active == old(self).active@,
                depressed == old(self).depressed@,
                self.max_active_voices == old(self).max_active_voices,
                forall|j: int| 0 <= j < i ==> !(active.contains(#[trigger] order@[j]) && !depressed.contains(order@[j])),
            decreases order.len() - i,
        {
            let k = order[i];
            if self.is_active(k) && !self.is_depressed(k) {
                assert(is_first_released(active, depressed, order@, i as int));
                remove_key(&mut self.active, k);
                return Some(k);
            }
            i = i + 1;
        }
        assert(!has_released(active, depressed, order@));
        // Candidate 2: every sounding key is held down, steal the lowest energy one
        let mut i: usize = 0;
        while i < order.len()
            invariant
                i <= order.len(),
                active == self.active@,
                depressed == self.depressed@,
                self.wf(),
                active == old(self).active@,
                depressed == old(self).depressed@,
                self.max_active_voices == old(self).max_active_voices,
                !has_released(active, depressed, order@),
                forall|j: int| 0 <= j < i ==> !active.contains(#[trigger] order@[j]),
            decreases order.len() - i,
        {
            let k = order[i];
            if self.is_active(k) {
                assert(is_first_sounding(active, order@, i as int));
                remove_key(&mut self.active, k);
                return Some(k);
            }
            i = i + 1;
        }
        None
    }

    /// Key pressed: steals a voice first when the pool is full and the key is
    /// new (ranking `order`, quietest first), then marks the key sounding and
    /// held. Returns the stolen key, whose voice the caller resets.
    pub fn note_on(&mut self, key: u8, order: &[u8]) -> (stolen: Option<u8>)
        requires
            old(self).wf(),
        ensures
            final(self).wf(),
            !old(self).spec_needs_steal(key) ==> stolen is None,
            old(self).spec_needs_steal(key)
                ==> steal_choice_ok(old(self).spec_active(), old(self).spec_depressed(), order@, stolen),
            forall|x: u8| #[trigger] final(self).spec_active().contains(x) <==> (x == key || (
            old(self).spec_active().contains(x) && stolen != Some(x))),
            added(old(self).spec_depressed(), final(self).spec_depressed(), key),
            final(self).spec_max_active_voices() == old(self).spec_max_active_voices(),
            final(self).spec_active().len() == old(self).spec_active().len() + (if old(self).spec_active().contains(
                key,
            ) {
                0int
            } else {
                1int
            }) - (if stolen is Some {
                1int
            } else {
                0int
            }),
    {
        let stolen = if self.needs_steal(key) {
            self.steal_voice(order)
        } else {
            None
        };
        add_key(&mut self.active, key);
        add_key(&mut self.depressed, key);
        stolen
    }

    /// Key released: no longer held (its voice keeps sounding until it decays).
    pub fn note_off(&mut self, key: u8)
        requires
            old(self).wf(),
        ensures
            final(self).wf(),
            removed(old(self).spec_depressed(), final(self).spec_depressed(), key),
            final(self).spec_active() == old(self).spec_active(),
            final(self).spec_max_active_voices() == old(self).spec_max_active_voices(),
    {
        remove_key(&mut self.depressed, key);
    }

    /// End of a block: retires the voices of `quiet` (keys whose sound has
    /// decayed to inaudibility) that are sounding and no longer held, reporting
    /// `NoteEnd` at `time` for each, once per key, in the order of `quiet`.
    pub fn retire_quiet(&mut self, quiet: &[u8], time: usize, out: &mut Vec<EngineOutEvent>)
        requires
            old(self).wf(),
        ensures
            final(self).wf(),
            forall|x: u8| #[trigger] final(self).spec_active().contains(x) <==> old(self).spec_active().contains(x)
                && !(quiet@.contains(x) && !old(self).spec_depressed().contains(x)),
            final(self).spec_depressed() == old(self).spec_depressed(),
            final(self).spec_max_active_voices() == old(self).spec_max_active_voices(),
            final(out)@.len() >= old(out)@.len(),
            final(out)@.subrange(0, old(out)@.len() as int) == old(out)@,
            forall|e: int| old(out)@.len() <= e < final(out)@.len() ==> note_end_time(#[trigger] final(out)@[e]) == time && quiet@.contains(note_end_key(final(out)@[e])) && old(self).spec_active().contains(note_end_key(final(out)@[e]))
                && !old(self).spec_depressed().contains(note_end_key(final(out)@[e])),
            ends_each_once(old(self).spec_active(), final(self).spec_active(), old(out)@.len() as int, final(out)@),
            forall|e1: int, e2: int|
                old(out)@.len() <= e1 < e2 < final(out)@.len() ==> ranked_before(quiet@, note_end_key(#[trigger] final(out)@[e1]), note_end_key(#[trigger] final(out)@[e2])),
    {
        let ghost active0 = self.active@;
        let ghost out0 = out@;
        let mut i: usize = 0;
        while i < quiet.len()
            invariant
                i <= quiet.len(),
                self.wf(),
                self.depressed@ == old(self).depressed@,
                self.max_active_voices == old(self).max_active_voices,
                active0 == old(self).active@,
                out0 == old(out)@,
                forall|x: u8| #[trigger] self.active@.contains(x) <==> active0.contains(x)
                    && !(quiet@.subrange(0, i as int).contains(x) && !self.depressed@.contains(x)),
                out@.subrange(0, out0.len() as int) == out0,
                out@.len() >= out0.len(),
                forall|e: int| out0.len() <= e < out@.len() ==> note_end_time(#[trigger] out@[e]) == time && quiet@.contains(note_end_key(out@[e])) && active0.contains(note_end_key(out@[e])) && !self.depressed@.contains(note_end_key(out@[e])) && !self.active@.contains(note_end_key(out@[e])),
                ends_each_once(active0, self.active@, out0.len() as int, out@),
                forall|e: int| out0.len() <= e < out@.len() ==> quiet@.subrange(0, i as int).contains(note_end_key(#[trigger] out@[e])),
                forall|e1: int, e2: int|
                    out0.len() <= e1 < e2 < out@.len() ==> ranked_before(quiet@, note_end_key(#[trigger] out@[e1]), note_end_key(#[trigger] out@[e2])),
            decreases quiet.len() - i,
        {
            let key = quiet[i];
            let ghost before = self.active@;
            let ghost out_before = out@;
            if self.is_active(key) && !self.is_depressed(key) {
                remove_key(&mut self.active, key);
                out.push(EngineOutEvent::NoteEnd { time, key });
                assert(quiet@.contains(key)) by {
                    assert(quiet@[i as int] == key);
                }
                assert(out@.subrange(0, out0.len() as int) =~= out_before.subrange(0, out0.len() as int));
                assert forall|e: int| out0.len() <= e < out@.len() implies note_end_time(#[trigger] out@[e]) == time && quiet@.contains(note_end_key(out@[e])) && active0.contains(note_end_key(out@[e])) && !self.depressed@.contains(note_end_key(out@[e])) && !self.active@.contains(note_end_key(out@[e])) by {
                    if e < out_before.len() {
                        assert(out@[e] == out_before[e]);
                    }
                }
                proof {
                    lemma_end_recorded(active0, before, self.active@, key, out0.len() as int, out_before, out@);
                    assert forall|j: int| 0 <= j < i implies quiet@[j] != key by {
                        if quiet@[j] == key {
                            assert(quiet@.subrange(0, i as int)[j] == key);
                        }
                    }
                    lemma_retired_in_order(quiet@, i as int, key, out0.len() as int, out_before, out@);
                }
            }
            proof {
                let q0 = quiet@.subrange(0, i as int);
                let q1 = quiet@.subrange(0, i + 1);
                assert forall|x: u8| q1.contains(x) <==> (q0.contains(x) || x == key) by {
                    if q1.contains(x) {
                        let j = choose|j: int| 0 <= j < q1.len() && q1[j] == x;
                        if j < i {
                            assert(q0[j] == x);
                        }
                    }
                    if q0.contains(x) {
                        let j = choose|j: int| 0 <= j < q0.len() && q0[j] == x;
                        assert(q1[j] == x);
                    }
                    if x == key {
                        assert(q1[i as int] == x);
                    }
                }
            }
            i = i + 1;
        }
        assert(quiet@.subrange(0, quiet.len() as int) =~= quiet@);
    }

    /// Enforces the polyphony limit: steals voices (ranking `order`, quietest
    /// first) while more keys sound than the limit allows, reporting `NoteEnd`
    /// at `time` for each stolen key, once per key. When the ranking lists
    /// every sounding key, exactly the excess voices are stolen, and a held key
    /// loses its voice only when no released key is left sounding; within each
    /// kind (held or released) the quietest voices go first.
    pub fn enforce_polyphony(&mut self, order: &[u8], time: usize, out: &mut Vec<EngineOutEvent>)
        requires
            old(self).wf(),
        ensures
            final(self).wf(),
            ranks_all(old(self).spec_active(), order@) ==> final(self).spec_active().len() == if old(self).spec_active().len() > old(self).spec_max_active_voices() {
                old(self).spec_max_active_voices() as int
            } else {
                old(self).spec_active().len() as int
            },
            ranks_all(old(self).spec_active(), order@) ==> held_stolen_last(old(self).spec_active().to_set(), final(self).spec_active(), old(self).spec_depressed()),
            quietest_stolen_first(order@, old(self).spec_active().to_set(), final(self).spec_active(), old(self).spec_depressed()),
            final(self).spec_active().len() <= old(self).spec_active().len(),
            forall|x: u8| #[trigger] final(self).spec_active().contains(x) ==> old(self).spec_active().contains(x),
            final(self).spec_depressed() == old(self).spec_depressed(),
            final(self).spec_max_active_voices() == old(self).spec_max_active_voices(),
            final(out)@.len() >= old(out)@.len(),
            final(out)@.subrange(0, old(out)@.len() as int) == old(out)@,
            forall|e: int| old(out)@.len() <= e < final(out)@.len() ==> note_end_time(#[trigger] final(out)@[e]) == time && old(self).spec_active().contains(note_end_key(final(out)@[e])) && !final(self).spec_active().contains(note_end_key(final(out)@[e])),
            ends_each_once(old(self).spec_active(), final(self).spec_active(), old(out)@.len() as int, final(out)@),
    {
        let ghost active0 = self.active@;
        let ghost out0 = out@;
        let ghost depressed = self.depressed@;
        while self.active.len() > self.max_active_voices
            invariant
                self.wf(),
                self.depressed@ == old(self).depressed@,
                depressed == old(self).depressed@,
                self.max_active_voices == old(self).max_active_voices,
                active0 == old(self).active@,
                out0 == old(out)@,
                self.active@.len() <= active0.len(),
                forall|x: u8| #[trigger] self.active@.contains(x) ==> active0.contains(x),
                ranks_all(active0, order@) ==> ranks_all(self.active@, order@),
                ranks_all(active0, order@) ==> (self.active@.len() == active0.len() || self.active@.len() >= self.max_active_voices),
                ranks_all(active0, order@) ==> held_stolen_last(active0.to_set(), self.active@, depressed),
                quietest_stolen_first(order@, active0.to_set(), self.active@, depressed),
                out@.subrange(0, out0.len() as int) == out0,
                out@.len() >= out0.len(),
                forall|e: int| out0.len() <= e < out@.len() ==> note_end_time(#[trigger] out@[e]) == time && active0.contains(note_end_key(out@[e])) && !self.active@.contains(note_end_key(out@[e])),
                ends_each_once(active0, self.active@, out0.len() as int, out@),
            decreases self.active@.len(),
        {
            let ghost before = self.active@;
            let ghost out_before = out@;
            match self.steal_voice(order) {
                Some(key) => {
                    assert(self.active@.len() < before.len());
                    out.push(EngineOutEvent::NoteEnd { time, key });
                    assert(out@.subrange(0, out0.len() as int) =~= out_before.subrange(0, out0.len() as int));
                    assert forall|e: int| out0.len() <= e < out@.len() implies note_end_time(#[trigger] out@[e]) == time && active0.contains(note_end_key(out@[e])) && !self.active@.contains(note_end_key(out@[e])) by {
                        if e < out_before.len() {
                            assert(out@[e] == out_before[e]);
                        }
                    }
                    proof {
                        lemma_end_recorded(active0, before, self.active@, key, out0.len() as int, out_before, out@);
                        lemma_steal_keeps_quietest_first(active0.to_set(), before, self.active@, depressed, order@, key);
                        if ranks_all(active0, order@) {
                            lemma_steal_keeps_held_last(active0.to_set(), before, self.active@, depressed, order@, key);
                        }
                    }
                },
                None => {
                    proof {
                        if ranks_all(active0, order@) {
                            assert(self.active@.len() > 0);
                            let k = self.active@[0];
                            assert(self.active@.contains(k));
                            assert(order@.contains(k));
                            let j = choose|j: int| 0 <= j < order@.len() && order@[j] == k;
                            assert(self.active@.contains(order@[j]));
                            assert(has_sounding(self.active@, order@));
                            assert(false);
                        }
                    }
                    return;
                },
            }
        }
    }

    /// End of an audio block: retires the decayed voices of `quiet` (see
    /// `retire_quiet`), then enforces the polyphony limit with the ranking
    /// `order` (see `enforce_polyphony`), appending one `NoteEnd` at `time` per
    /// key that stopped sounding. Of the keys left after retiring, a key keeps
    /// its voice exactly when it is not reported; the stolen ones are the
    /// quietest of their kind (held or released). With a ranking of every
    /// sounding key, held keys go last and exactly the excess over the limit
    /// is stolen.
    pub fn end_block(&mut self, quiet: &[u8], order: &[u8], time: usize, out: &mut Vec<EngineOutEvent>)
        requires
            old(self).wf(),
        ensures
            final(self).wf(),
            forall|x: u8| #[trigger] final(self).spec_active().contains(x) <==> kept_after_quiet(old(self).spec_active(), quiet@, old(self).spec_depressed()).contains(x)
                && !reported(final(out)@, old(out)@.len() as int, x),
            quietest_stolen_first(order@, kept_after_quiet(old(self).spec_active(), quiet@, old(self).spec_depressed()), final(self).spec_active(), old(self).spec_depressed()),
            ranks_all(old(self).spec_active(), order@) ==> held_stolen_last(kept_after_quiet(old(self).spec_active(), quiet@, old(self).spec_depressed()), final(self).spec_active(), old(self).spec_depressed()),
            ranks_all(old(self).spec_active(), order@) ==> final(self).spec_active().len() == if kept_after_quiet(old(self).spec_active(), quiet@, old(self).spec_depressed()).len() > old(self).spec_max_active_voices() {
                old(self).spec_max_active_voices() as int
            } else {
                kept_after_quiet(old(self).spec_active(), quiet@, old(self).spec_depressed()).len() as int
            },
            ranks_all(old(self).spec_active(), order@) ==> final(self).spec_active().len() <= final(self).spec_max_active_voices(),
            forall|x: u8| #[trigger] final(self).spec_active().contains(x) ==> old(self).spec_active().contains(x),
            forall|x: u8| #[trigger] quiet@.contains(x) && !old(self).spec_depressed().contains(x) ==> !final(self).spec_active().contains(x),
            final(self).spec_depressed() == old(self).spec_depressed(),
            final(self).spec_max_active_voices() == old(self).spec_max_active_voices(),
            final(out)@.len() >= old(out)@.len(),
            final(out)@.subrange(0, old(out)@.len() as int) == old(out)@,
            forall|e: int| old(out)@.len() <= e < final(out)@.len() ==> note_end_time(#[trigger] final(out)@[e]) == time && old(self).spec_active().contains(note_end_key(final(out)@[e])) && !final(self).spec_active().contains(note_end_key(final(out)@[e])),
            ends_each_once(old(self).spec_active(), final(self).spec_active(), old(out)@.len() as int, final(out)@),
    {
        let ghost a0 = self.active@;
        let ghost o0 = out@;
        self.retire_quiet(quiet, time, out);
        let ghost a1 = self.active@;
        let ghost o1 = out@;
        proof {
            if ranks_all(a0, order@) {
                assert forall|k: u8| a1.contains(k) implies #[trigger] order@.contains(k) by {
                    assert(a0.contains(k));
                }
            }
        }
        self.enforce_polyphony(order, time, out);
        proof {
            let kept = kept_after_quiet(a0, quiet@, self.depressed@);
            assert(a1.to_set() =~= kept);
            a1.unique_seq_to_set();
            lemma_ends_compose(a0, a1, self.active@, o0.len() as int, o1, out@);
            assert forall|x: u8| #[trigger] self.active@.contains(x) <==> kept.contains(x) && !reported(out@, o0.len() as int, x) by {
                if self.active@.contains(x) {
                    assert(a1.contains(x));
                    if reported(out@, o0.len() as int, x) {
                        let e = choose|e: int| o0.len() <= e < out@.len() && note_end_key(#[trigger] out@[e]) == x;
                        if e < o1.len() {
                            assert(out@[e] == o1[e]);
                        }
                    }
                }
                if kept.contains(x) && !self.active@.contains(x) {
                    assert(a0.contains(x));
                }
            }
            assert(out@.subrange(0, o0.len() as int) =~= o1.subrange(0, o0.len() as int));
            assert forall|e: int| o0.len() <= e < out@.len() implies note_end_time(#[trigger] out@[e]) == time && a0.contains(note_end_key(out@[e])) && !self.active@.contains(note_end_key(out@[e])) by {
                if e < o1.len() {
                    assert(out@[e] == o1[e]);
                }
            }
        }
    }

    /// Drops every voice and every held key.
    pub fn clear(&mut self)
        ensures
            final(self).wf(),
            final(self).spec_active().len() == 0,
            final(self).spec_depressed().len() == 0,
            final(self).spec_max_active_voices() == old(self).spec_max_active_voices(),
    {
        self.active.clear();
        self.depressed.clear();
    }
}

/// Recording the end of `key`, which `now` no longer holds but `mid` did,
/// keeps every stopped key reported exactly once.
proof fn lemma_end_recorded(
    start: Seq<u8>,
    mid: Seq<u8>,
    now: Seq<u8>,
    key: u8,
    from: int,
    events_before: Seq<EngineOutEvent>,
    events: Seq<EngineOutEvent>,
)
    requires
        0 <= from <= events_before.len(),
        ends_each_once(start, mid, from, events_before),
        forall|e: int| from <= e < events_before.len() ==> !mid.contains(note_end_key(#[trigger] events_before[e])),
        mid.contains(key),
        forall|x: u8| #[trigger] now.contains(x) <==> mid.contains(x) && x != key,
        forall|x: u8| #[trigger] mid.contains(x) ==> start.contains(x),
        events == events_before.push(EngineOutEvent::NoteEnd { time: note_end_time(events[events.len() - 1]), key }),
    ensures
        ends_each_once(start, now, from, events),
{
    let last = events_before.len() as int;
    assert(note_end_key(events[last]) == key);
    assert forall|x: u8| start.contains(x) && !now.contains(x) implies exists|e: int| from <= e < events.len() && note_end_key(#[trigger] events[e]) == x by {
        if x == key {
            assert(note_end_key(events[last]) == x);
        } else {
            assert(!mid.contains(x));
            let e = choose|e: int| from <= e < events_before.len() && note_end_key(#[trigger] events_before[e]) == x;
            assert(events[e] == events_before[e]);
        }
    }
    assert forall|e1: int, e2: int| from <= e1 < events.len() && from <= e2 < events.len() && e1 != e2 implies note_end_key(#[trigger] events[e1]) != note_end_key(#[trigger] events[e2]) by {
        if e1 < last && e2 < last {
            assert(events[e1] == events_before[e1] && events[e2] == events_before[e2]);
        } else if e1 < last {
            assert(events[e1] == events_before[e1]);
            assert(!mid.contains(note_end_key(events_before[e1])));
        } else {
            assert(events[e2] == events_before[e2]);
            assert(!mid.contains(note_end_key(events_before[e2])));
        }
    }
}

/// Retiring the key at position `i` of `quiet`, its first occurrence, keeps
/// the reported keys in the order of `quiet`.
proof fn lemma_retired_in_order(
    quiet: Seq<u8>,
    i: int,
    key: u8,
    from: int,
    events_before: Seq<EngineOutEvent>,
    events: Seq<EngineOutEvent>,
)
    requires
        0 <= i < quiet.len(),
        quiet[i] == key,
        forall|j: int| 0 <= j < i ==> quiet[j] != key,
        0 <= from <= events_before.len(),
        forall|e: int| from <= e < events_before.len() ==> quiet.subrange(0, i).contains(note_end_key(#[trigger] events_before[e])),
        forall|e1: int, e2: int|
            from <= e1 < e2 < events_before.len() ==> ranked_before(quiet, note_end_key(#[trigger] events_before[e1]), note_end_key(#[trigger] events_before[e2])),
        events.len() == events_before.len() + 1,
        forall|e: int| 0 <= e < events_before.len() ==> events[e] == events_before[e],
        note_end_key(events[events_before.len() as int]) == key,
    ensures
        forall|e: int| from <= e < events.len() ==> quiet.subrange(0, i + 1).contains(note_end_key(#[trigger] events[e])),
        forall|e1: int, e2: int|
            from <= e1 < e2 < events.len() ==> ranked_before(quiet, note_end_key(#[trigger] events[e1]), note_end_key(#[trigger] events[e2])),
{
    let last = events_before.len() as int;
    assert forall|e: int| from <= e < events.len() implies quiet.subrange(0, i + 1).contains(note_end_key(#[trigger] events[e])) by {
        if e < last {
            assert(events[e] == events_before[e]);
            let k = note_end_key(events_before[e]);
            let p = choose|p: int| 0 <= p < i && quiet.subrange(0, i)[p] == k;
            assert(quiet.subrange(0, i + 1)[p] == k);
        } else {
            assert(quiet.subrange(0, i + 1)[i] == key);
        }
    }
    assert forall|e1: int, e2: int| from <= e1 < e2 < events.len() implies ranked_before(quiet, note_end_key(#[trigger] events[e1]), note_end_key(#[trigger] events[e2])) by {
        assert(events[e1] == events_before[e1]);
        if e2 < last {
            assert(events[e2] == events_before[e2]);
        } else {
            let k = note_end_key(events_before[e1]);
            let p = choose|p: int| 0 <= p < i && quiet.subrange(0, i)[p] == k;
            assert(quiet[p] == k);
            assert forall|j: int| 0 <= j < p implies quiet[j] != key by {}
        }
    }
}

/// One steal by `steal_choice_ok` keeps the stolen keys the quietest of
/// their kind.
proof fn lemma_steal_keeps_quietest_first(start: Set<u8>, mid: Seq<u8>, now: Seq<u8>, depressed: Seq<u8>, order: Seq<u8>, key: u8)
    requires
        quietest_stolen_first(order, start, mid, depressed),
        steal_choice_ok(mid, depressed, order, Some(key)),
        forall|x: u8| #[trigger] now.contains(x) <==> mid.contains(x) && x != key,
        forall|x: u8| #[trigger] mid.contains(x) ==> start.contains(x),
    ensures
        quietest_stolen_first(order, start, now, depressed),
{
    assert forall|s: u8, k: u8|
        start.contains(s) && !now.contains(s) && now.contains(k) && depressed.contains(s) == depressed.contains(k)
        implies ranked_before(order, s, k) by {
        assert(mid.contains(k));
        if s == key {
            if has_released(mid, depressed, order) {
                let i = choose|i: int| is_first_released(mid, depressed, order, i) && order[i] == key;
                assert forall|j: int| 0 <= j < i implies order[j] != k by {
                    assert(!(mid.contains(order[j]) && !depressed.contains(order[j])));
                }
                assert(order[i] == s);
            } else {
                let i = choose|i: int| is_first_sounding(mid, order, i) && order[i] == key;
                assert forall|j: int| 0 <= j < i implies order[j] != k by {
                    assert(!mid.contains(order[j]));
                }
                assert(order[i] == s);
            }
        } else {
            assert(!mid.contains(s));
        }
    }
}

/// One steal by `steal_choice_ok` keeps held keys last in line.
proof fn lemma_steal_keeps_held_last(start: Set<u8>, mid: Seq<u8>, now: Seq<u8>, depressed: Seq<u8>, order: Seq<u8>, key: u8)
    requires
        held_stolen_last(start, mid, depressed),
        ranks_all(mid, order),
        steal_choice_ok(mid, depressed, order, Some(key)),
        forall|x: u8| #[trigger] now.contains(x) <==> mid.contains(x) && x != key,
        forall|x: u8| #[trigger] mid.contains(x) ==> start.contains(x),
    ensures
        held_stolen_last(start, now, depressed),
{
    assert forall|h: u8, r: u8| start.contains(h) && !now.contains(h) && depressed.contains(h) && now.contains(r) implies depressed.contains(r) by {
        assert(mid.contains(r));
        if h == key {
            if has_released(mid, depressed, order) {
                let i = choose|i: int| is_first_released(mid, depressed, order, i) && order[i] == key;
                assert(!depressed.contains(key));
            } else {
                assert(order.contains(r));
                let j = choose|j: int| 0 <= j < order.len() && order[j] == r;
                assert(!(mid.contains(order[j]) && !depressed.contains(order[j])));
            }
        } else {
            assert(!mid.contains(h));
        }
    }
}

/// Two runs of reported ends, one after the other, report each key that
/// stopped sounding over both runs once.
proof fn lemma_ends_compose(a0: Seq<u8>, a1: Seq<u8>, a2: Seq<u8>, from: int, events1: Seq<EngineOutEvent>, events2: Seq<EngineOutEvent>)
    requires
        0 <= from <= events1.len() <= events2.len(),
        ends_each_once(a0, a1, from, events1),
        ends_each_once(a1, a2, events1.len() as int, events2),
        events2.subrange(0, events1.len() as int) == events1,
        forall|e: int| from <= e < events1.len() ==> !a1.contains(note_end_key(#[trigger] events1[e])),
        forall|e: int| events1.len() <= e < events2.len() ==> a1.contains(note_end_key(#[trigger] events2[e])),
        forall|x: u8| #[trigger] a1.contains(x) ==> a0.contains(x),
    ensures
        ends_each_once(a0, a2, from, events2),
{
    let n1 = events1.len() as int;
    assert forall|e: int| 0 <= e < n1 implies events2[e] == events1[e] by {
        assert(events2.subrange(0, n1)[e] == events1[e]);
    }
    assert forall|x: u8| a0.contains(x) && !a2.contains(x) implies exists|e: int| from <= e < events2.len() && note_end_key(#[trigger] events2[e]) == x by {
        if a1.contains(x) {
            let e = choose|e: int| n1 <= e < events2.len() && note_end_key(#[trigger] events2[e]) == x;
        } else {
            let e = choose|e: int| from <= e < events1.len() && note_end_key(#[trigger] events1[e]) == x;
            assert(events2[e] == events1[e]);
        }
    }
    assert forall|e1: int, e2: int| from <= e1 < events2.len() && from <= e2 < events2.len() && e1 != e2 implies note_end_key(#[trigger] events2[e1]) != note_end_key(#[trigger] events2[e2]) by {
        if e1 < n1 {
            assert(events2[e1] == events1[e1]);
        }
        if e2 < n1 {
            assert(events2[e2] == events1[e2]);
        }
        if e1 < n1 && e2 >= n1 {
            assert(!a1.contains(note_end_key(events1[e1])));
        }
        if e2 < n1 && e1 >= n1 {
            assert(!a1.contains(note_end_key(events1[e2])));
        }
    }
}

/// The polyphony limit holds across key presses: with a limit of at least one
/// voice and a ranking that lists every sounding key, a pool within its limit
/// is still within it after any new key.
pub proof fn lemma_note_on_respects_limit(
    active: Seq<u8>,
    depressed: Seq<u8>,
    order: Seq<u8>,
    max: usize,
    key: u8,
    stolen: Option<u8>,
    after: Seq<u8>,
)
    requires
        max >= 1,
        active.no_duplicates(),
        active.len() <= max,
        ranks_all(active, order),
        active.len() >= max && !active.contains(key) ==> steal_choice_ok(active, depressed, order, stolen),
        !(active.len() >= max && !active.contains(key)) ==> stolen is None,
        after.len() == active.len() + (if active.contains(key) { 0int } else { 1int }) - (if stolen is Some {
            1int
        } else {
            0int
        }),
    ensures
        after.len() <= max,
{
    if active.len() >= max && !active.contains(key) {
        let k = active[0];
        assert(active.contains(k));
        assert(order.contains(k));
        let j = choose|j: int| 0 <= j < order.len() && order[j] == k;
        assert(has_sounding(active, order));
    }
}

/// A held key's voice is never stolen while a released key could give up its
/// voice.
pub proof fn lemma_steal_spares_held_keys(active: Seq<u8>, depressed: Seq<u8>, order: Seq<u8>, k: u8)
    requires
        has_released(active, depressed, order),
        steal_choice_ok(active, depressed, order, Some(k)),
    ensures
        !depressed.contains(k),
        active.contains(k),
{
}

} // verus!
