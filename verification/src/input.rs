//! The hotkey's decision logic. Reading `/dev/input/event*` is the
//! application's (via evdev, never grabbing the device, so the comms app still
//! sees the same key); it feeds every key event (code, value: 1 press,
//! 2 autorepeat, 0 release) to one of the two machines here:
//!
//! - [`ChordTracker`] turns key events into edges of the chord state, which is
//!   active only while *every* key of the chord is held;
//! - [`ComboCapture`] learns a new chord: the largest set of keys held at once,
//!   reported when all of them have been released.

use vstd::prelude::*;

verus! {

/// The index of the first occurrence of `code` in `keys`.
pub open spec fn position(keys: Seq<u16>, code: u16) -> Option<nat>
    decreases keys.len(),
{
    if keys.len() == 0 {
        None
    } else if keys[0] == code {
        Some(0)
    } else {
        match position(keys.drop_first(), code) {
            Some(i) => Some(i + 1),
            None => None,
        }
    }
}

proof fn lemma_position(keys: Seq<u16>, code: u16)
    ensures
        position(keys, code) matches Some(i) ==> i < keys.len() && keys[i as int] == code && (
        forall|j: int| 0 <= j < i ==> keys[j] != code),
        position(keys, code) is None ==> forall|j: int| 0 <= j < keys.len() ==> keys[j] != code,
    decreases keys.len(),
{
    if keys.len() > 0 && keys[0] != code {
        lemma_position(keys.drop_first(), code);
        assert forall|j: int| 0 < j < keys.len() implies keys[j] == keys.drop_first()[j - 1] by {}
    }
}

/// Which keys of a chord are held: one slot (keycode, held) per key.
pub struct ChordTracker {
    slots: Vec<(u16, bool)>,
}

pub struct ChordView {
    pub keys: Seq<u16>,
    pub down: Seq<bool>,
}

impl View for ChordTracker {
    type V = ChordView;

    closed spec fn view(&self) -> ChordView {
        ChordView {
            keys: self.slots@.map_values(|s: (u16, bool)| s.0),
            down: self.slots@.map_values(|s: (u16, bool)| s.1),
        }
    }
}

/// The chord is active: it has keys, and every one of them is held.
pub open spec fn chord_held(v: ChordView) -> bool {
    v.keys.len() > 0 && forall|i: int| 0 <= i < v.down.len() ==> v.down[i]
}

/// The key event (`code`, `value`): a bound key is marked held for a press or
/// an autorepeat (`value != 0`) and released for `0`; other keys change nothing.
/// Where a code is bound twice, its first slot is the one that moves.
pub open spec fn key_event(v: ChordView, code: u16, value: i32) -> ChordView {
    match position(v.keys, code) {
        Some(i) => ChordView { down: v.down.update(i as int, value != 0), ..v },
        None => v,
    }
}

impl ChordTracker {
    /// The chord `keys`, none of them held.
    pub fn new(keys: Vec<u16>) -> (r: ChordTracker)
        ensures
            r@.keys == keys@,
            r@.down.len() == keys@.len(),
            forall|i: int| 0 <= i < keys@.len() ==> !r@.down[i],
            !chord_held(r@) || keys@.len() == 0,
    {
        let mut slots: Vec<(u16, bool)> = Vec::new();
        let mut i: usize = 0;
        while i < keys.len()
            invariant
                i <= keys.len(),
                slots@.len() == i,
                forall|j: int| 0 <= j < i ==> slots@[j] == (keys@[j], false),
            decreases keys.len() - i,
        {
            slots.push((keys[i], false));
            i = i + 1;
        }
        let r = ChordTracker { slots };
        assert(r@.keys =~= keys@);
        proof {
            if keys@.len() > 0 {
                assert(!r@.down[0]);
            }
        }
        r
    }

    /// Whether the chord is active.
    pub fn is_active(&self) -> (r: bool)
        ensures
            r == chord_held(self@),
    {
        if self.slots.len() == 0 {
            return false;
        }
        let mut i: usize = 0;
        while i < self.slots.len()
            invariant
                i <= self.slots.len(),
                forall|j: int| 0 <= j < i ==> self@.down[j],
            decreases self.slots.len() - i,
        {
            if !self.slots[i].1 {
                assert(!self@.down[i as int]);
                return false;
            }
            i = i + 1;
        }
        true
    }

    /// Applies one key event. Returns the new chord state when it changed (an
    /// edge to act on), `None` when it did not.
    pub fn on_key(&mut self, code: u16, value: i32) -> (edge: Option<bool>)
        ensures
            final(self)@ == key_event(old(self)@, code, value),
            edge == (if chord_held(final(self)@) != chord_held(old(self)@) {
                Some(chord_held(final(self)@))
            } else {
                None
            }),
    {
        proof {
            lemma_position(self@.keys, code);
        }
        let before = self.is_active();
        let mut i: usize = 0;
        while i < self.slots.len() && self.slots[i].0 != code
            invariant
                i <= self.slots.len(),
                forall|j: int| 0 <= j < i ==> self@.keys[j] != code,
            decreases self.slots.len() - i,
        {
            i = i + 1;
        }
        if i == self.slots.len() {
            return None;
        }
        assert(self@.keys[i as int] == code);
        proof {
            let p = position(self@.keys, code);
            if let Some(q) = p {
                if (q as int) < (i as int) {
                    assert(self@.keys[q as int] == code);
                }
                if (i as int) < (q as int) {
                    assert(self@.keys[i as int] != code);
                }
            }
            assert(p == Some(i as nat));
        }
        let ghost prev = self@;
        self.slots.set(i, (code, value != 0));
        assert(self@.keys =~= prev.keys);
        assert(self@.down =~= prev.down.update(i as int, value != 0));
        let after = self.is_active();
        if after != before {
            Some(after)
        } else {
            None
        }
    }
}

/// Releasing any key of the chord ends it.
pub proof fn law_release_ends_chord(v: ChordView, code: u16)
    requires
        position(v.keys, code) is Some,
        v.down.len() == v.keys.len(),
    ensures
        !chord_held(key_event(v, code, 0)),
{
    lemma_position(v.keys, code);
    let i = position(v.keys, code)->0;
    assert(!key_event(v, code, 0).down[i as int]);
}

/// A key outside the chord changes nothing, so it never makes an edge.
pub proof fn law_other_keys_ignored(v: ChordView, code: u16, value: i32)
    requires
        position(v.keys, code) is None,
    ensures
        key_event(v, code, value) == v,
{
}

/// Pressing the last unheld key of the chord activates it.
pub proof fn law_last_press_completes_chord(v: ChordView, code: u16, value: i32)
    requires
        value != 0,
        v.down.len() == v.keys.len(),
        position(v.keys, code) matches Some(i) && forall|j: int|
            0 <= j < v.down.len() && j != i ==> v.down[j],
    ensures
        chord_held(key_event(v, code, value)),
{
    lemma_position(v.keys, code);
}

/// Strictly increasing: the order in which a `BTreeSet` yields its keys.
pub open spec fn ascending(s: Seq<u16>) -> bool {
    forall|i: int, j: int| 0 <= i < j < s.len() ==> s[i] < s[j]
}

/// Learning a chord: the keys held now, and the largest set held at once so
/// far (the high-water mark), each in ascending order.
pub struct ComboCapture {
    held: Vec<u16>,
    high: Vec<u16>,
}

pub struct ComboView {
    pub held: Seq<u16>,
    pub high: Seq<u16>,
}

impl View for ComboCapture {
    type V = ComboView;

    closed spec fn view(&self) -> ComboView {
        ComboView { held: self.held@, high: self.high@ }
    }
}

impl ComboCapture {
    #[verifier::type_invariant]
    spec fn well_ordered(self) -> bool {
        &&& ascending(self.held@)
        &&& ascending(self.high@)
        &&& self.held@.len() <= self.high@.len()
    }

    /// Nothing held yet.
    pub fn new() -> (r: ComboCapture)
        ensures
            r@.held.len() == 0,
            r@.high.len() == 0,
    {
        ComboCapture { held: Vec::new(), high: Vec::new() }
    }

    /// Applies one key event. A press (or autorepeat) adds the key to the held
    /// set, and the held set becomes the high-water mark when it is larger
    /// than it; a release removes it. Once a release leaves nothing held and
    /// some chord was held, the capture is done: the chord, in ascending order.
    pub fn on_key(&mut self, code: u16, value: i32) -> (done: Option<Vec<u16>>)
        ensures
            ascending(final(self)@.held),
            ascending(final(self)@.high),
            final(self)@.held.len() <= final(self)@.high.len(),
            value != 0 ==> final(self)@.held.to_set() == old(self)@.held.to_set().insert(code),
            value == 0 ==> final(self)@.held.to_set() == old(self)@.held.to_set().remove(code),
            value != 0 ==> final(self)@.high == (if final(self)@.held.len() > old(
                self,
            )@.high.len() {
                final(self)@.held
            } else {
                old(self)@.high
            }),
            value == 0 ==> final(self)@.high == old(self)@.high,
            done matches Some(c) ==> value == 0 && final(self)@.held.len() == 0 && c@ == old(
                self,
            )@.high && c@.len() > 0 && ascending(c@),
            done is None ==> !(value == 0 && final(self)@.held.len() == 0 && old(
                self,
            )@.high.len() > 0),
    {
        proof {
            use_type_invariant(&*self);
        }
        let n = self.held.len();
        let mut k: usize = 0;
        while k < n && self.held[k] < code
            invariant
                k <= n,
                n == self.held@.len(),
                forall|j: int| 0 <= j < k ==> self.held@[j] < code,
            decreases n - k,
        {
            k = k + 1;
        }
        let present = k < n && self.held[k] == code;
        proof {
            assert forall|j: int| k <= j < n implies self.held@[j] >= code by {
                if j > k {
                    assert(self.held@[k as int] < self.held@[j]);
                }
            }
        }
        if value != 0 {
            if !present {
                let ghost old_held = self.held@;
                let mut h: Vec<u16> = Vec::new();
                std::mem::swap(&mut h, &mut self.held);
                h.insert(k, code);
                proof {
                    assert(h@ == old_held.insert(k as int, code));
                    assert forall|a: int, b: int| 0 <= a < b < h@.len() implies h@[a] < h@[b] by {
                        if b < k {
                        } else if b == k {
                        } else if a < k {
                            assert(h@[b] == old_held[b - 1]);
                        } else if a == k {
                            assert(h@[b] == old_held[b - 1]);
                            assert(old_held[k as int] >= code);
                            if b - 1 > k {
                                assert(old_held[k as int] < old_held[b - 1]);
                            }
                            assert(old_held[b - 1] != code);
                        } else {
                            assert(h@[a] == old_held[a - 1]);
                            assert(h@[b] == old_held[b - 1]);
                        }
                    }
                    assert forall|x: u16| h@.contains(x) <==> old_held.contains(x) || x == code by {
                        if h@.contains(x) {
                            let m = choose|m: int| 0 <= m < h@.len() && h@[m] == x;
                            if m < k {
                                assert(old_held[m] == x);
                            } else if m > k {
                                assert(old_held[m - 1] == x);
                            }
                        }
                        if old_held.contains(x) {
                            let m = choose|m: int| 0 <= m < old_held.len() && old_held[m] == x;
                            if m < k {
                                assert(h@[m] == x);
                            } else {
                                assert(h@[m + 1] == x);
                            }
                        }
                        if x == code {
                            assert(h@[k as int] == x);
                        }
                    }
                    assert forall|x: u16| #[trigger] h@.to_set().contains(x) == old_held.to_set().insert(
                        code,
                    ).contains(x) by {
                        assert(h@.to_set().contains(x) == h@.contains(x));
                        assert(old_held.to_set().contains(x) == old_held.contains(x));
                        assert(h@.contains(x) <==> old_held.contains(x) || x == code);
                    }
                    assert(h@.to_set() =~= old_held.to_set().insert(code));
                }
                if h.len() > self.high.len() {
                    let copy = h.clone();
                    proof {
                        assert(copy@ =~= h@);
                    }
                    self.high = copy;
                    self.held = h;
                } else {
                    self.held = h;
                }
            } else {
                proof {
                    assert(self.held@.to_set() =~= self.held@.to_set().insert(code));
                }
            }
            None
        } else {
            if present {
                let ghost old_held = self.held@;
                let mut h: Vec<u16> = Vec::new();
                std::mem::swap(&mut h, &mut self.held);
                h.remove(k);
                proof {
                    assert(h@ == old_held.remove(k as int));
                    assert forall|a: int, b: int| 0 <= a < b < h@.len() implies h@[a] < h@[b] by {
                        if a < k && b >= k {
                            assert(h@[b] == old_held[b + 1]);
                        } else if a >= k {
                            assert(h@[a] == old_held[a + 1]);
                            assert(h@[b] == old_held[b + 1]);
                        }
                    }
                    assert forall|x: u16| h@.contains(x) <==> old_held.contains(x) && x != code by {
                        if h@.contains(x) {
                            let m = choose|m: int| 0 <= m < h@.len() && h@[m] == x;
                            if m < k {
                                assert(old_held[m] == x);
                                assert(old_held[m] < old_held[k as int]);
                            } else {
                                assert(old_held[m + 1] == x);
                                assert(old_held[k as int] < old_held[m + 1]);
                            }
                        }
                        if old_held.contains(x) && x != code {
                            let m = choose|m: int| 0 <= m < old_held.len() && old_held[m] == x;
                            if m < k {
                                assert(h@[m] == x);
                            } else {
                                assert(m != k);
                                assert(h@[m - 1] == x);
                            }
                        }
                    }
                    assert(h@.to_set() =~= old_held.to_set().remove(code));
                }
                self.held = h;
            } else {
                proof {
                    assert forall|x: u16| self.held@.contains(x) implies x != code by {
                        let m = choose|m: int| 0 <= m < self.held@.len() && self.held@[m] == x;
                        if m >= k {
                            if m == k {
                            } else {
                                assert(self.held@[k as int] < self.held@[m]);
                            }
                        }
                    }
                    assert(self.held@.to_set() =~= self.held@.to_set().remove(code));
                }
            }
            if self.held.len() == 0 && self.high.len() > 0 {
                let c = self.high.clone();
                proof {
                    assert(c@ =~= self.high@);
                }
                Some(c)
            } else {
                None
            }
        }
    }
}

} // verus!
