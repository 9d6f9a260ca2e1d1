use vstd::prelude::*;

use crate::Direction;

verus! {

/// A keyboard key, as far as steering cares about it.
#[derive(Clone, Copy, Debug, PartialEq, Eq, Structural)]
pub enum Key {
    W,
    A,
    S,
    D,
    Up,
    Down,
    Left,
    Right,
    Escape,
    Other,
}

/// The direction a key steers towards, if it steers at all.
pub open spec fn key_direction(k: Key) -> Option<Direction> {
    match k {
        Key::W | Key::Up => Some(Direction::Up),
        Key::S | Key::Down => Some(Direction::Down),
        Key::A | Key::Left => Some(Direction::Left),
        Key::D | Key::Right => Some(Direction::Right),
        _ => None,
    }
}

/// `s` with every occurrence of `k` taken out, the order of the rest kept.
pub open spec fn without(s: Seq<Key>, k: Key) -> Seq<Key>
    decreases s.len(),
{
    if s.len() == 0 {
        s
    } else {
        let rest = without(s.drop_last(), k);
        if s.last() == k {
            rest
        } else {
            rest.push(s.last())
        }
    }
}

/// The direction chosen by a sequence of keys processed in order: the
/// last key that steers wins, and no steering key means no direction.
pub open spec fn held_direction(s: Seq<Key>) -> Option<Direction>
    decreases s.len(),
{
    if s.len() == 0 {
        None
    } else {
        match key_direction(s.last()) {
            Some(d) => Some(d),
            None => held_direction(s.drop_last()),
        }
    }
}

/// The unit step of an optional direction; no direction gives no step.
pub open spec fn step_of(d: Option<Direction>) -> (int, int) {
    match d {
        Some(d) => d.unit(),
        None => (0, 0),
    }
}

proof fn lemma_without(s: Seq<Key>, k: Key)
    ensures
        forall|x: Key| #[trigger] without(s, k).contains(x) <==> (s.contains(x) && x != k),
        s.no_duplicates() ==> without(s, k).no_duplicates(),
    decreases s.len(),
{
    if s.len() > 0 {
        let init = s.drop_last();
        lemma_without(init, k);
        assert(s =~= init.push(s.last()));
        assert forall|x: Key| #[trigger] s.contains(x) <==> (init.contains(x) || x == s.last()) by {
            if s.contains(x) {
                let i = choose|i: int| 0 <= i < s.len() && s[i] == x;
                if i < s.len() - 1 {
                    assert(init[i] == x);
                }
            }
            if init.contains(x) {
                let i = choose|i: int| 0 <= i < init.len() && init[i] == x;
                assert(s[i] == x);
            }
            if x == s.last() {
                assert(s[s.len() - 1] == x);
            }
        }
        let rest = without(init, k);
        if s.last() != k {
            assert forall|x: Key| #[trigger] rest.push(s.last()).contains(x) <==> (rest.contains(x)
                || x == s.last()) by {
                if rest.push(s.last()).contains(x) {
                    let i = choose|i: int|
                        0 <= i < rest.len() + 1 && #[trigger] rest.push(s.last())[i] == x;
                    if i < rest.len() {
                        assert(rest[i] == x);
                    }
                }
                if rest.contains(x) {
                    let i = choose|i: int| 0 <= i < rest.len() && rest[i] == x;
                    assert(rest.push(s.last())[i] == x);
                }
                if x == s.last() {
                    assert(rest.push(s.last())[rest.len() as int] == x);
                }
            }
            if s.no_duplicates() {
                assert(init.no_duplicates());
                assert(!init.contains(s.last()));
                assert(!rest.contains(s.last()));
                assert(rest.push(s.last()).no_duplicates());
            }
        } else {
            if s.no_duplicates() {
                assert(init.no_duplicates());
            }
        }
    }
}

/// The keys held down at the moment, each once, oldest press first.
/// Only keys that steer are kept.
pub struct PressedKeys {
    keys: Vec<Key>,
}

impl View for PressedKeys {
    type V = Seq<Key>;

    closed spec fn view(&self) -> Seq<Key> {
        self.keys@
    }
}

impl PressedKeys {
    /// Each key at most once, and every key steers.
    pub open spec fn wf(&self) -> bool {
        &&& self@.no_duplicates()
        &&& forall|i: int| 0 <= i < self@.len() ==> key_direction(#[trigger] self@[i]) is Some
    }

    /// No key held.
    pub fn new() -> (r: PressedKeys)
        ensures
            r.wf(),
            r@ == Seq::<Key>::empty(),
    {
        PressedKeys { keys: Vec::new() }
    }

    /// Whether `key` is held.
    pub fn contains(&self, key: Key) -> (r: bool)
        ensures
            r == self@.contains(key),
    {
        let mut i: usize = 0;
        while i < self.keys.len()
            invariant
                i <= self.keys@.len(),
                forall|j: int| 0 <= j < i ==> self.keys@[j] != key,
            decreases self.keys@.len() - i,
        {
            if self.keys[i] == key {
                return true;
            }
            i = i + 1;
        }
        false
    }

    /// Records that `key` went down. A key that does not steer, or that is
    /// already held, leaves the set as it was; another is added last.
    pub fn press(&mut self, key: Key)
        requires
            old(self).wf(),
        ensures
            final(self).wf(),
            final(self)@ == if key_direction(key) is None || old(self)@.contains(key) {
                old(self)@
            } else {
                old(self)@.push(key)
            },
    {
        if Direction::from_virtual_keycode(&key).is_some() && !self.contains(key) {
            self.keys.push(key);
            proof {
                let s = old(self)@;
                assert forall|i: int, j: int|
                    0 <= i < j < self@.len() implies self@[i] != self@[j] by {
                    if j == s.len() {
                        assert(s[i] == self@[i]);
                    }
                }
                assert forall|i: int| 0 <= i < self@.len() implies key_direction(
                    #[trigger] self@[i],
                ) is Some by {
                    if i < s.len() {
                        assert(s[i] == self@[i]);
                    }
                }
            }
        }
    }

    /// Records that `key` went up: it is no longer held, and the others keep
    /// their order.
    pub fn release(&mut self, key: Key)
        requires
            old(self).wf(),
        ensures
            final(self).wf(),
            final(self)@ == without(old(self)@, key),
    {
        let mut kept: Vec<Key> = Vec::new();
        let mut i: usize = 0;
        while i < self.keys.len()
            invariant
                i <= self.keys@.len(),
                kept@ == without(self.keys@.subrange(0, i as int), key),
            decreases self.keys@.len() - i,
        {
            let k = self.keys[i];
            assert(self.keys@.subrange(0, i + 1).drop_last() =~= self.keys@.subrange(0, i as int));
            if k != key {
                kept.push(k);
            }
            i = i + 1;
        }
        assert(self.keys@.subrange(0, i as int) =~= self.keys@);
        proof {
            lemma_without(old(self)@, key);
            let w = without(old(self)@, key);
            assert forall|j: int| 0 <= j < w.len() implies key_direction(#[trigger] w[j]) is Some by {
                assert(w.contains(w[j]));
                let m = choose|m: int| 0 <= m < old(self)@.len() && old(self)@[m] == w[j];
            }
        }
        self.keys = kept;
    }
}

/// Turns the held keys into a direction of travel, once per tick.
pub struct InputController {
    pub direction: Option<Direction>,
}

impl InputController {
    /// A controller that is not moving.
    pub fn new() -> (r: InputController)
        ensures
            r.direction is None,
    {
        InputController { direction: None }
    }

    /// Takes the direction of the held keys, processed oldest first: the
    /// last one that steers wins, and with none held there is no direction.
    pub fn set_direction(&mut self, keys: &PressedKeys)
        ensures
            final(self).direction == held_direction(keys@),
    {
        let mut dir: Option<Direction> = None;
        let mut i: usize = 0;
        while i < keys.keys.len()
            invariant
                i <= keys@.len(),
                dir == held_direction(keys@.subrange(0, i as int)),
            decreases keys@.len() - i,
        {
            let k = keys.keys[i];
            assert(keys@.subrange(0, i + 1).drop_last() =~= keys@.subrange(0, i as int));
            match Direction::from_virtual_keycode(&k) {
                Some(d) => {
                    dir = Some(d);
                },
                None => {},
            }
            i = i + 1;
        }
        assert(keys@.subrange(0, i as int) =~= keys@);
        self.direction = dir;
    }

    /// The unit step to travel this tick: zero when there is no direction.
    /// The caller scales it by speed and elapsed time.
    pub fn step(&self) -> (r: (i32, i32))
        ensures
            (r.0 as int, r.1 as int) == step_of(self.direction),
    {
        match self.direction {
            Some(d) => d.to_vec2(),
            None => (0, 0),
        }
    }
}

} // verus!
