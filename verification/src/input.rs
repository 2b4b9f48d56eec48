//! Keyboard input state.
//!
//! The application tracks which physical keys are currently held down and
//! derives from them the direction the camera is asked to move in. The
//! held-key set is a duplicate-free vector viewed as a mathematical set; the
//! movement intent is a triple of integer coefficients on the camera's basis
//! vectors (forward, right, up), so that opposed keys cancel exactly.

use vstd::prelude::*;

verus! {

/// A physical key as the windowing host names it. Only the movement keys and
/// `Escape` mean something to the harness; any other recognized key is kept
/// in the held-key set under its host-assigned code and never read again.
#[derive(Clone, Copy, Debug, PartialEq, Eq, Structural)]
pub enum Key {
    /// Move along the camera's forward vector.
    KeyW,
    /// Strafe against the camera's right vector.
    KeyA,
    /// Move against the camera's forward vector.
    KeyS,
    /// Strafe along the camera's right vector.
    KeyD,
    /// Move along the world up vector.
    Space,
    /// Move against the world up vector.
    ShiftLeft,
    /// Release pointer capture.
    Escape,
    /// Any other key the host recognized, under its host-assigned code.
    Other(u32),
}

/// The set of keys currently held down, mutated on press and release events.
#[derive(Debug)]
pub struct KeysDown {
    /// The held keys; no key occurs twice.
    pub held: Vec<Key>,
}

impl View for KeysDown {
    type V = Set<Key>;

    open spec fn view(&self) -> Set<Key> {
        Set::new(|k: Key| self.held@.contains(k))
    }
}

proof fn lemma_push_contains(s: Seq<Key>, x: Key, k: Key)
    ensures
        s.push(x).contains(k) <==> (s.contains(k) || k == x),
{
    if s.push(x).contains(k) {
        let i = choose|i: int| 0 <= i < s.push(x).len() && s.push(x)[i] == k;
        if i < s.len() {
            assert(s[i] == k);
        }
    }
    if s.contains(k) {
        let i = choose|i: int| 0 <= i < s.len() && s[i] == k;
        assert(s.push(x)[i] == k);
    }
    if k == x {
        assert(s.push(x)[s.len() as int] == k);
    }
}

proof fn lemma_remove_at_contains(s: Seq<Key>, i: int, k: Key)
    requires
        0 <= i < s.len(),
    ensures
        s.remove(i).contains(k) <==> (exists|j: int| 0 <= j < s.len() && j != i && s[j] == k),
{
    if s.remove(i).contains(k) {
        let a = choose|a: int| 0 <= a < s.remove(i).len() && s.remove(i)[a] == k;
        if a < i {
            assert(s[a] == k);
        } else {
            assert(s[a + 1] == k);
        }
    }
    if exists|j: int| 0 <= j < s.len() && j != i && s[j] == k {
        let j = choose|j: int| 0 <= j < s.len() && j != i && s[j] == k;
        if j < i {
            assert(s.remove(i)[j] == k);
        } else {
            assert(s.remove(i)[j - 1] == k);
        }
    }
}

impl KeysDown {
    /// No key occurs twice in the backing vector.
    pub open spec fn wf(self) -> bool {
        forall|i: int, j: int|
            0 <= i < j < self.held@.len() ==> self.held@[i] != self.held@[j]
    }

    /// An empty held-key set.
    pub fn new() -> (r: KeysDown)
        ensures
            r.wf(),
            r@ == Set::<Key>::empty(),
    {
        let r = KeysDown { held: Vec::new() };
        proof {
            assert(r@ =~= Set::<Key>::empty());
        }
        r
    }

    /// Whether `key` is currently held.
    pub fn contains(&self, key: Key) -> (r: bool)
        ensures
            r == self@.contains(key),
    {
        let mut i: usize = 0;
        while i < self.held.len()
            invariant
                i <= self.held.len(),
                forall|j: int| 0 <= j < i ==> self.held@[j] != key,
            decreases self.held.len() - i,
        {
            if self.held[i] == key {
                assert(self.held@.contains(key));
                return true;
            }
            i += 1;
        }
        false
    }

    /// Records a key press. Pressing a key that is already held changes
    /// nothing.
    pub fn insert(&mut self, key: Key)
        requires
            old(self).wf(),
        ensures
            final(self).wf(),
            final(self)@ == old(self)@.insert(key),
    {
        if !self.contains(key) {
            self.held.push(key);
            proof {
                assert forall|k: Key| self@.contains(k) == old(self)@.insert(key).contains(k) by {
                    lemma_push_contains(old(self).held@, key, k);
                }
                assert(self@ =~= old(self)@.insert(key));
            }
        } else {
            proof {
                assert(self@ =~= old(self)@.insert(key));
            }
        }
    }

    /// Records a key release. Releasing a key that is not held changes
    /// nothing.
    pub fn remove(&mut self, key: Key)
        requires
            old(self).wf(),
        ensures
            final(self).wf(),
            final(self)@ == old(self)@.remove(key),
    {
        let mut i: usize = 0;
        while i < self.held.len()
            invariant
                i <= self.held.len(),
                forall|j: int| 0 <= j < i ==> self.held@[j] != key,
                self.wf(),
                self == old(self),
            decreases self.held.len() - i,
        {
            if self.held[i] == key {
                let ghost pre = self.held@;
                self.held.remove(i);
                proof {
                    assert forall|a: int, b: int|
                        0 <= a < b < self.held@.len() implies self.held@[a] != self.held@[b] by {
                        assert(self.held@[a] == (if a < i { pre[a] } else { pre[a + 1] }));
                        assert(self.held@[b] == (if b < i { pre[b] } else { pre[b + 1] }));
                    }
                    assert forall|k: Key| self@.contains(k) == old(self)@.remove(key).contains(k) by {
                        lemma_remove_at_contains(pre, i as int, k);
                        if k == key {
                            assert forall|j: int|
                                0 <= j < pre.len() && j != i implies pre[j] != key by {
                                if j < i {
                                    assert(pre[j] != pre[i as int]);
                                } else {
                                    assert(pre[i as int] != pre[j]);
                                }
                            }
                        }
                    }
                    assert(self@ =~= old(self)@.remove(key));
                }
                return;
            }
            i += 1;
        }
        proof {
            assert(!self.held@.contains(key));
            assert(self@ =~= old(self)@.remove(key));
        }
    }
}

/// The movement a set of held keys asks for, as integer coefficients on the
/// camera's forward, right and up basis vectors. Each coefficient lies in
/// `-1 ..= 1`: a key and its opposite cancel exactly. The numeric step —
/// normalizing the combined direction and scaling it by the speed constant
/// and the frame time — happens outside the library; the library decides
/// whether there is any movement at all.
#[derive(Clone, Copy, Debug, PartialEq, Eq, Structural)]
pub struct MoveIntent {
    /// Coefficient on the camera's forward vector (`W` minus `S`).
    pub forward: i8,
    /// Coefficient on the camera's right vector (`D` minus `A`).
    pub right: i8,
    /// Coefficient on the world up vector (`Space` minus `ShiftLeft`).
    pub up: i8,
}

/// One if the key is held, zero otherwise.
pub open spec fn key_weight(held: bool) -> int {
    if held {
        1
    } else {
        0
    }
}

/// The forward coefficient a key set asks for.
pub open spec fn intent_forward(keys: Set<Key>) -> int {
    key_weight(keys.contains(Key::KeyW)) - key_weight(keys.contains(Key::KeyS))
}

/// The right (strafe) coefficient a key set asks for.
pub open spec fn intent_right(keys: Set<Key>) -> int {
    key_weight(keys.contains(Key::KeyD)) - key_weight(keys.contains(Key::KeyA))
}

/// The up coefficient a key set asks for.
pub open spec fn intent_up(keys: Set<Key>) -> int {
    key_weight(keys.contains(Key::Space)) - key_weight(keys.contains(Key::ShiftLeft))
}

/// Whether a key set asks for no movement at all.
pub open spec fn intent_is_zero(keys: Set<Key>) -> bool {
    intent_forward(keys) == 0 && intent_right(keys) == 0 && intent_up(keys) == 0
}

impl MoveIntent {
    /// Whether this intent moves the camera at all.
    pub open spec fn is_zero(self) -> bool {
        self.forward == 0 && self.right == 0 && self.up == 0
    }

    /// Runtime test for [`MoveIntent::is_zero`].
    pub fn no_movement(&self) -> (r: bool)
        ensures
            r == self.is_zero(),
    {
        self.forward == 0 && self.right == 0 && self.up == 0
    }
}

/// Reads the movement intent off the held-key set: each movement key
/// contributes one unit along its basis vector, its opposite subtracts one.
pub fn move_intent(keys: &KeysDown) -> (m: MoveIntent)
    ensures
        m.forward as int == intent_forward(keys@),
        m.right as int == intent_right(keys@),
        m.up as int == intent_up(keys@),
        m.is_zero() == intent_is_zero(keys@),
{
    let fwd: i8 = if keys.contains(Key::KeyW) {
        1
    } else {
        0
    };
    let back: i8 = if keys.contains(Key::KeyS) {
        1
    } else {
        0
    };
    let right: i8 = if keys.contains(Key::KeyD) {
        1
    } else {
        0
    };
    let left: i8 = if keys.contains(Key::KeyA) {
        1
    } else {
        0
    };
    let up: i8 = if keys.contains(Key::Space) {
        1
    } else {
        0
    };
    let down: i8 = if keys.contains(Key::ShiftLeft) {
        1
    } else {
        0
    };
    MoveIntent { forward: fwd - back, right: right - left, up: up - down }
}

/// Opposed movement keys cancel: whenever each held movement key is held
/// together with its opposite, the intended direction is zero. In
/// particular, holding `W` and `S` at once asks for no movement.
pub proof fn lemma_opposed_keys_cancel(keys: Set<Key>)
    requires
        keys.contains(Key::KeyW) == keys.contains(Key::KeyS),
        keys.contains(Key::KeyD) == keys.contains(Key::KeyA),
        keys.contains(Key::Space) == keys.contains(Key::ShiftLeft),
    ensures
        intent_is_zero(keys),
{
}

/// The empty key set asks for no movement.
pub proof fn lemma_no_keys_no_intent(keys: Set<Key>)
    requires
        keys == Set::<Key>::empty(),
    ensures
        intent_is_zero(keys),
{
}

} // verus!
