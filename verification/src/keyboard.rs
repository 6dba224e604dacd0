//! The sixteen-key hex keypad: a passive record of which keys are down.

use vstd::prelude::*;

use crate::errors::KeyboardError;

verus! {

/// Number of keys.
pub const NUM_KEYS: usize = 16;

/// State of a key that is down.
pub const KEY_PRESSED: bool = true;

/// State of a key that is up.
pub const KEY_NOT_PRESSED: bool = false;

/// The keypad. Key `k` is the hex digit `k`.
#[derive(Debug)]
pub struct Keypad {
    /// Which keys are down.
    pub keys: [bool; 16],
}

/// The keypad under its other name.
pub type Keyboard = Keypad;

impl View for Keypad {
    type V = Seq<bool>;

    open spec fn view(&self) -> Seq<bool> {
        self.keys@
    }
}

/// A keypad with every key up.
pub open spec fn no_keys() -> Seq<bool> {
    Seq::new(16, |k: int| false)
}

/// Key `k` is down and no key with a lower code is.
pub open spec fn is_first_down(keys: Seq<bool>, k: int) -> bool {
    &&& 0 <= k < keys.len()
    &&& keys[k]
    &&& forall|j: int| 0 <= j < k ==> !keys[j]
}

/// The lowest code of a key that is down, if any is.
pub open spec fn first_down(keys: Seq<bool>) -> Option<int> {
    if exists|k: int| is_first_down(keys, k) {
        Some(choose|k: int| is_first_down(keys, k))
    } else {
        None
    }
}

/// `first_down` is the one key that is down with none below it, and there is
/// none exactly when every key is up.
pub proof fn lemma_first_down(keys: Seq<bool>)
    ensures
        first_down(keys) matches Some(k) ==> is_first_down(keys, k),
        first_down(keys) is None ==> forall|j: int| 0 <= j < keys.len() ==> !keys[j],
        forall|k: int| is_first_down(keys, k) ==> first_down(keys) == Some(k),
{
    if exists|k: int| is_first_down(keys, k) {
        let c = choose|k: int| is_first_down(keys, k);
        assert forall|k: int| is_first_down(keys, k) implies k == c by {
            if k < c {
                assert(!keys[k]);
            } else if c < k {
                assert(!keys[c]);
            }
        }
    } else {
        assert forall|j: int| 0 <= j < keys.len() implies !keys[j] by {
            if keys[j] {
                lemma_some_key_is_first(keys, j);
            }
        }
    }
}

/// If a key is down, some key is the lowest one that is.
proof fn lemma_some_key_is_first(keys: Seq<bool>, j: int)
    requires
        0 <= j < keys.len(),
        keys[j],
    ensures
        exists|k: int| is_first_down(keys, k),
    decreases j,
{
    if exists|i: int| 0 <= i < j && keys[i] {
        let i = choose|i: int| 0 <= i < j && keys[i];
        lemma_some_key_is_first(keys, i);
    } else {
        assert(is_first_down(keys, j));
    }
}

impl Default for Keypad {
    /// A keypad with every key up.
    fn default() -> (r: Keypad)
        ensures
            r@ == no_keys(),
    {
        let r = Keypad { keys: [KEY_NOT_PRESSED; 16] };
        assert(r@ =~= no_keys());
        r
    }
}

impl Keypad {
    /// A keypad with every key up.
    pub fn new() -> (r: Keypad)
        ensures
            r@ == no_keys(),
    {
        Keypad { ..Default::default() }
    }

    /// Releases every key.
    pub fn reset(&mut self)
        ensures
            final(self)@ == no_keys(),
    {
        *self = Keypad::new();
    }

    /// Takes over the key states that the poller read from the host.
    pub fn update(&mut self, keys: &[bool; 16])
        ensures
            final(self)@ == keys@,
    {
        self.keys = *keys;
    }

    /// Whether key `key` is down.
    pub fn is_key_down(&self, key: usize) -> (r: bool)
        requires
            key < 16,
        ensures
            r == self@[key as int],
    {
        self.keys[key]
    }

    /// Whether key `key` is down; a code that is no hex digit is an error.
    pub fn get_key(&self, key: usize) -> (r: Result<bool, KeyboardError>)
        ensures
            key < 16 ==> r == Ok::<bool, KeyboardError>(self@[key as int]),
            key >= 16 ==> r == Err::<bool, KeyboardError>(KeyboardError::UnknownKey(key)),
    {
        if key >= NUM_KEYS {
            return Err(KeyboardError::UnknownKey(key));
        }
        Ok(self.keys[key])
    }

    /// The lowest code of a key that is down, or `None` when every key is up.
    pub fn get_key_pressed(&self) -> (r: Option<usize>)
        ensures
            match r {
                Some(k) => first_down(self@) == Some(k as int),
                None => first_down(self@) is None,
            },
    {
        let mut k: usize = 0;
        while k < NUM_KEYS
            invariant
                k <= 16,
                forall|j: int| 0 <= j < k ==> !self@[j],
            decreases 16 - k,
        {
            if self.keys[k] {
                proof {
                    assert(is_first_down(self@, k as int));
                    lemma_first_down(self@);
                }
                return Some(k);
            }
            k += 1;
        }
        proof {
            lemma_first_down(self@);
        }
        None
    }
}

} // verus!
