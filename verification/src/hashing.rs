//! A deterministic hash over keystroke sequences.
//!
//! The machine never stores a PIN: a swipe hands it the hash of the PIN to
//! expect, and the PIN check compares that value against the hash of the
//! keys typed. Any deterministic map from key sequences to a fixed-width
//! integer serves; this one folds each key's code into a base-six
//! accumulator reduced modulo a fixed bound, so short distinct sequences
//! hash to distinct values.

use vstd::prelude::*;

verus! {

use crate::machine::Key;

/// The hash accumulator stays below this bound.
pub const HASH_BOUND: u64 = 0x1_0000_0000;

/// Code a key contributes to the hash; each key has a distinct nonzero code.
pub open spec fn key_code(k: Key) -> u64 {
    match k {
        Key::One => 1,
        Key::Two => 2,
        Key::Three => 3,
        Key::Four => 4,
        Key::Enter => 5,
    }
}

/// The hash of a keystroke sequence: a left fold of the key codes in base
/// six, reduced modulo `HASH_BOUND` at every step.
pub open spec fn hash_spec(keys: Seq<Key>) -> u64
    decreases keys.len(),
{
    if keys.len() == 0 {
        0u64
    } else {
        ((hash_spec(keys.drop_last()) * 6 + key_code(keys.last())) % (HASH_BOUND as int)) as u64
    }
}

fn key_code_exec(k: Key) -> (c: u64)
    ensures
        c == key_code(k),
{
    match k {
        Key::One => 1,
        Key::Two => 2,
        Key::Three => 3,
        Key::Four => 4,
        Key::Enter => 5,
    }
}

/// Hash of the keys pressed, exactly `hash_spec` of the sequence.
pub fn hash(keys: &Vec<Key>) -> (h: u64)
    ensures
        h == hash_spec(keys@),
{
    let mut h: u64 = 0;
    let mut i: usize = 0;
    while i < keys.len()
        invariant
            i <= keys.len(),
            h == hash_spec(keys@.take(i as int)),
            h < HASH_BOUND,
        decreases keys.len() - i,
    {
        let c = key_code_exec(keys[i]);
        proof {
            assert(keys@.take(i as int + 1).drop_last() =~= keys@.take(i as int));
            assert(keys@.take(i as int + 1).last() == keys@[i as int]);
        }
        h = (h * 6 + c) % HASH_BOUND;
        i = i + 1;
    }
    proof {
        assert(keys@.take(keys@.len() as int) =~= keys@);
    }
    h
}

} // verus!
