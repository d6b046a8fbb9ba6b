//! Laws the transition function obeys, proved once for every state.

use vstd::prelude::*;

verus! {

use crate::hashing::hash_spec;
use crate::machine::next_state_spec;
use crate::machine::press_all;
use crate::machine::withdrawal_amount;
use crate::machine::fee_in_reserve;
use crate::machine::lemma_amount_nonneg;
use crate::machine::Action;
use crate::machine::AtmView;
use crate::machine::Auth;
use crate::machine::Key;

/// Idempotent rejection of a concurrent swipe: while a session is in
/// progress — mid-authentication or already authenticated — a second card
/// swipe leaves the state exactly as it was, whatever hash it carries.
pub proof fn lemma_swipe_mid_session_ignored(s: AtmView, pin_hash: u64)
    requires
        !(s.auth is Waiting),
    ensures
        next_state_spec(s, Action::SwipeCard(pin_hash)) == s,
{
}

/// Cash conservation: a transition leaves the reserve unchanged, debits
/// exactly the one-unit fee of a successful PIN check, or debits exactly a
/// withdrawal amount already validated against the reserve. It never
/// increases the reserve, and — the reserve being unsigned — never drives
/// it negative.
pub proof fn lemma_cash_conservation(s: AtmView, t: Action)
    requires
        fee_in_reserve(s, t),
    ensures
        next_state_spec(s, t).cash_inside <= s.cash_inside,
        next_state_spec(s, t).cash_inside == s.cash_inside || (t matches Action::PressKey(
            Key::Enter,
        ) && s.auth matches Auth::Authenticating(expected) && hash_spec(s.register) == expected
            && next_state_spec(s, t).cash_inside == s.cash_inside - 1) || (t matches
        Action::PressKey(Key::Enter) && s.auth is Authenticated && withdrawal_amount(s.register)
            <= s.cash_inside && next_state_spec(s, t).cash_inside == s.cash_inside
            - withdrawal_amount(s.register)),
{
    lemma_amount_nonneg(s.register);
}

/// Register monotonicity, the accumulating half: a run of digit presses
/// inside a session appends those digits to the register in press order,
/// and touches neither the authentication state nor the reserve.
pub proof fn lemma_register_monotonic(s: AtmView, presses: Seq<Key>)
    requires
        !(s.auth is Waiting),
        forall|i: int| 0 <= i < presses.len() ==> !(#[trigger] presses[i] is Enter),
    ensures
        press_all(s, presses).register == s.register + presses,
        press_all(s, presses).auth == s.auth,
        press_all(s, presses).cash_inside == s.cash_inside,
    decreases presses.len(),
{
    if presses.len() == 0 {
        assert(s.register + presses =~= s.register);
    } else {
        lemma_register_monotonic(s, presses.drop_last());
        assert((s.register + presses.drop_last()).push(presses.last()) =~= s.register + presses);
    }
}

/// Register monotonicity, the clearing half: an `Enter`, and any keypress
/// outside a session, leaves an empty register behind.
pub proof fn lemma_register_resets(s: AtmView, k: Key)
    requires
        k is Enter || s.auth is Waiting,
    ensures
        next_state_spec(s, Action::PressKey(k)).register == Seq::<Key>::empty(),
{
}

/// A keypress before any card swipe is a no-op on the state shape: the
/// machine stays idle with an empty register and an untouched reserve,
/// whatever the key and whatever the incoming register held.
pub proof fn lemma_keypress_before_swipe(s: AtmView, k: Key)
    requires
        s.auth is Waiting,
    ensures
        next_state_spec(s, Action::PressKey(k)) == (AtmView {
            cash_inside: s.cash_inside,
            auth: Auth::Waiting,
            register: Seq::empty(),
        }),
{
}

} // verus!
