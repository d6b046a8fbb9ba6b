//! The ATM state, the actions a user can take, and the transition function.

use vstd::prelude::*;

verus! {

use crate::hashing::hash;
use crate::hashing::hash_spec;

/// The keys on the ATM keypad.
#[derive(Copy, Clone, Debug, Hash, PartialEq, Eq)]
pub enum Key {
    One,
    Two,
    Three,
    Four,
    Enter,
}

/// Something you can do to the ATM.
pub enum Action {
    /// Swipe your card at the ATM. The attached value is the hash of the pin
    /// that should be keyed in on the keypad next.
    SwipeCard(u64),
    /// Press a key on the keypad.
    PressKey(Key),
}

/// The various states of authentication possible with the ATM.
#[derive(Copy, Clone, Debug, PartialEq, Eq)]
pub enum Auth {
    /// No session has begun yet. Waiting for the user to swipe their card.
    Waiting,
    /// The user has swiped their card, providing the enclosed PIN hash.
    /// Waiting for the user to key in their pin.
    Authenticating(u64),
    /// The user has authenticated. Waiting for them to key in the amount
    /// of cash to withdraw.
    Authenticated,
}

/// The ATM. When a card is swiped, the ATM learns the correct pin's hash.
/// It waits for you to key in your pin. You can press as many numeric keys as
/// you like followed by enter. If the pin is incorrect, your card is returned
/// and the ATM automatically goes back to the main menu. If your pin is correct,
/// the ATM waits for you to key in an amount of money to withdraw. Withdraws
/// are bounded only by the cash in the machine (there is no account balance).
#[derive(Clone, Debug, PartialEq, Eq)]
pub struct Atm {
    /// How much money is in the ATM.
    pub cash_inside: u64,
    /// The machine's authentication status.
    pub expected_pin_hash: Auth,
    /// All the keys that have been pressed since the last `Enter`.
    pub keystroke_register: Vec<Key>,
}

/// Mathematical snapshot of an ATM state: the contracts below speak of
/// this value rather than of the executable representation.
#[verifier::ext_equal]
pub ghost struct AtmView {
    pub cash_inside: u64,
    pub auth: Auth,
    pub register: Seq<Key>,
}

impl View for Atm {
    type V = AtmView;

    open spec fn view(&self) -> AtmView {
        AtmView {
            cash_inside: self.cash_inside,
            auth: self.expected_pin_hash,
            register: self.keystroke_register@,
        }
    }
}

/// Numeric value of a digit key; `Enter` carries no digit value.
pub open spec fn digit_value(k: Key) -> int {
    match k {
        Key::One => 1,
        Key::Two => 2,
        Key::Three => 3,
        Key::Four => 4,
        Key::Enter => 0,
    }
}

/// The amount a register requests: digit keys fold left to right as base-ten
/// digits, and any non-digit key leaves the accumulator untouched.
pub open spec fn withdrawal_amount(keys: Seq<Key>) -> int
    decreases keys.len(),
{
    if keys.len() == 0 {
        0
    } else {
        let prev = withdrawal_amount(keys.drop_last());
        if keys.last() is Enter {
            prev
        } else {
            prev * 10 + digit_value(keys.last())
        }
    }
}

/// The state after a card swipe: ignored mid-session, otherwise it opens a
/// session whose PIN must hash to `pin_hash`.
pub open spec fn spec_swipe(s: AtmView, pin_hash: u64) -> AtmView {
    if s.auth is Waiting {
        AtmView { cash_inside: s.cash_inside, auth: Auth::Authenticating(pin_hash), register: Seq::empty() }
    } else {
        s
    }
}

/// The state after a digit key: appended to the register inside a session,
/// discarded (with the register cleared) when no session is open.
pub open spec fn spec_press_digit(s: AtmView, k: Key) -> AtmView {
    if s.auth is Waiting {
        AtmView { cash_inside: s.cash_inside, auth: Auth::Waiting, register: Seq::empty() }
    } else {
        AtmView { cash_inside: s.cash_inside, auth: s.auth, register: s.register.push(k) }
    }
}

/// The state after `Enter`: a PIN check while authenticating (a match debits
/// the fixed one-unit authentication fee), a withdrawal attempt while
/// authenticated (rejected if it exceeds the reserve), and a no-op reset
/// while waiting. Every branch clears the register.
pub open spec fn spec_press_enter(s: AtmView) -> AtmView {
    match s.auth {
        Auth::Authenticating(expected) => if hash_spec(s.register) == expected {
            AtmView {
                cash_inside: (s.cash_inside - 1) as u64,
                auth: Auth::Authenticated,
                register: Seq::empty(),
            }
        } else {
            AtmView { cash_inside: s.cash_inside, auth: Auth::Waiting, register: Seq::empty() }
        },
        Auth::Authenticated => if withdrawal_amount(s.register) > s.cash_inside {
            AtmView { cash_inside: s.cash_inside, auth: Auth::Waiting, register: Seq::empty() }
        } else {
            AtmView {
                cash_inside: (s.cash_inside - withdrawal_amount(s.register)) as u64,
                auth: Auth::Waiting,
                register: Seq::empty(),
            }
        },
        Auth::Waiting => AtmView { cash_inside: s.cash_inside, auth: Auth::Waiting, register: Seq::empty() },
    }
}

/// What `Atm::next_state` returns, stated over the mathematical snapshot.
pub open spec fn next_state_spec(s: AtmView, t: Action) -> AtmView {
    match t {
        Action::SwipeCard(pin_hash) => spec_swipe(s, pin_hash),
        Action::PressKey(Key::Enter) => spec_press_enter(s),
        Action::PressKey(k) => spec_press_digit(s, k),
    }
}

/// The state after a sequence of keypresses, first to last.
pub open spec fn press_all(s: AtmView, presses: Seq<Key>) -> AtmView
    decreases presses.len(),
{
    if presses.len() == 0 {
        s
    } else {
        next_state_spec(press_all(s, presses.drop_last()), Action::PressKey(presses.last()))
    }
}

/// A successful PIN check debits a fixed one-unit fee, so the one input the
/// transition function cannot serve is an `Enter` that would complete
/// authentication while the machine holds no cash at all.
pub open spec fn fee_in_reserve(s: AtmView, t: Action) -> bool {
    (t matches Action::PressKey(Key::Enter) && s.auth matches Auth::Authenticating(expected)
        && hash_spec(s.register) == expected) ==> s.cash_inside >= 1
}

/// A register folds to a non-negative amount.
pub proof fn lemma_amount_nonneg(keys: Seq<Key>)
    ensures
        withdrawal_amount(keys) >= 0,
    decreases keys.len(),
{
    if keys.len() > 0 {
        lemma_amount_nonneg(keys.drop_last());
    }
}

/// Folding more keys never shrinks the amount: a prefix of a register
/// requests at most what the whole register requests.
pub proof fn lemma_amount_prefix(keys: Seq<Key>, n: int)
    requires
        0 <= n <= keys.len(),
    ensures
        withdrawal_amount(keys.take(n)) <= withdrawal_amount(keys),
    decreases keys.len() - n,
{
    if n == keys.len() {
        assert(keys.take(n) =~= keys);
    } else {
        lemma_amount_prefix(keys, n + 1);
        lemma_amount_nonneg(keys.take(n));
        assert(keys.take(n + 1).drop_last() =~= keys.take(n));
    }
}

fn digit_value_exec(k: Key) -> (d: u64)
    ensures
        d == digit_value(k),
{
    match k {
        Key::One => 1,
        Key::Two => 2,
        Key::Three => 3,
        Key::Four => 4,
        Key::Enter => 0,
    }
}

/// Copy of a keystroke register.
fn clone_keys(keys: &Vec<Key>) -> (r: Vec<Key>)
    ensures
        r@ == keys@,
{
    let mut r: Vec<Key> = Vec::new();
    let mut i: usize = 0;
    while i < keys.len()
        invariant
            i <= keys.len(),
            r@ == keys@.take(i as int),
        decreases keys.len() - i,
    {
        r.push(keys[i]);
        proof {
            assert(keys@.take(i as int + 1) =~= keys@.take(i as int).push(keys@[i as int]));
        }
        i = i + 1;
    }
    proof {
        assert(keys@.take(keys@.len() as int) =~= keys@);
    }
    r
}

/// Copy a register and append one key; the input register is untouched.
pub fn clone_and_add(vec: &Vec<Key>, element: Key) -> (r: Vec<Key>)
    ensures
        r@ == vec@.push(element),
{
    let mut new_vec = clone_keys(vec);
    new_vec.push(element);
    new_vec
}

/// The amount the register requests, or `None` when that amount does not
/// fit in a `u64` (and so certainly exceeds any reserve the machine holds).
fn checked_amount(keys: &Vec<Key>) -> (r: Option<u64>)
    ensures
        r matches Some(amount) ==> amount == withdrawal_amount(keys@),
        r is None ==> withdrawal_amount(keys@) > u64::MAX,
{
    let mut acc: u64 = 0;
    let mut i: usize = 0;
    while i < keys.len()
        invariant
            i <= keys.len(),
            acc == withdrawal_amount(keys@.take(i as int)),
        decreases keys.len() - i,
    {
        let k = keys[i];
        proof {
            assert(keys@.take(i as int + 1).drop_last() =~= keys@.take(i as int));
            assert(keys@.take(i as int + 1).last() == keys@[i as int]);
        }
        match k {
            Key::Enter => {},
            _ => {
                let d = digit_value_exec(k);
                let stepped = match acc.checked_mul(10) {
                    Some(m) => m.checked_add(d),
                    None => None,
                };
                match stepped {
                    Some(next) => {
                        acc = next;
                    },
                    None => {
                        proof {
                            lemma_amount_prefix(keys@, i as int + 1);
                        }
                        return None;
                    },
                }
            },
        }
        i = i + 1;
    }
    proof {
        assert(keys@.take(keys@.len() as int) =~= keys@);
    }
    Some(acc)
}

impl Atm {
    /// A fresh machine holding `cash_inside`, idle, with an empty register.
    pub fn new(cash_inside: u64) -> (r: Atm)
        ensures
            r@ == (AtmView { cash_inside, auth: Auth::Waiting, register: Seq::empty() }),
    {
        Atm { cash_inside, expected_pin_hash: Auth::Waiting, keystroke_register: Vec::new() }
    }

    /// The transition function: the state after observing `t` in
    /// `starting_state`. The input state is read, never mutated; the result
    /// is exactly `next_state_spec` of the snapshot.
    pub fn next_state(starting_state: &Atm, t: &Action) -> (r: Atm)
        requires
            fee_in_reserve(starting_state@, *t),
        ensures
            r@ == next_state_spec(starting_state@, *t),
    {
        match t {
            Action::SwipeCard(pin_hash) => match starting_state.expected_pin_hash {
                Auth::Waiting => Atm {
                    cash_inside: starting_state.cash_inside,
                    expected_pin_hash: Auth::Authenticating(*pin_hash),
                    keystroke_register: Vec::new(),
                },
                _ => Atm {
                    cash_inside: starting_state.cash_inside,
                    expected_pin_hash: starting_state.expected_pin_hash,
                    keystroke_register: clone_keys(&starting_state.keystroke_register),
                },
            },
            Action::PressKey(Key::Enter) => Self::press_enter(starting_state),
            Action::PressKey(k) => Self::press_digit(starting_state, *k),
        }
    }

    fn press_digit(starting_state: &Atm, k: Key) -> (r: Atm)
        ensures
            r@ == spec_press_digit(starting_state@, k),
    {
        match starting_state.expected_pin_hash {
            Auth::Waiting => Atm {
                cash_inside: starting_state.cash_inside,
                expected_pin_hash: Auth::Waiting,
                keystroke_register: Vec::new(),
            },
            _ => Atm {
                cash_inside: starting_state.cash_inside,
                expected_pin_hash: starting_state.expected_pin_hash,
                keystroke_register: clone_and_add(&starting_state.keystroke_register, k),
            },
        }
    }

    fn press_enter(starting_state: &Atm) -> (r: Atm)
        requires
            fee_in_reserve(starting_state@, Action::PressKey(Key::Enter)),
        ensures
            r@ == spec_press_enter(starting_state@),
    {
        match starting_state.expected_pin_hash {
            Auth::Authenticating(expected) => {
                let entered = hash(&starting_state.keystroke_register);
                if entered == expected {
                    Atm {
                        cash_inside: starting_state.cash_inside - 1,
                        expected_pin_hash: Auth::Authenticated,
                        keystroke_register: Vec::new(),
                    }
                } else {
                    Atm {
                        cash_inside: starting_state.cash_inside,
                        expected_pin_hash: Auth::Waiting,
                        keystroke_register: Vec::new(),
                    }
                }
            },
            Auth::Authenticated => {
                let requested = checked_amount(&starting_state.keystroke_register);
                match requested {
                    Some(amount) => {
                        if amount > starting_state.cash_inside {
                            Atm {
                                cash_inside: starting_state.cash_inside,
                                expected_pin_hash: Auth::Waiting,
                                keystroke_register: Vec::new(),
                            }
                        } else {
                            proof {
                                lemma_amount_nonneg(starting_state@.register);
                            }
                            Atm {
                                cash_inside: starting_state.cash_inside - amount,
                                expected_pin_hash: Auth::Waiting,
                                keystroke_register: Vec::new(),
                            }
                        }
                    },
                    None => Atm {
                        cash_inside: starting_state.cash_inside,
                        expected_pin_hash: Auth::Waiting,
                        keystroke_register: Vec::new(),
                    },
                }
            },
            Auth::Waiting => Atm {
                cash_inside: starting_state.cash_inside,
                expected_pin_hash: Auth::Waiting,
                keystroke_register: Vec::new(),
            },
        }
    }
}

} // verus!
