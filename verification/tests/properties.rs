use atm::Action;
use atm::Atm;
use atm::Auth;
use atm::Key;

#[test]
fn swipe_ignored_while_authenticated() {
    let start = Atm {
        cash_inside: 7,
        expected_pin_hash: Auth::Authenticated,
        keystroke_register: vec![Key::Two],
    };
    let end = Atm::next_state(&start, &Action::SwipeCard(999));
    assert_eq!(end, start);
}

#[test]
fn keypress_while_waiting_clears_stale_register() {
    let start = Atm {
        cash_inside: 10,
        expected_pin_hash: Auth::Waiting,
        keystroke_register: vec![Key::One, Key::Two],
    };
    let end = Atm::next_state(&start, &Action::PressKey(Key::Three));
    let expected = Atm {
        cash_inside: 10,
        expected_pin_hash: Auth::Waiting,
        keystroke_register: Vec::new(),
    };
    assert_eq!(end, expected);
}

#[test]
fn enter_while_waiting_is_inert() {
    let start = Atm {
        cash_inside: 10,
        expected_pin_hash: Auth::Waiting,
        keystroke_register: Vec::new(),
    };
    let end = Atm::next_state(&start, &Action::PressKey(Key::Enter));
    let expected = Atm {
        cash_inside: 10,
        expected_pin_hash: Auth::Waiting,
        keystroke_register: Vec::new(),
    };
    assert_eq!(end, expected);
}

#[test]
fn empty_register_withdraws_zero() {
    let start = Atm {
        cash_inside: 10,
        expected_pin_hash: Auth::Authenticated,
        keystroke_register: Vec::new(),
    };
    let end = Atm::next_state(&start, &Action::PressKey(Key::Enter));
    let expected = Atm {
        cash_inside: 10,
        expected_pin_hash: Auth::Waiting,
        keystroke_register: Vec::new(),
    };
    assert_eq!(end, expected);
}

#[test]
fn two_digit_withdrawal_folds_base_ten() {
    let start = Atm {
        cash_inside: 20,
        expected_pin_hash: Auth::Authenticated,
        keystroke_register: vec![Key::One, Key::Four],
    };
    let end = Atm::next_state(&start, &Action::PressKey(Key::Enter));
    let expected = Atm {
        cash_inside: 6,
        expected_pin_hash: Auth::Waiting,
        keystroke_register: Vec::new(),
    };
    assert_eq!(end, expected);
}

#[test]
fn oversized_amount_is_rejected() {
    // Twenty-five digits fold to an amount far beyond any u64 reserve.
    let start = Atm {
        cash_inside: u64::MAX,
        expected_pin_hash: Auth::Authenticated,
        keystroke_register: vec![Key::Four; 25],
    };
    let end = Atm::next_state(&start, &Action::PressKey(Key::Enter));
    let expected = Atm {
        cash_inside: u64::MAX,
        expected_pin_hash: Auth::Waiting,
        keystroke_register: Vec::new(),
    };
    assert_eq!(end, expected);
}

#[test]
fn digit_press_keeps_expected_hash() {
    let start = Atm {
        cash_inside: 3,
        expected_pin_hash: Auth::Authenticating(555),
        keystroke_register: vec![Key::Four],
    };
    let end = Atm::next_state(&start, &Action::PressKey(Key::Three));
    let expected = Atm {
        cash_inside: 3,
        expected_pin_hash: Auth::Authenticating(555),
        keystroke_register: vec![Key::Four, Key::Three],
    };
    assert_eq!(end, expected);
}

#[test]
fn correct_pin_with_minimal_reserve() {
    let pin = vec![Key::Two, Key::Two];
    let pin_hash = atm::hash(&pin);
    let start = Atm {
        cash_inside: 1,
        expected_pin_hash: Auth::Authenticating(pin_hash),
        keystroke_register: pin,
    };
    let end = Atm::next_state(&start, &Action::PressKey(Key::Enter));
    let expected = Atm {
        cash_inside: 0,
        expected_pin_hash: Auth::Authenticated,
        keystroke_register: Vec::new(),
    };
    assert_eq!(end, expected);
}

#[test]
fn hash_is_deterministic_and_separates_pins() {
    let pin = vec![Key::One, Key::Two, Key::Three, Key::Four];
    let other = vec![Key::Three, Key::Three, Key::Three, Key::Three];
    assert_eq!(atm::hash(&pin), atm::hash(&pin.clone()));
    assert_ne!(atm::hash(&pin), atm::hash(&other));
    assert_ne!(atm::hash(&pin), atm::hash(&Vec::new()));
}

#[test]
fn clone_and_add_appends_without_touching_input() {
    let register = vec![Key::One];
    let grown = atm::clone_and_add(&register, Key::Two);
    assert_eq!(grown, vec![Key::One, Key::Two]);
    assert_eq!(register, vec![Key::One]);
}

#[test]
fn new_machine_is_idle() {
    let machine = Atm::new(10);
    let expected = Atm {
        cash_inside: 10,
        expected_pin_hash: Auth::Waiting,
        keystroke_register: Vec::new(),
    };
    assert_eq!(machine, expected);
}

#[test]
fn full_session_withdraws_and_resets() {
    let pin = vec![Key::One, Key::Two, Key::Three, Key::Four];
    let pin_hash = atm::hash(&pin);
    let mut machine = Atm::new(10);
    machine = Atm::next_state(&machine, &Action::SwipeCard(pin_hash));
    for key in [Key::One, Key::Two, Key::Three, Key::Four] {
        machine = Atm::next_state(&machine, &Action::PressKey(key));
    }
    machine = Atm::next_state(&machine, &Action::PressKey(Key::Enter));
    assert_eq!(machine.expected_pin_hash, Auth::Authenticated);
    assert_eq!(machine.cash_inside, 9);
    machine = Atm::next_state(&machine, &Action::PressKey(Key::Four));
    machine = Atm::next_state(&machine, &Action::PressKey(Key::Enter));
    let expected = Atm {
        cash_inside: 5,
        expected_pin_hash: Auth::Waiting,
        keystroke_register: Vec::new(),
    };
    assert_eq!(machine, expected);
}
