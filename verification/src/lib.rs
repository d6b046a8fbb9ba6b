//! A verified model of an automated teller machine.
//!
//! The machine is a pure state-transition function: given the current
//! state and an observed action (a card swipe carrying a PIN hash, or a
//! keypad press), it returns the next state. Misuse — a wrong PIN, an
//! over-withdrawal, stray keypresses — never raises an error; every such
//! case transitions to a safe idle state with the cash reserve intact.

pub mod hashing;
pub mod laws;
pub mod machine;

pub use hashing::hash;
pub use machine::clone_and_add;
pub use machine::Action;
pub use machine::Atm;
pub use machine::AtmView;
pub use machine::Auth;
pub use machine::Key;
