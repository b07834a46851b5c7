//! An interactive wallet session: a command grammar, the decision logic for
//! unlocking or creating a locally stored wallet, a balance subscriber that
//! persists the wallet on every update, and the interactive session loop's
//! state machine. Terminal, file and network plumbing live outside this
//! library; the logic here is verified.

pub mod acquisition;
pub mod grammar;
pub mod numeral;
pub mod session;
pub mod subscriber;
