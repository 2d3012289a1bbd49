//! Terminals: what is known of each, who watches it, and how it reacts.
pub mod actor;
pub mod delivery;
pub mod inbox;
pub mod model;
pub mod process;
pub mod registry;
pub mod replay;
pub mod roster;
pub mod rows;
pub mod worker;

pub use model::{
    CreateTerminal, RawReplay, StreamEvent, TerminalId, TerminalInfo, TerminalLifecycle,
    TerminalRows, TerminalSnapshot,
};
pub use registry::TerminalService;
pub use replay::ReplayBuffer;
pub use roster::{Recipient, Roster, Subscriber};
