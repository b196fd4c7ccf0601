//! A result-handoff store for operations that finish later.
//!
//! A caller launches a long-running operation without waiting for it, and
//! collects the produced value by polling. The slots that hold the values
//! live behind one lock; a gate on top makes sure that a polling loop
//! launches an operation once and not on every tick.

pub mod error;
pub mod gate;
pub mod id;
pub mod session;
pub mod slots;
pub mod state;
pub mod store;

pub use error::PerformError;
pub use error::ok_or_empty;
pub use gate::Progress;
pub use gate::RequestGate;
pub use id::SessionId;
pub use session::Session;
pub use slots::Slots;
pub use state::PerformState;
pub use state::StoreEntry;
pub use store::ResultStore;
