//! A lock for one value shared between the main context and the interrupt
//! handlers of a single-core processor.
//!
//! The value is set exactly once after startup and is afterwards reached
//! only inside a critical section.
//!
//! - `slot` holds the state machine of the lock, empty or initialized, with
//!   the laws proved of it;
//! - `lock` holds the lock itself, which keeps a slot behind a
//!   `critical_section::Mutex`;
//! - `section` states what is taken for granted of `critical_section` and of
//!   `core::cell::RefCell`;
//! - `error` names the ways in which a lock can be misused.
pub mod error;
pub mod lock;
pub mod section;
pub mod slot;

pub use error::LockError;
pub use lock::LockMut;
pub use slot::Slot;
