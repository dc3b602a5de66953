//! A two-state machine whose transitions consume the state they leave.
//!
//! The machine rests in the stored state and works in the ready state. Each
//! state keeps its data private: a value is made only by `enter` and taken
//! apart only by `exit`, so every transition passes through both. The count
//! of entries into the ready state travels with the machine and never falls.

pub mod clock;
pub mod command;
pub mod laws;
pub mod machine;
pub mod ready;
pub mod state;
pub mod stored;
pub mod transition;

pub use command::{response, response_text, Command};
pub use machine::{Machine, Phase};
pub use ready::{ReadyState, ReadyStateInputs, ReadyStateOutputs};
pub use state::State;
pub use stored::{StoredState, StoredStateInputs, StoredStateOutputs};
pub use transition::{ReadyStateTransitionResult, StoredStateTransitionResult};
