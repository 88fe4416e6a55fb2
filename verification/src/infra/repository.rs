//! The repositories, each operation written as a plan: a state machine that
//! names the next statement and decides on the reply.
//!
//! The plans themselves know nothing of storage. What a run of a plan
//! amounts to is stated in `outcome` and proved in `refinement` for storage
//! that behaves as the model does; `in_memory` runs the plans on the engine
//! in memory, and `laws` holds what follows for the operations together.

pub mod comparing_prompt_run;
pub mod comparing_prompt_setting;
pub mod extension;
pub mod in_memory;
pub mod laws;
pub mod outcome;
pub mod plan;
pub mod prompt_manager;
pub mod refinement;
pub mod support;
pub mod tag;
pub mod update;
