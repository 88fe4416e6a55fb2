//! The storage protocol: the records, the statements a repository issues and
//! the replies it gets, what the statements mean, and an engine in memory
//! that runs them.

pub mod rows;
pub mod statement;
pub mod integrity;
pub mod memory;
pub mod tables;
