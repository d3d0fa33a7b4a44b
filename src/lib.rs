//! Sandboxed execution of playground code: the track table, the emit kinds,
//! the driver output format, the exit dispositions and the container
//! lifecycle. Running the container runtime itself is left to the caller,
//! which performs each action that the lifecycle asks for.
pub mod branches;
pub mod text;
pub mod emit;
pub mod driver;
pub mod docker;
pub mod playpen;
pub mod page;
pub mod share;

pub use branches::Branch;
pub use docker::{Container, RunResult};
pub use emit::CompileOutput;
pub use playpen::Playpen;
