//! The tooling server's catalogues: the prompts it offers, the resources it
//! serves and how a resource address is read. Running a command or reading a
//! file is left to the caller; what stands here names what was asked for.

pub mod prompts;
pub mod resources;
pub mod transport;
