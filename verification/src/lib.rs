//! The argument carrier of an engine binding: one type for a call argument
//! that is held, lent, or given as a handle to an engine object.

pub mod carrier;
pub mod handle;
pub mod lemmas;
pub mod ref_arg;

pub use carrier::CowArg;
pub use ref_arg::RefArg;
