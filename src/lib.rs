//! Beam configuration: the shape of a reinforced-concrete beam and its
//! reinforcement layout, with every optional setting resolved to a fixed
//! default when it is read.

pub mod error;
pub mod input;
pub mod layer;
pub mod rebar;

pub use error::{InputError, RequiredField};
pub use input::{RawInput, TomlInput};
pub use layer::LayerName;
pub use rebar::NumRebar;
