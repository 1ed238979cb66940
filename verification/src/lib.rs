//! Keeps a slave light in step with a master light: the master's observed
//! on/off and color state is converted into the slave's numeric ranges and
//! pushed to the slave only when it differs from what was last applied.

pub mod controller;
pub mod convert;
pub mod light;
pub mod master;
pub mod sync;
pub mod text;
