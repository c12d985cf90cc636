//! Display reconfiguration core: enumerating display outputs, validating and
//! switching the primary display's mode, encoding the SDR white-level request,
//! and resolving ICC profile associations.
//!
//! Every operating-system call lives in the surrounding application; this
//! crate holds the decision and encoding logic, stated and proved over plain
//! values.

pub mod device;
pub mod error;
pub mod icc;
pub mod mode_change;
pub mod modes;
pub mod sdr;
