//! Dual cab transport shared by the IR and legacy hybrid cabs: the cab 2 replace sequence and
//! the legacy wire builders.
pub mod legacy;
pub mod replace_fire;
