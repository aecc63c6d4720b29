//! Legacy hybrid dual cab: one-byte selectors, heads `0x23` / `0x25` / `0x2d`.
pub mod wire;
