//! The fixed numbers of the device and of the program.
pub mod av;
