//! The host a binary is provisioned for.

use vstd::prelude::*;

verus! {

/// Operating system family.
#[derive(Clone, Copy, Debug, PartialEq, Eq, Structural)]
pub enum Os {
    Windows,
    MacOs,
    Linux,
}

/// Processor architecture.
#[derive(Clone, Copy, Debug, PartialEq, Eq, Structural)]
pub enum Arch {
    X86_64,
    Aarch64,
    Other,
}

/// An operating system together with an architecture.
#[derive(Clone, Copy, Debug, PartialEq, Eq, Structural)]
pub struct Platform {
    pub os: Os,
    pub arch: Arch,
}

} // verus!
