//! What the selector needs to know of a build target, and the switches an
//! integrator may set.

use vstd::prelude::*;

verus! {

/// The operating system of a target.
#[derive(Debug, Clone, Copy, PartialEq, Eq, Structural)]
pub enum Os {
    Macos,
    Ios,
    Tvos,
    Linux,
    /// A POSIX-style system that is none of the above.
    OtherUnix,
    Windows,
    /// Anything else, bare metal included.
    Unknown,
}

/// The CPU architecture of a target.
#[derive(Debug, Clone, Copy, PartialEq, Eq, Structural)]
pub enum Arch {
    X86,
    X86_64,
    Arm,
    Aarch64,
    Other,
}

/// The C library flavour of a target.
#[derive(Debug, Clone, Copy, PartialEq, Eq, Structural)]
pub enum Env {
    Gnu,
    Musl,
    Other,
}

/// A build target, as far as the choice of an identity source depends on it.
#[derive(Debug, Clone, Copy, PartialEq, Eq, Structural)]
pub struct Target {
    pub os: Os,
    pub arch: Arch,
    pub env: Env,
    /// Width of a pointer, in bits.
    pub pointer_width: u16,
    /// The target is a WebAssembly one.
    pub wasm: bool,
    /// The target has atomic instructions, and so may run several threads.
    pub atomics: bool,
    /// The code runs under an interpreter that knows no machine registers.
    pub interpreted: bool,
}

/// The three opt-in switches. Each is off unless the integrator sets it.
#[derive(Debug, Clone, Copy, PartialEq, Eq, Structural)]
pub struct Policy {
    /// Treat the target as one that never runs two threads at once. If that
    /// is false of the target, threads silently share one identity.
    pub unsafely_assume_single_threaded: bool,
    /// Take the system's native call even where a register could be read.
    pub prefer_native_call: bool,
    /// Let the optimizer treat a register read as independent of the order
    /// of thread operations.
    pub pure_register_read: bool,
}

impl Os {
    /// The system offers the POSIX thread interface.
    pub open spec fn spec_is_unix(self) -> bool {
        self == Os::Macos || self == Os::Ios || self == Os::Tvos || self == Os::Linux
            || self == Os::OtherUnix
    }

    /// The system offers the POSIX thread interface.
    pub fn is_unix(self) -> (unix: bool)
        ensures
            unix == self.spec_is_unix(),
    {
        match self {
            Os::Macos | Os::Ios | Os::Tvos | Os::Linux | Os::OtherUnix => true,
            Os::Windows | Os::Unknown => false,
        }
    }
}

impl Target {
    /// The target cannot run two threads at once.
    pub open spec fn spec_is_single_threaded(self) -> bool {
        self.wasm && !self.atomics
    }

    /// The target cannot run two threads at once.
    pub fn is_single_threaded(&self) -> (single: bool)
        ensures
            single == self.spec_is_single_threaded(),
    {
        self.wasm && !self.atomics
    }

    /// Pointers have the width that is native to the architecture, and the
    /// code runs on the machine itself.
    pub open spec fn spec_has_native_abi(self) -> bool {
        &&& !self.interpreted
        &&& self.pointer_width == 32 || self.pointer_width == 64
        &&& (self.arch == Arch::X86_64 || self.arch == Arch::Aarch64) ==> self.pointer_width == 64
        &&& (self.arch == Arch::X86 || self.arch == Arch::Arm) ==> self.pointer_width == 32
    }

    /// Pointers have the width that is native to the architecture, and the
    /// code runs on the machine itself.
    pub fn has_native_abi(&self) -> (native: bool)
        ensures
            native == self.spec_has_native_abi(),
    {
        if self.interpreted {
            return false;
        }
        match self.arch {
            Arch::X86_64 | Arch::Aarch64 => self.pointer_width == 64,
            Arch::X86 | Arch::Arm => self.pointer_width == 32,
            Arch::Other => self.pointer_width == 32 || self.pointer_width == 64,
        }
    }
}

impl Policy {
    /// The safest choice: every switch off.
    pub open spec fn spec_safest() -> Policy {
        Policy {
            unsafely_assume_single_threaded: false,
            prefer_native_call: false,
            pure_register_read: false,
        }
    }

    /// The safest choice: every switch off.
    pub fn safest() -> (policy: Policy)
        ensures
            policy == Self::spec_safest(),
    {
        Policy {
            unsafely_assume_single_threaded: false,
            prefer_native_call: false,
            pure_register_read: false,
        }
    }
}

impl Default for Policy {
    fn default() -> (policy: Policy)
        ensures
            policy == Policy::spec_safest(),
    {
        Policy::safest()
    }
}

} // verus!
