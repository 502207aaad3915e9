//! The choice of an identity source for a target: a fixed decision table,
//! and the table of registers that hold a thread's control block.

use vstd::prelude::*;
use crate::target::{Arch, Env, Os, Policy, Target};

verus! {

/// The ways to read a word that tells the calling thread apart.
#[derive(Debug, Clone, Copy, PartialEq, Eq, Structural)]
pub enum Strategy {
    /// The address of one byte that the whole process shares.
    SingleThreaded,
    /// One register, or one word at a small offset from a segment base.
    DirectRegister(RegisterRead),
    /// The POSIX query for the calling thread, whose answer may be zero.
    NativePosix,
    /// The Windows query for the calling thread, whose answer is never zero.
    NativeWindows,
    /// The address of one byte that each thread has for itself.
    ThreadLocalAddress,
}

/// A segment register of the x86 family.
#[derive(Debug, Clone, Copy, PartialEq, Eq, Structural)]
pub enum Segment {
    Fs,
    Gs,
}

/// A register that holds a per-thread pointer by itself.
#[derive(Debug, Clone, Copy, PartialEq, Eq, Structural)]
pub enum ThreadRegister {
    /// The read-only software thread register of AArch64.
    TpidrroEl0,
    /// The read-write software thread register of AArch64.
    TpidrEl0,
    /// The platform register of AArch64.
    X18,
    /// The user read-write thread register of the ARM system coprocessor.
    Cp15Tpidrurw,
}

/// Where the word is read from.
#[derive(Debug, Clone, Copy, PartialEq, Eq, Structural)]
pub enum Place {
    /// The word at `offset` bytes from the base of `segment`.
    SegmentWord { segment: Segment, offset: u8 },
    /// The content of a register.
    Register(ThreadRegister),
}

/// One direct read, and what the optimizer may assume of it.
#[derive(Debug, Clone, Copy, PartialEq, Eq, Structural)]
pub struct RegisterRead {
    pub place: Place,
    /// The read touches no memory at all.
    pub no_memory: bool,
    /// The optimizer may reuse an earlier read in place of this one.
    pub pure_read: bool,
}

/// The place that holds the thread's control block, or its thread-local
/// base, on the systems and architectures for which one is documented.
pub open spec fn spec_place_for(os: Os, arch: Arch) -> Option<Place> {
    match (os, arch) {
        (Os::Macos, Arch::X86_64) => Some(Place::SegmentWord { segment: Segment::Gs, offset: 0 }),
        (Os::Macos, Arch::X86) => Some(Place::SegmentWord { segment: Segment::Fs, offset: 0 }),
        (Os::Macos, Arch::Aarch64) => Some(Place::Register(ThreadRegister::TpidrroEl0)),
        (Os::Ios, Arch::Aarch64) => Some(Place::Register(ThreadRegister::TpidrroEl0)),
        (Os::Windows, Arch::X86_64) => Some(Place::SegmentWord { segment: Segment::Gs, offset: 48 }),
        (Os::Windows, Arch::X86) => Some(Place::SegmentWord { segment: Segment::Fs, offset: 24 }),
        (Os::Windows, Arch::Aarch64) => Some(Place::Register(ThreadRegister::X18)),
        (Os::Windows, Arch::Arm) => Some(Place::Register(ThreadRegister::Cp15Tpidrurw)),
        (Os::Linux, Arch::X86_64) => Some(Place::SegmentWord { segment: Segment::Fs, offset: 0 }),
        (Os::Linux, Arch::X86) => Some(Place::SegmentWord { segment: Segment::Gs, offset: 0 }),
        (Os::Linux, Arch::Aarch64) => Some(Place::Register(ThreadRegister::TpidrEl0)),
        _ => None,
    }
}

/// Looks the pair up in the table of places.
pub fn place_for(os: Os, arch: Arch) -> (place: Option<Place>)
    ensures
        place == spec_place_for(os, arch),
{
    match os {
        Os::Macos => match arch {
            Arch::X86_64 => Some(Place::SegmentWord { segment: Segment::Gs, offset: 0 }),
            Arch::X86 => Some(Place::SegmentWord { segment: Segment::Fs, offset: 0 }),
            Arch::Aarch64 => Some(Place::Register(ThreadRegister::TpidrroEl0)),
            _ => None,
        },
        Os::Ios => match arch {
            Arch::Aarch64 => Some(Place::Register(ThreadRegister::TpidrroEl0)),
            _ => None,
        },
        Os::Windows => match arch {
            Arch::X86_64 => Some(Place::SegmentWord { segment: Segment::Gs, offset: 48 }),
            Arch::X86 => Some(Place::SegmentWord { segment: Segment::Fs, offset: 24 }),
            Arch::Aarch64 => Some(Place::Register(ThreadRegister::X18)),
            Arch::Arm => Some(Place::Register(ThreadRegister::Cp15Tpidrurw)),
            Arch::Other => None,
        },
        Os::Linux => match arch {
            Arch::X86_64 => Some(Place::SegmentWord { segment: Segment::Fs, offset: 0 }),
            Arch::X86 => Some(Place::SegmentWord { segment: Segment::Gs, offset: 0 }),
            Arch::Aarch64 => Some(Place::Register(ThreadRegister::TpidrEl0)),
            _ => None,
        },
        _ => None,
    }
}

/// The target is one whose system documents the place as part of its ABI.
pub open spec fn spec_is_vetted(target: Target) -> bool {
    let mainstream = target.arch == Arch::X86 || target.arch == Arch::X86_64 || target.arch
        == Arch::Aarch64;
    match target.os {
        Os::Macos | Os::Windows => mainstream,
        Os::Ios | Os::Tvos => target.arch == Arch::Aarch64,
        Os::Linux => mainstream && (target.env == Env::Gnu || target.env == Env::Musl),
        _ => false,
    }
}

/// Tells whether the target's system documents the place as part of its ABI.
pub fn is_vetted(target: &Target) -> (vetted: bool)
    ensures
        vetted == spec_is_vetted(*target),
{
    let mainstream = match target.arch {
        Arch::X86 | Arch::X86_64 | Arch::Aarch64 => true,
        _ => false,
    };
    match target.os {
        Os::Macos | Os::Windows => mainstream,
        Os::Ios | Os::Tvos => match target.arch {
            Arch::Aarch64 => true,
            _ => false,
        },
        Os::Linux => mainstream && match target.env {
            Env::Gnu | Env::Musl => true,
            Env::Other => false,
        },
        _ => false,
    }
}

/// The direct read for a target, where there is one: the target has its
/// architecture's native ABI, its system is vetted, and the table holds a
/// place for it.
pub open spec fn spec_register_read(target: Target, policy: Policy) -> Option<RegisterRead> {
    if target.spec_has_native_abi() && spec_is_vetted(target) {
        match spec_place_for(target.os, target.arch) {
            Some(place) => Some(
                RegisterRead {
                    place,
                    no_memory: place is Register,
                    pure_read: policy.pure_register_read,
                },
            ),
            None => None,
        }
    } else {
        None
    }
}

/// Finds the direct read for a target, if it has one.
pub fn register_read(target: &Target, policy: &Policy) -> (read: Option<RegisterRead>)
    ensures
        read == spec_register_read(*target, *policy),
{
    if !target.has_native_abi() || !is_vetted(target) {
        return None;
    }
    match place_for(target.os, target.arch) {
        Some(place) => {
            let no_memory = match place {
                Place::Register(_) => true,
                Place::SegmentWord { .. } => false,
            };
            Some(RegisterRead { place, no_memory, pure_read: policy.pure_register_read })
        },
        None => None,
    }
}

/// The decision table. The first line that matches wins.
pub open spec fn spec_select(target: Target, policy: Policy) -> Strategy {
    if policy.unsafely_assume_single_threaded || target.spec_is_single_threaded() {
        Strategy::SingleThreaded
    } else if !policy.prefer_native_call && spec_register_read(target, policy) is Some {
        Strategy::DirectRegister(spec_register_read(target, policy)->0)
    } else if target.os.spec_is_unix() {
        Strategy::NativePosix
    } else if target.os == Os::Windows {
        Strategy::NativeWindows
    } else {
        Strategy::ThreadLocalAddress
    }
}

/// Picks the identity source for a target under a policy.
pub fn select(target: &Target, policy: &Policy) -> (strategy: Strategy)
    ensures
        strategy == spec_select(*target, *policy),
{
    if policy.unsafely_assume_single_threaded || target.is_single_threaded() {
        return Strategy::SingleThreaded;
    }
    if !policy.prefer_native_call {
        if let Some(read) = register_read(target, policy) {
            return Strategy::DirectRegister(read);
        }
    }
    if target.os.is_unix() {
        Strategy::NativePosix
    } else {
        match target.os {
            Os::Windows => Strategy::NativeWindows,
            _ => Strategy::ThreadLocalAddress,
        }
    }
}

/// The shared byte is chosen exactly when the target runs one thread at a
/// time or the integrator has said so; with every switch off, never on a
/// target that has threads.
pub proof fn lemma_shortcut_only_when_declared(target: Target, policy: Policy)
    ensures
        spec_select(target, policy) == Strategy::SingleThreaded <==> (
        policy.unsafely_assume_single_threaded || target.spec_is_single_threaded()),
        !target.spec_is_single_threaded() ==> spec_select(target, Policy::spec_safest())
            != Strategy::SingleThreaded,
{
}

/// A direct read is chosen only for a target that the table of places
/// holds, that is vetted and has its native ABI, and only while the native
/// call is not preferred; the optimizer may reuse the read only if the
/// integrator has allowed it.
pub proof fn lemma_register_only_from_table(target: Target, policy: Policy, read: RegisterRead)
    requires
        spec_select(target, policy) == Strategy::DirectRegister(read),
    ensures
        spec_place_for(target.os, target.arch) == Some(read.place),
        spec_is_vetted(target),
        target.spec_has_native_abi(),
        !policy.prefer_native_call,
        read.pure_read == policy.pure_register_read,
{
}

/// The switch that lets the optimizer reuse a read changes nothing but
/// that mark on a direct read.
pub proof fn lemma_purity_changes_only_the_mark(target: Target, policy: Policy)
    ensures
        ({
            let other = Policy { pure_register_read: !policy.pure_register_read, ..policy };
            match spec_select(target, policy) {
                Strategy::DirectRegister(read) => spec_select(target, other)
                    == Strategy::DirectRegister(
                    RegisterRead { pure_read: other.pure_register_read, ..read },
                ),
                chosen => spec_select(target, other) == chosen,
            }
        }),
{
}

} // verus!
