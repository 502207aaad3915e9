use thrid::strategy::{is_vetted, place_for, register_read, select};
use thrid::{Arch, Env, Os, Place, Policy, RegisterRead, Segment, Strategy, Target, ThreadRegister};

fn target(os: Os, arch: Arch, env: Env, pointer_width: u16) -> Target {
    Target { os, arch, env, pointer_width, wasm: false, atomics: true, interpreted: false }
}

fn segment(segment: Segment, offset: u8) -> Strategy {
    Strategy::DirectRegister(RegisterRead {
        place: Place::SegmentWord { segment, offset },
        no_memory: false,
        pure_read: false,
    })
}

fn register(register: ThreadRegister) -> Strategy {
    Strategy::DirectRegister(RegisterRead {
        place: Place::Register(register),
        no_memory: true,
        pure_read: false,
    })
}

#[test]
fn default_policy_has_every_switch_off() {
    let policy = Policy::default();
    assert!(!policy.unsafely_assume_single_threaded);
    assert!(!policy.prefer_native_call);
    assert!(!policy.pure_register_read);
    assert_eq!(policy, Policy::safest());
}

#[test]
fn linux_reads_its_thread_pointer() {
    let policy = Policy::safest();
    assert_eq!(select(&target(Os::Linux, Arch::X86_64, Env::Gnu, 64), &policy), segment(Segment::Fs, 0));
    assert_eq!(select(&target(Os::Linux, Arch::X86_64, Env::Musl, 64), &policy), segment(Segment::Fs, 0));
    assert_eq!(select(&target(Os::Linux, Arch::X86, Env::Gnu, 32), &policy), segment(Segment::Gs, 0));
    assert_eq!(
        select(&target(Os::Linux, Arch::Aarch64, Env::Gnu, 64), &policy),
        register(ThreadRegister::TpidrEl0)
    );
}

#[test]
fn linux_with_another_c_library_calls_the_system() {
    let policy = Policy::safest();
    assert_eq!(select(&target(Os::Linux, Arch::X86_64, Env::Other, 64), &policy), Strategy::NativePosix);
}

#[test]
fn apple_targets_read_their_thread_pointer() {
    let policy = Policy::safest();
    assert_eq!(select(&target(Os::Macos, Arch::X86_64, Env::Other, 64), &policy), segment(Segment::Gs, 0));
    assert_eq!(select(&target(Os::Macos, Arch::X86, Env::Other, 32), &policy), segment(Segment::Fs, 0));
    assert_eq!(
        select(&target(Os::Macos, Arch::Aarch64, Env::Other, 64), &policy),
        register(ThreadRegister::TpidrroEl0)
    );
    assert_eq!(
        select(&target(Os::Ios, Arch::Aarch64, Env::Other, 64), &policy),
        register(ThreadRegister::TpidrroEl0)
    );
}

#[test]
fn windows_reads_its_environment_block() {
    let policy = Policy::safest();
    assert_eq!(select(&target(Os::Windows, Arch::X86_64, Env::Other, 64), &policy), segment(Segment::Gs, 48));
    assert_eq!(select(&target(Os::Windows, Arch::X86, Env::Other, 32), &policy), segment(Segment::Fs, 24));
    assert_eq!(
        select(&target(Os::Windows, Arch::Aarch64, Env::Other, 64), &policy),
        register(ThreadRegister::X18)
    );
}

#[test]
fn a_place_without_vetting_is_not_read() {
    let policy = Policy::safest();
    let windows_arm = target(Os::Windows, Arch::Arm, Env::Other, 32);
    assert_eq!(place_for(Os::Windows, Arch::Arm), Some(Place::Register(ThreadRegister::Cp15Tpidrurw)));
    assert!(!is_vetted(&windows_arm));
    assert_eq!(register_read(&windows_arm, &policy), None);
    assert_eq!(select(&windows_arm, &policy), Strategy::NativeWindows);
}

#[test]
fn vetting_without_a_place_is_not_read() {
    let policy = Policy::safest();
    let tvos = target(Os::Tvos, Arch::Aarch64, Env::Other, 64);
    assert!(is_vetted(&tvos));
    assert_eq!(place_for(Os::Tvos, Arch::Aarch64), None);
    assert_eq!(select(&tvos, &policy), Strategy::NativePosix);
}

#[test]
fn foreign_pointer_width_calls_the_system() {
    let policy = Policy::safest();
    assert_eq!(select(&target(Os::Linux, Arch::X86_64, Env::Gnu, 32), &policy), Strategy::NativePosix);
    assert_eq!(select(&target(Os::Linux, Arch::Aarch64, Env::Gnu, 32), &policy), Strategy::NativePosix);
    assert_eq!(select(&target(Os::Linux, Arch::X86, Env::Gnu, 64), &policy), Strategy::NativePosix);
    assert_eq!(select(&target(Os::Windows, Arch::X86_64, Env::Other, 16), &policy), Strategy::NativeWindows);
    assert!(!target(Os::Linux, Arch::Other, Env::Gnu, 128).has_native_abi());
    assert!(target(Os::Linux, Arch::Other, Env::Gnu, 64).has_native_abi());
}

#[test]
fn interpreter_calls_the_system() {
    let mut linux = target(Os::Linux, Arch::X86_64, Env::Gnu, 64);
    linux.interpreted = true;
    assert_eq!(select(&linux, &Policy::safest()), Strategy::NativePosix);
}

#[test]
fn other_unix_calls_the_system() {
    let policy = Policy::safest();
    assert_eq!(select(&target(Os::OtherUnix, Arch::X86_64, Env::Other, 64), &policy), Strategy::NativePosix);
    assert!(Os::OtherUnix.is_unix());
    assert!(Os::Linux.is_unix());
    assert!(!Os::Windows.is_unix());
    assert!(!Os::Unknown.is_unix());
}

#[test]
fn unknown_system_takes_the_thread_local_address() {
    let policy = Policy::safest();
    assert_eq!(
        select(&target(Os::Unknown, Arch::Other, Env::Other, 32), &policy),
        Strategy::ThreadLocalAddress
    );
    assert_eq!(
        select(&target(Os::Unknown, Arch::X86_64, Env::Other, 64), &policy),
        Strategy::ThreadLocalAddress
    );
}

#[test]
fn wasm_without_atomics_takes_the_shortcut() {
    let mut wasm = target(Os::Unknown, Arch::Other, Env::Other, 32);
    wasm.wasm = true;
    wasm.atomics = false;
    assert!(wasm.is_single_threaded());
    assert_eq!(select(&wasm, &Policy::safest()), Strategy::SingleThreaded);
    wasm.atomics = true;
    assert!(!wasm.is_single_threaded());
    assert_eq!(select(&wasm, &Policy::safest()), Strategy::ThreadLocalAddress);
}

#[test]
fn assuming_one_thread_wins_over_everything() {
    let policy = Policy { unsafely_assume_single_threaded: true, ..Policy::safest() };
    assert_eq!(select(&target(Os::Linux, Arch::X86_64, Env::Gnu, 64), &policy), Strategy::SingleThreaded);
    assert_eq!(select(&target(Os::Windows, Arch::X86, Env::Other, 32), &policy), Strategy::SingleThreaded);
    let both = Policy { prefer_native_call: true, ..policy };
    assert_eq!(select(&target(Os::Linux, Arch::X86_64, Env::Gnu, 64), &both), Strategy::SingleThreaded);
}

#[test]
fn preferring_the_native_call_skips_the_register() {
    let policy = Policy { prefer_native_call: true, ..Policy::safest() };
    assert_eq!(select(&target(Os::Linux, Arch::X86_64, Env::Gnu, 64), &policy), Strategy::NativePosix);
    assert_eq!(select(&target(Os::Macos, Arch::Aarch64, Env::Other, 64), &policy), Strategy::NativePosix);
    assert_eq!(select(&target(Os::Windows, Arch::X86_64, Env::Other, 64), &policy), Strategy::NativeWindows);
}

#[test]
fn pure_reads_are_marked_only_on_request() {
    let linux = target(Os::Linux, Arch::X86_64, Env::Gnu, 64);
    let policy = Policy { pure_register_read: true, ..Policy::safest() };
    assert_eq!(
        select(&linux, &policy),
        Strategy::DirectRegister(RegisterRead {
            place: Place::SegmentWord { segment: Segment::Fs, offset: 0 },
            no_memory: false,
            pure_read: true,
        })
    );
    assert_eq!(select(&target(Os::OtherUnix, Arch::Arm, Env::Other, 32), &policy), Strategy::NativePosix);
}
