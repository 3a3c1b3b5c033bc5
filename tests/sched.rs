use sched::cpuset::CpuSet;
use sched::errno::Errno;
use sched::sched::{
    affinity_buffer, clone_word, getcpu_result, stack_top, sysconf_result, CloneFlags, Pid,
};

#[test]
fn errno_result_passes_values_and_maps_failures() {
    assert_eq!(Errno::result(0, 0), Ok(0));
    assert_eq!(Errno::result(17, 5), Ok(17));
    assert_eq!(Errno::result(-1, 1), Err(Errno::from_raw(1)));
    assert_eq!(Errno::result(-1, 1).unwrap_err().raw(), 1);
}

#[test]
fn getcpu_result_converts() {
    assert_eq!(getcpu_result(3, 0), Ok(3usize));
    assert_eq!(getcpu_result(-1, 38), Err(Errno::from_raw(38)));
}

#[test]
fn clone_word_combines_flags_and_signal() {
    let flags = CloneFlags::from_bits_retain(CloneFlags::CLONE_VM)
        .union(CloneFlags::from_bits_retain(CloneFlags::CLONE_FS));
    assert_eq!(flags.bits(), 0x300);
    assert_eq!(clone_word(flags, Some(17)), 0x311);
    assert_eq!(clone_word(flags, None), 0x300);
    assert_eq!(clone_word(CloneFlags::empty(), None), 0);
    assert!(flags.contains(CloneFlags::from_bits_retain(CloneFlags::CLONE_VM)));
    assert!(!flags.contains(CloneFlags::from_bits_retain(CloneFlags::CLONE_NEWNET)));
}

#[test]
fn clone_flag_values_match_the_kernel() {
    assert_eq!(CloneFlags::CLONE_VM, libc::CLONE_VM);
    assert_eq!(CloneFlags::CLONE_FS, libc::CLONE_FS);
    assert_eq!(CloneFlags::CLONE_FILES, libc::CLONE_FILES);
    assert_eq!(CloneFlags::CLONE_SIGHAND, libc::CLONE_SIGHAND);
    assert_eq!(CloneFlags::CLONE_PTRACE, libc::CLONE_PTRACE);
    assert_eq!(CloneFlags::CLONE_VFORK, libc::CLONE_VFORK);
    assert_eq!(CloneFlags::CLONE_PARENT, libc::CLONE_PARENT);
    assert_eq!(CloneFlags::CLONE_THREAD, libc::CLONE_THREAD);
    assert_eq!(CloneFlags::CLONE_NEWNS, libc::CLONE_NEWNS);
    assert_eq!(CloneFlags::CLONE_SYSVSEM, libc::CLONE_SYSVSEM);
    assert_eq!(CloneFlags::CLONE_DETACHED, libc::CLONE_DETACHED);
    assert_eq!(CloneFlags::CLONE_UNTRACED, libc::CLONE_UNTRACED);
    assert_eq!(CloneFlags::CLONE_NEWCGROUP, libc::CLONE_NEWCGROUP);
    assert_eq!(CloneFlags::CLONE_NEWUTS, libc::CLONE_NEWUTS);
    assert_eq!(CloneFlags::CLONE_NEWIPC, libc::CLONE_NEWIPC);
    assert_eq!(CloneFlags::CLONE_NEWUSER, libc::CLONE_NEWUSER);
    assert_eq!(CloneFlags::CLONE_NEWPID, libc::CLONE_NEWPID);
    assert_eq!(CloneFlags::CLONE_NEWNET, libc::CLONE_NEWNET);
    assert_eq!(CloneFlags::CLONE_IO, libc::CLONE_IO);
}

#[test]
fn stack_top_aligns_down_to_sixteen() {
    assert_eq!(stack_top(0x1000, 0x100), 0x1100);
    assert_eq!(stack_top(0x1001, 0x100), 0x1100);
    assert_eq!(stack_top(0x1003, 0x10c), 0x1100);
    assert_eq!(stack_top(0, 15), 0);
}

#[test]
fn pid_round_trips() {
    assert_eq!(Pid::from_raw(42).as_raw(), 42);
    assert_eq!(Pid::this().as_raw(), 0);
}

#[test]
fn affinity_buffer_fixed_when_cpus_fit() {
    for n in [0i64, 1, 8, 1024] {
        let cs = affinity_buffer(Some(n));
        assert!(matches!(cs, CpuSet::Sized(_)));
        assert_eq!(cs.n_bits(), 1024);
    }
}

#[test]
fn affinity_buffer_dynamic_when_cpus_exceed_or_unknown() {
    let cs = affinity_buffer(Some(1025));
    assert!(matches!(cs, CpuSet::Dynamic(_)));
    assert_eq!(cs.n_bits(), 4096);
    let cs = affinity_buffer(None);
    assert!(matches!(cs, CpuSet::Dynamic(_)));
    assert_eq!(cs.n_bits(), 4096);
    let cs = affinity_buffer(Some(-1));
    assert!(matches!(cs, CpuSet::Dynamic(_)));
}

#[test]
fn affinity_buffer_sized_to_fit_many_cpus() {
    let cs = affinity_buffer(Some(5000));
    assert!(matches!(cs, CpuSet::Dynamic(_)));
    assert_eq!(cs.n_bits(), 5 * 1024);
    assert_eq!(cs.is_set(4999), Ok(false));
    let cs = affinity_buffer(Some(8192));
    assert_eq!(cs.n_bits(), 8 * 1024);
}

#[test]
fn sysconf_result_reads_sentinel() {
    assert_eq!(sysconf_result(8, 0), Ok(Some(8)));
    assert_eq!(sysconf_result(-1, 0), Ok(None));
    assert_eq!(sysconf_result(-1, 22), Err(Errno::from_raw(22)));
}
