//! Clone flags, process ids, and the computations that surround the
//! scheduling and namespace system calls.
use vstd::prelude::*;

use crate::cpuset::{capacity_for, mask_bits, CpuSet, CpuSetModel, DEFAULT_ALLOC_SIZE};
use crate::errno::Errno;

verus! {

/// Options for `clone`, `unshare` and `setns`: a set of the kernel's flag
/// bits, combined by plain union with no check of the combination.
#[derive(Clone, Copy, Debug, PartialEq, Eq, Hash, Structural)]
pub struct CloneFlags(pub i32);

impl CloneFlags {
    // The bit of each flag, as Linux's <linux/sched.h> defines it.
    /// The calling process and the child run in the same memory space.
    pub const CLONE_VM: i32 = 0x100;
    /// The caller and the child share filesystem information.
    pub const CLONE_FS: i32 = 0x200;
    /// The caller and the child share the file descriptor table.
    pub const CLONE_FILES: i32 = 0x400;
    /// The caller and the child share the table of signal handlers.
    pub const CLONE_SIGHAND: i32 = 0x800;
    /// If the caller is being traced, trace the child too.
    pub const CLONE_PTRACE: i32 = 0x2000;
    /// The caller is suspended until the child releases its memory.
    pub const CLONE_VFORK: i32 = 0x4000;
    /// The child's parent is the caller's parent.
    pub const CLONE_PARENT: i32 = 0x8000;
    /// The child joins the caller's thread group.
    pub const CLONE_THREAD: i32 = 0x10000;
    /// The child starts in a new mount namespace.
    pub const CLONE_NEWNS: i32 = 0x20000;
    /// The caller and the child share System V semaphore adjustments.
    pub const CLONE_SYSVSEM: i32 = 0x40000;
    /// Unused since Linux 2.6.2.
    pub const CLONE_DETACHED: i32 = 0x400000;
    /// A tracer cannot force tracing of the child.
    pub const CLONE_UNTRACED: i32 = 0x800000;
    /// The child starts in a new cgroup namespace.
    pub const CLONE_NEWCGROUP: i32 = 0x0200_0000;
    /// The child starts in a new UTS namespace.
    pub const CLONE_NEWUTS: i32 = 0x0400_0000;
    /// The child starts in a new IPC namespace.
    pub const CLONE_NEWIPC: i32 = 0x0800_0000;
    /// The child starts in a new user namespace.
    pub const CLONE_NEWUSER: i32 = 0x1000_0000;
    /// The child starts in a new PID namespace.
    pub const CLONE_NEWPID: i32 = 0x2000_0000;
    /// The child starts in a new network namespace.
    pub const CLONE_NEWNET: i32 = 0x4000_0000;
    /// The child shares an I/O context with the caller (bit 31).
    pub const CLONE_IO: i32 = i32::MIN;

    /// No flag.
    pub fn empty() -> (r: CloneFlags)
        ensures
            r.0 == 0,
    {
        CloneFlags(0)
    }

    /// The flags whose bits are `bits`, kept as they are.
    pub fn from_bits_retain(bits: i32) -> (r: CloneFlags)
        ensures
            r.0 == bits,
    {
        CloneFlags(bits)
    }

    /// The raw bits.
    pub fn bits(&self) -> (r: i32)
        ensures
            r == self.0,
    {
        self.0
    }

    /// The flags of both `self` and `other`.
    pub fn union(self, other: CloneFlags) -> (r: CloneFlags)
        ensures
            r.0 == self.0 | other.0,
    {
        CloneFlags(self.0 | other.0)
    }

    /// Whether every flag of `other` is in `self`.
    pub fn contains(&self, other: CloneFlags) -> (r: bool)
        ensures
            r == (self.0 & other.0 == other.0),
    {
        self.0 & other.0 == other.0
    }
}

/// The single flag word `clone` hands the kernel: the flags with the
/// termination signal in their low bits.
pub open spec fn clone_word_of(flags: CloneFlags, signal: Option<i32>) -> i32 {
    flags.0 | match signal {
        Some(s) => s,
        None => 0i32,
    }
}

/// Combines `flags` and the optional termination signal into one word.
pub fn clone_word(flags: CloneFlags, signal: Option<i32>) -> (r: i32)
    ensures
        r == clone_word_of(flags, signal),
{
    let s: i32 = match signal {
        Some(s) => s,
        None => 0,
    };
    flags.0 | s
}

/// The top of a stack that occupies `len` bytes from address `addr`: the
/// highest 16-byte aligned address not above the buffer's end.
pub fn stack_top(addr: usize, len: usize) -> (r: usize)
    requires
        addr + len <= usize::MAX,
    ensures
        r % 16 == 0,
        r <= addr + len,
        addr + len - r < 16,
{
    let end = addr + len;
    end - end % 16
}

/// An identifier of a process or thread; zero names the caller.
#[derive(Clone, Copy, Debug, PartialEq, Eq, Hash, Structural)]
pub struct Pid {
    pub raw: i32,
}

impl Pid {
    /// The id `raw`.
    pub fn from_raw(raw: i32) -> (r: Pid)
        ensures
            r.raw == raw,
    {
        Pid { raw }
    }

    /// The calling process or thread.
    pub fn this() -> (r: Pid)
        ensures
            r.raw == 0,
    {
        Pid { raw: 0 }
    }

    /// The raw id.
    pub fn as_raw(&self) -> (r: i32)
        ensures
            r == self.raw,
    {
        self.raw
    }
}

/// Masks a dynamic affinity buffer needs for `n_online` processors: the
/// default, or enough to address each of them when that is more.
pub open spec fn buffer_masks(n_online: i64) -> nat {
    if n_online > DEFAULT_ALLOC_SIZE * mask_bits() && capacity_for((n_online - 1) as nat)
        <= usize::MAX {
        capacity_for((n_online - 1) as nat) / mask_bits()
    } else {
        DEFAULT_ALLOC_SIZE as nat
    }
}

/// The empty set that `sched_getaffinity` fills, given the number of online
/// processors (`None` where the system does not tell): a fixed set where
/// that many fit in one, else a dynamic one sized to address them all.
pub open spec fn affinity_buffer_model(n_online: Option<i64>) -> CpuSetModel {
    match n_online {
        Some(n) => if 0 <= n <= mask_bits() {
            CpuSetModel::empty_fixed()
        } else {
            CpuSetModel::empty_dynamic(buffer_masks(n))
        },
        None => CpuSetModel::empty_dynamic(DEFAULT_ALLOC_SIZE as nat),
    }
}

/// Creates the empty set that `sched_getaffinity` hands the kernel to fill.
pub fn affinity_buffer(n_online: Option<i64>) -> (r: CpuSet)
    ensures
        r.wf(),
        r@ == affinity_buffer_model(n_online),
{
    match n_online {
        Some(n) => {
            if 0 <= n && n <= 1024 {
                CpuSet::new()
            } else {
                let mut cs = CpuSet::new_dynamic();
                if n > 4096 && ((n - 1) as u64) <= (usize::MAX as u64) - 1024 {
                    let last = (n - 1) as usize;
                    assert(capacity_for(last as nat) <= last + 1024);
                    let _ = cs.unset(last);
                    assert(cs@ =~= CpuSetModel::empty_dynamic(buffer_masks(n)));
                }
                cs
            }
        },
        None => CpuSet::new_dynamic(),
    }
}

/// Interprets the raw result of `sched_getcpu`: a negative value yields the
/// error `last`, any other is the CPU id.
pub fn getcpu_result(res: i32, last: i32) -> (r: Result<usize, Errno>)
    ensures
        r == (if res < 0 {
            Err::<usize, Errno>(Errno { code: last })
        } else {
            Ok::<usize, Errno>(res as usize)
        }),
{
    match Errno::result(res, last) {
        Ok(cpu) => Ok(cpu as usize),
        Err(e) => Err(e),
    }
}


/// Interprets the raw result of `sysconf`: `-1` with errno `last` zero means
/// the system sets no value (`None`), `-1` with another errno is that error,
/// and any other value is the setting.
pub fn sysconf_result(res: i64, last: i32) -> (r: Result<Option<i64>, Errno>)
    ensures
        r == (if res != -1 {
            Ok::<Option<i64>, Errno>(Some(res))
        } else if last == 0 {
            Ok::<Option<i64>, Errno>(None)
        } else {
            Err::<Option<i64>, Errno>(Errno { code: last })
        }),
{
    if res != -1 {
        Ok(Some(res))
    } else if last == 0 {
        Ok(None)
    } else {
        Err(Errno::from_raw(last))
    }
}

} // verus!
