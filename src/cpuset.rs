//! CPU affinity masks: a fixed-size set of the C library's width, or a
//! dynamic set that grows by whole masks as CPUs are named.
use vstd::prelude::*;

use crate::errno::{einval_code, Errno};

verus! {

/// Bits in one mask: the width of libc's `cpu_set_t` on Linux.
pub open spec fn mask_bits() -> nat {
    1024
}

/// Bit `b` of the word `w`.
pub open spec fn word_bit(w: u64, b: u64) -> bool {
    (w >> b) & 1u64 == 1u64
}

/// Relies on core::mem::size_of of libc::cpu_set_t: 128 bytes on Linux
/// (`[u64; 16]`, or `[u32; 32]` on 32-bit targets).
#[verifier::external_body]
fn libc_cpu_set_size() -> (r: usize)
    ensures
        r == 128,
{
    core::mem::size_of::<libc::cpu_set_t>()
}

/// Number of CPUs that one C `cpu_set_t` can hold.
pub fn libc_cpu_set_bits_len() -> (r: usize)
    ensures
        r == mask_bits(),
{
    libc_cpu_set_size() * 8
}

proof fn lemma_zero_word_bit(b: u64)
    requires
        b < 64,
    ensures
        !word_bit(0u64, b),
{
    assert((0u64 >> b) & 1u64 != 1u64) by (bit_vector)
        requires
            b < 64,
    ;
}

proof fn lemma_or_word_bit(w: u64, b: u64, j: u64)
    requires
        b < 64,
        j < 64,
    ensures
        word_bit(w | (1u64 << b), j) == (j == b || word_bit(w, j)),
{
    assert((((w | (1u64 << b)) >> j) & 1u64 == 1u64) == (j == b || (w >> j) & 1u64 == 1u64))
        by (bit_vector)
        requires
            b < 64,
            j < 64,
    ;
}

proof fn lemma_and_not_word_bit(w: u64, b: u64, j: u64)
    requires
        b < 64,
        j < 64,
    ensures
        word_bit(w & !(1u64 << b), j) == (j != b && word_bit(w, j)),
{
    assert((((w & !(1u64 << b)) >> j) & 1u64 == 1u64) == (j != b && (w >> j) & 1u64 == 1u64))
        by (bit_vector)
        requires
            b < 64,
            j < 64,
    ;
}

/// One mask of `mask_bits()` CPUs, laid out as the C library lays out a
/// `cpu_set_t`: CPU `i` is bit `i % 64` of word `i / 64`.
#[derive(Clone, Copy, Debug, PartialEq, Eq, Hash)]
pub struct CpuMask {
    words: [u64; 16],
}

impl View for CpuMask {
    type V = Seq<bool>;

    closed spec fn view(&self) -> Seq<bool> {
        Seq::new(mask_bits(), |i: int| word_bit(self.words@[i / 64], (i % 64) as u64))
    }
}

impl CpuMask {
    /// A mask with no CPU in it.
    pub fn empty() -> (r: CpuMask)
        ensures
            r@ == Seq::new(mask_bits(), |i: int| false),
    {
        let r = CpuMask { words: [0u64; 16] };
        assert forall|i: int| 0 <= i < mask_bits() implies !r@[i] by {
            lemma_zero_word_bit((i % 64) as u64);
        }
        assert(r@ =~= Seq::new(mask_bits(), |i: int| false));
        r
    }

    /// Whether `cpu` is in the mask.
    pub fn test(&self, cpu: usize) -> (r: bool)
        requires
            cpu < mask_bits(),
        ensures
            r == self@[cpu as int],
    {
        (self.words[cpu / 64] >> ((cpu % 64) as u64)) & 1u64 == 1u64
    }

    /// Puts `cpu` in the mask (`value` true) or takes it out.
    pub fn put(&mut self, cpu: usize, value: bool)
        requires
            cpu < mask_bits(),
        ensures
            final(self)@ == old(self)@.update(cpu as int, value),
    {
        let k = cpu / 64;
        let b = (cpu % 64) as u64;
        let w = self.words[k];
        let nw = if value {
            w | (1u64 << b)
        } else {
            w & !(1u64 << b)
        };
        self.words[k] = nw;
        assert forall|i: int| 0 <= i < mask_bits() implies #[trigger] self@[i] == old(self)@.update(
            cpu as int,
            value,
        )[i] by {
            if i / 64 == k {
                if value {
                    lemma_or_word_bit(w, b, (i % 64) as u64);
                } else {
                    lemma_and_not_word_bit(w, b, (i % 64) as u64);
                }
            }
        }
        assert(self@ =~= old(self)@.update(cpu as int, value));
    }
}


/// What a CPU set stands for: whether it grows on demand, and one flag per
/// CPU it can address (its length is the capacity in bits).
#[verifier::ext_equal]
pub struct CpuSetModel {
    pub dynamic: bool,
    pub bits: Seq<bool>,
}

/// Bits needed to address CPU `field`, rounded up to whole masks.
pub open spec fn capacity_for(field: nat) -> nat {
    (field / mask_bits() + 1) * mask_bits()
}

impl CpuSetModel {
    /// A fixed set with no CPU in it.
    pub open spec fn empty_fixed() -> CpuSetModel {
        CpuSetModel { dynamic: false, bits: Seq::new(mask_bits(), |i: int| false) }
    }

    /// A dynamic set of `n_masks` masks with no CPU in it.
    pub open spec fn empty_dynamic(n_masks: nat) -> CpuSetModel {
        CpuSetModel { dynamic: true, bits: Seq::new(n_masks * mask_bits(), |i: int| false) }
    }

    /// Whether `field` may be read or written: a fixed set refuses CPUs
    /// beyond its capacity, a dynamic one takes any.
    pub open spec fn accepts(self, field: nat) -> bool {
        self.dynamic || field < self.bits.len()
    }

    /// Whether `field` is in the set; CPUs beyond a dynamic set's capacity are not.
    pub open spec fn contains(self, field: nat) -> bool {
        field < self.bits.len() && self.bits[field as int]
    }

    pub open spec fn is_set_result(self, field: nat) -> Result<bool, Errno> {
        if self.accepts(field) {
            Ok(self.contains(field))
        } else {
            Err(Errno { code: einval_code() })
        }
    }

    pub open spec fn write_result(self, field: nat) -> Result<(), Errno> {
        if self.accepts(field) {
            Ok(())
        } else {
            Err(Errno { code: einval_code() })
        }
    }

    /// The flags extended with absent CPUs up to `n` bits, never shrunk.
    pub open spec fn grown(self, n: nat) -> Seq<bool> {
        Seq::new(
            if n > self.bits.len() { n } else { self.bits.len() },
            |i: int| i < self.bits.len() && self.bits[i],
        )
    }

    /// The set after CPU `field` is put in (`value` true) or taken out.
    pub open spec fn after_write(self, field: nat, value: bool) -> CpuSetModel {
        if !self.accepts(field) {
            self
        } else if self.dynamic {
            CpuSetModel {
                dynamic: true,
                bits: self.grown(capacity_for(field)).update(field as int, value),
            }
        } else {
            CpuSetModel { dynamic: false, bits: self.bits.update(field as int, value) }
        }
    }
}

/// The flags of a sequence of masks laid end to end.
pub open spec fn masks_bits(masks: Seq<CpuMask>) -> Seq<bool> {
    Seq::new(
        masks.len() * mask_bits(),
        |i: int| masks[i / mask_bits() as int]@[i % mask_bits() as int],
    )
}

/// A set of CPUs, as handed to and taken from the affinity system calls.
#[derive(Clone, Debug, PartialEq, Eq, Hash)]
pub enum CpuSet {
    /// One mask of the C library's width.
    Sized(CpuMask),
    /// Any number of masks, grown as CPUs beyond them are named.
    Dynamic(Vec<CpuMask>),
}

impl View for CpuSet {
    type V = CpuSetModel;

    open spec fn view(&self) -> CpuSetModel {
        match self {
            CpuSet::Sized(m) => CpuSetModel { dynamic: false, bits: m@ },
            CpuSet::Dynamic(v) => CpuSetModel { dynamic: true, bits: masks_bits(v@) },
        }
    }
}

/// Masks a dynamic set starts with.
pub const DEFAULT_ALLOC_SIZE: usize = 4;

impl CpuSet {
    /// The capacity in bits fits in a `usize`.
    pub open spec fn wf(&self) -> bool {
        self@.bits.len() <= usize::MAX
    }

    /// Creates a new and empty fixed-size set.
    pub fn new() -> (r: CpuSet)
        ensures
            r@ == CpuSetModel::empty_fixed(),
            r.wf(),
    {
        CpuSet::Sized(CpuMask::empty())
    }

    /// Creates a new and empty dynamic set of `DEFAULT_ALLOC_SIZE` masks.
    pub fn new_dynamic() -> (r: CpuSet)
        ensures
            r@ == CpuSetModel::empty_dynamic(DEFAULT_ALLOC_SIZE as nat),
            r.wf(),
    {
        let mut v: Vec<CpuMask> = Vec::new();
        grow_masks(&mut v, DEFAULT_ALLOC_SIZE);
        let r = CpuSet::Dynamic(v);
        assert(r@ =~= CpuSetModel::empty_dynamic(DEFAULT_ALLOC_SIZE as nat));
        r
    }

    /// Number of bytes of the mask handed to the kernel.
    pub fn n_bytes(&self) -> (r: usize)
        requires
            self.wf(),
        ensures
            r as nat * 8 == self@.bits.len(),
    {
        let size = libc_cpu_set_size();
        match self {
            CpuSet::Sized(_) => size,
            CpuSet::Dynamic(v) => v.len() * size,
        }
    }

    /// Maximum number of CPUs the set can address without growing.
    pub fn n_bits(&self) -> (r: usize)
        requires
            self.wf(),
        ensures
            r == self@.bits.len(),
    {
        let bits = libc_cpu_set_bits_len();
        match self {
            CpuSet::Sized(_) => bits,
            CpuSet::Dynamic(v) => v.len() * bits,
        }
    }

    /// Tests whether CPU `field` is in the set. A fixed set refuses a CPU
    /// beyond its capacity with the invalid-argument error.
    pub fn is_set(&self, field: usize) -> (r: Result<bool, Errno>)
        requires
            self.wf(),
        ensures
            r == self@.is_set_result(field as nat),
    {
        let bits = libc_cpu_set_bits_len();
        match self {
            CpuSet::Sized(m) => {
                if field >= bits {
                    Err(Errno::einval())
                } else {
                    Ok(m.test(field))
                }
            },
            CpuSet::Dynamic(v) => {
                let k = field / bits;
                if k < v.len() {
                    Ok(v[k].test(field % bits))
                } else {
                    Ok(false)
                }
            },
        }
    }

    /// Adds CPU `field` to the set; a dynamic set first grows to cover it.
    pub fn set(&mut self, field: usize) -> (r: Result<(), Errno>)
        requires
            old(self).wf(),
            old(self)@.dynamic ==> capacity_for(field as nat) <= usize::MAX,
        ensures
            r == old(self)@.write_result(field as nat),
            final(self)@ == old(self)@.after_write(field as nat, true),
            final(self).wf(),
    {
        self.write(field, true)
    }

    /// Removes CPU `field` from the set; a dynamic set first grows to cover it.
    pub fn unset(&mut self, field: usize) -> (r: Result<(), Errno>)
        requires
            old(self).wf(),
            old(self)@.dynamic ==> capacity_for(field as nat) <= usize::MAX,
        ensures
            r == old(self)@.write_result(field as nat),
            final(self)@ == old(self)@.after_write(field as nat, false),
            final(self).wf(),
    {
        self.write(field, false)
    }

    fn write(&mut self, field: usize, value: bool) -> (r: Result<(), Errno>)
        requires
            old(self).wf(),
            old(self)@.dynamic ==> capacity_for(field as nat) <= usize::MAX,
        ensures
            r == old(self)@.write_result(field as nat),
            final(self)@ == old(self)@.after_write(field as nat, value),
            final(self).wf(),
    {
        let bits = libc_cpu_set_bits_len();
        match self {
            CpuSet::Sized(m) => {
                if field >= bits {
                    return Err(Errno::einval());
                }
                m.put(field, value);
                Ok(())
            },
            CpuSet::Dynamic(v) => {
                let ghost before = masks_bits(v@);
                let k = field / bits;
                grow_masks(v, k + 1);
                let ghost grown = masks_bits(v@);
                let mut m = v[k];
                m.put(field % bits, value);
                v.set(k, m);
                assert forall|i: int| 0 <= i < grown.len() implies #[trigger] masks_bits(v@)[i]
                    == grown.update(field as int, value)[i] by {
                    if i / 1024 == k as int {
                        assert(i == 1024 * (i / 1024) + i % 1024);
                        assert(field == 1024 * (field / 1024) + field % 1024);
                    }
                }
                assert(masks_bits(v@) =~= grown.update(field as int, value));
                Ok(())
            },
        }
    }
}

impl Default for CpuSet {
    /// An empty fixed-size set.
    fn default() -> (r: CpuSet)
        ensures
            r@ == CpuSetModel::empty_fixed(),
            r.wf(),
    {
        CpuSet::new()
    }
}

/// Appends empty masks to `v` until it holds at least `n` of them.
fn grow_masks(v: &mut Vec<CpuMask>, n: usize)
    requires
        n * mask_bits() <= usize::MAX || old(v).len() >= n,
        old(v).len() * mask_bits() <= usize::MAX,
    ensures
        final(v).len() == if n > old(v).len() { n } else { old(v).len() },
        masks_bits(final(v)@) == (CpuSetModel { dynamic: true, bits: masks_bits(old(v)@) }).grown(
            n as nat * mask_bits(),
        ),
{
    let ghost start = masks_bits(v@);
    while v.len() < n
        invariant
            n * mask_bits() <= usize::MAX || start.len() >= n * mask_bits(),
            start.len() <= v.len() * mask_bits(),
            v.len() * mask_bits() <= usize::MAX,
            start.len() == old(v).len() * mask_bits(),
            v.len() == old(v).len() || v.len() <= n,
            v.len() >= old(v).len(),
            masks_bits(v@) =~= Seq::new(
                (v.len() * mask_bits()) as nat,
                |i: int| i < start.len() && start[i],
            ),
        decreases n - v.len(),
    {
        let ghost prev = v@;
        v.push(CpuMask::empty());
        assert forall|i: int| 0 <= i < v.len() * mask_bits() implies #[trigger] masks_bits(v@)[i]
            == (i < start.len() && start[i]) by {
            if i / 1024 < prev.len() {
                assert(masks_bits(prev)[i] == masks_bits(v@)[i]);
            }
        }
        assert(masks_bits(v@) =~= Seq::new(
            (v.len() * mask_bits()) as nat,
            |i: int| i < start.len() && start[i],
        ));
    }
    assert(masks_bits(v@) =~= (CpuSetModel { dynamic: true, bits: start }).grown(
        n as nat * mask_bits(),
    ));
}


/// A freshly created fixed set lacks every CPU it can address; once a CPU is
/// set it is present, and once unset again it is absent.
pub proof fn lemma_fixed_set_then_unset(field: nat)
    requires
        field < CpuSetModel::empty_fixed().bits.len(),
    ensures
        CpuSetModel::empty_fixed().is_set_result(field) == Ok::<bool, Errno>(false),
        CpuSetModel::empty_fixed().after_write(field, true).is_set_result(field) == Ok::<
            bool,
            Errno,
        >(true),
        CpuSetModel::empty_fixed().after_write(field, true).after_write(
            field,
            false,
        ).is_set_result(field) == Ok::<bool, Errno>(false),
{
}

/// On a fixed set, a CPU at or beyond its capacity is refused by `is_set`,
/// `set` and `unset` with the invalid-argument error, and the set is left as
/// it was.
pub proof fn lemma_fixed_out_of_range(s: CpuSetModel, field: nat, value: bool)
    requires
        !s.dynamic,
        field >= s.bits.len(),
    ensures
        s.is_set_result(field) == Err::<bool, Errno>(Errno { code: einval_code() }),
        s.write_result(field) == Err::<(), Errno>(Errno { code: einval_code() }),
        s.after_write(field, value) == s,
{
}

/// On a dynamic set, setting any CPU succeeds, grows the set to address at
/// least `field + 1` CPUs, keeps it dynamic, and makes the CPU present.
pub proof fn lemma_dynamic_set_grows(s: CpuSetModel, field: nat)
    requires
        s.dynamic,
    ensures
        s.write_result(field) == Ok::<(), Errno>(()),
        s.after_write(field, true).dynamic,
        s.after_write(field, true).bits.len() >= field + 1,
        s.after_write(field, true).is_set_result(field) == Ok::<bool, Errno>(true),
{
    assert(capacity_for(field) >= field + 1);
}

} // verus!
