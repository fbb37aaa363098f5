use vstd::prelude::*;

verus! {

/// Largest descriptor count a `FdSet` can hold.
pub const FD_SETSIZE: usize = 1024;

/// Descriptor set in the layout `select(2)` expects: one bit per descriptor,
/// 64 descriptors per word.
pub struct FdSet {
    fds_bits: [u64; 16],
}

/// Whether bit `k` of `w` is set.
pub open spec fn word_bit(w: u64, k: int) -> bool {
    (w >> (k as u64)) & 1u64 == 1u64
}

proof fn lemma_or_bit(w: u64, k: u64, j: u64)
    requires
        k < 64,
        j < 64,
    ensures
        ((w | (1u64 << k)) >> j) & 1u64 == 1u64 <==> (((w >> j) & 1u64 == 1u64) || j == k),
{
    assert(((w | (1u64 << k)) >> j) & 1u64 == 1u64 <==> (((w >> j) & 1u64 == 1u64) || j == k))
        by (bit_vector)
        requires
            k < 64,
            j < 64,
    ;
}

proof fn lemma_zero_bit(j: u64)
    requires
        j < 64,
    ensures
        (0u64 >> j) & 1u64 == 0u64,
{
    assert((0u64 >> j) & 1u64 == 0u64) by (bit_vector);
}

impl FdSet {
    /// Whether descriptor `fd` is a member of the set.
    pub closed spec fn contains(&self, fd: int) -> bool {
        0 <= fd < FD_SETSIZE && word_bit(self.fds_bits@[fd / 64], fd % 64)
    }

    /// The empty set.
    pub fn new() -> (r: FdSet)
        ensures
            forall|fd: int| !r.contains(fd),
    {
        let r = FdSet { fds_bits: [0u64; 16] };
        assert forall|fd: int| !r.contains(fd) by {
            if 0 <= fd < FD_SETSIZE {
                assert(r.fds_bits@[fd / 64] == 0u64);
                lemma_zero_bit((fd % 64) as u64);
            }
        }
        r
    }

    /// Membership test, as `FD_ISSET` does it.
    pub fn is_set(&self, fd: i32) -> (r: bool)
        requires
            0 <= fd < FD_SETSIZE,
        ensures
            r == self.contains(fd as int),
    {
        let w = self.fds_bits[(fd / 64) as usize];
        (w >> ((fd % 64) as u64)) & 1u64 == 1u64
    }

    /// The 64-bit words of the set, lowest descriptors first.
    pub fn words(&self) -> (r: [u64; 16])
        ensures
            forall|fd: int|
                0 <= fd < FD_SETSIZE ==> (word_bit(#[trigger] r@[fd / 64], fd % 64)
                    <==> self.contains(fd)),
    {
        self.fds_bits
    }
}

/// Adds descriptor `fd` to `set`, leaving every other member in place.
#[allow(non_snake_case)]
pub fn FdSet(set: &mut FdSet, fd: i32)
    requires
        0 <= fd < FD_SETSIZE,
    ensures
        forall|d: int| final(set).contains(d) <==> (old(set).contains(d) || d == fd as int),
{
    let i = (fd / 64) as usize;
    let k = (fd % 64) as u64;
    let w = set.fds_bits[i];
    let nw = w | (1u64 << k);
    set.fds_bits[i] = nw;
    assert forall|d: int| final(set).contains(d) <==> (old(set).contains(d) || d == fd as int) by {
        if 0 <= d < FD_SETSIZE {
            let j = (d % 64) as u64;
            if d / 64 == i as int {
                lemma_or_bit(w, k, j);
                assert(d == fd as int <==> j == k);
            }
        }
    }
}

} // verus!
