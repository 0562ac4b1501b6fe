//! Host-delegated memory: the allocator and the bulk-memory primitives.
//!
//! The sandbox has no native heap.  Every allocation is a round trip to the
//! host, which keeps all bookkeeping; the guest only holds addresses.  The
//! bulk primitives (copy, overlap-safe move, fill, byte-wise compare,
//! equality compare, terminator scan) are likewise host work.  This module
//! states and checks what the host promises of them: `HostHeap` is the
//! host-side bookkeeping (blocks exclusively owned, pairwise disjoint, null
//! address as the failure sentinel), and the bulk operations give the exact
//! effect on the bytes.

use vstd::prelude::*;
use vstd::slice::slice_subrange;

verus! {

/// The null-address sentinel for a failed allocation.  It must never be
/// dereferenced; the caller checks it explicitly.
pub const ALLOC_FAILED: usize = 0;

/// One host-side memory block: its address and its bytes, exclusively owned
/// by the requester until released.
pub struct MemoryBlock {
    pub addr: usize,
    pub data: Vec<u8>,
}

/// The host side of the allocation protocol.  Blocks live at nonzero,
/// pairwise-disjoint, monotonically growing addresses.
pub struct HostHeap {
    pub next: usize,
    pub blocks: Vec<MemoryBlock>,
}

impl HostHeap {
    /// The bookkeeping as the contracts see it: one (address, bytes) pair per
    /// live block, in allocation order.
    pub open spec fn view(&self) -> Seq<(usize, Seq<u8>)> {
        self.blocks@.map_values(|b: MemoryBlock| (b.addr, b.data@))
    }

    /// Well-formed host bookkeeping: every block is at a nonzero address,
    /// ends at or before the allocation frontier, and blocks are disjoint
    /// because they sit in strictly increasing address order.
    pub open spec fn wf(&self) -> bool {
        &&& 1 <= self.next
        &&& forall|i: int|
            0 <= i < self@.len() ==> 1 <= #[trigger] self@[i].0 && 1 <= self@[i].1.len()
                && self@[i].0 + self@[i].1.len() <= self.next
        &&& forall|i: int, j: int|
            0 <= i < j < self@.len() ==> #[trigger] self@[i].0 + self@[i].1.len()
                <= #[trigger] self@[j].0
    }

    /// Whether `addr` is the address of a live block.
    pub open spec fn spec_is_live(&self, addr: usize) -> bool {
        exists|i: int| 0 <= i < self@.len() && #[trigger] self@[i].0 == addr
    }

    /// An empty host heap; the frontier starts past the null sentinel.
    pub fn new() -> (h: HostHeap)
        ensures
            h.wf(),
            h@ =~= Seq::<(usize, Seq<u8>)>::empty(),
            h.next == 1,
    {
        HostHeap { next: 1, blocks: Vec::new() }
    }

    /// `allocate(size, align) -> address | failure sentinel`.  On success the
    /// fresh block is disjoint from every live one, aligned as asked, and
    /// exclusively the caller's; the host hands it back zero-filled.
    pub fn allocate(&mut self, size: usize, align: usize) -> (r: usize)
        requires
            old(self).wf(),
            1 <= align,
        ensures
            final(self).wf(),
            r == ALLOC_FAILED ==> final(self)@ == old(self)@,
            r != ALLOC_FAILED ==> final(self)@ =~= old(self)@.push((r, Seq::new(size as nat, |t: int| 0u8)))
                && r as int % align as int == 0 && !old(self).spec_is_live(r)
                && final(self).spec_is_live(r),
    {
        if size == 0 {
            return ALLOC_FAILED;
        }
        let rem = self.next % align;
        let pad = if rem == 0 {
            0
        } else {
            align - rem
        };
        if self.next > usize::MAX - pad {
            return ALLOC_FAILED;
        }
        let base = self.next + pad;
        if base > usize::MAX - size {
            return ALLOC_FAILED;
        }
        proof {
            let a = align as int;
            let nx = self.next as int;
            vstd::arithmetic::div_mod::lemma_fundamental_div_mod(nx, a);
            if nx % a == 0 {
                assert(base as int == a * (nx / a) + 0);
                vstd::arithmetic::div_mod::lemma_mod_multiples_basic(nx / a, a);
            } else {
                let q = nx / a;
                assert(a * (q + 1) == a * q + a) by (nonlinear_arith);
                assert(base as int == a * (q + 1));
                vstd::arithmetic::div_mod::lemma_mod_multiples_basic(q + 1, a);
            }
        }
        let mut data: Vec<u8> = Vec::new();
        let mut z: usize = 0;
        while z < size
            invariant
                z <= size,
                data@ =~= Seq::new(z as nat, |t: int| 0u8),
                self == old(self),
            decreases size - z,
        {
            data.push(0u8);
            proof {
                assert(data@ =~= Seq::new((z + 1) as nat, |t: int| 0u8));
            }
            z = z + 1;
        }
        proof {
            assert(data@ =~= Seq::new(size as nat, |t: int| 0u8));
            assert forall|i: int| 0 <= i < old(self)@.len() implies #[trigger] old(
                self,
            )@[i].0 != base by {
                assert(old(self)@[i].0 + old(self)@[i].1.len() <= old(self).next);
            }
        }
        self.blocks.push(MemoryBlock { addr: base, data });
        self.next = base + size;
        proof {
            assert(self@ =~= old(self)@.push((base, Seq::new(size as nat, |t: int| 0u8))));
            assert(self@[self@.len() - 1].0 == base);
        }
        base
    }

    /// `allocate_zeroed(size) -> address`: allocation with the host's default
    /// machine-word alignment, zero-filled.
    pub fn allocate_zeroed(&mut self, size: usize) -> (r: usize)
        requires
            old(self).wf(),
        ensures
            final(self).wf(),
            r == ALLOC_FAILED ==> final(self)@ == old(self)@,
            r != ALLOC_FAILED ==> final(self)@ =~= old(self)@.push((r, Seq::new(size as nat, |t: int| 0u8)))
                && !old(self).spec_is_live(r),
    {
        self.allocate(size, 1)
    }

    /// Index of the live block at `addr`, or the length when none is.
    fn find_block(&self, addr: usize) -> (r: usize)
        ensures
            r < self@.len() ==> self@[r as int].0 == addr,
            r == self@.len() ==> !self.spec_is_live(addr),
            r <= self@.len(),
    {
        let mut i: usize = 0;
        while i < self.blocks.len()
            invariant
                i <= self@.len(),
                forall|k: int| 0 <= k < i ==> #[trigger] self@[k].0 != addr,
            decreases self@.len() - i,
        {
            if self.blocks[i].addr == addr {
                return i;
            }
            i = i + 1;
        }
        i
    }

    /// `deallocate(address)`: releases the block; an address that owns no
    /// live block is a host-defined no-op.
    pub fn deallocate(&mut self, addr: usize)
        requires
            old(self).wf(),
        ensures
            final(self).wf(),
            !old(self).spec_is_live(addr) ==> final(self)@ == old(self)@,
            old(self).spec_is_live(addr) ==> exists|i: int|
                0 <= i < old(self)@.len() && old(self)@[i].0 == addr && final(self)@ =~= old(
                    self,
                )@.remove(i),
    {
        let i = self.find_block(addr);
        if i < self.blocks.len() {
            self.blocks.remove(i);
            proof {
                assert(self@ =~= old(self)@.remove(i as int));
            }
        }
    }

    /// `reallocate(address, new_size) -> address`: a fresh block whose bytes
    /// agree with the old one up to `min(old, new)` (zero-filled past it),
    /// the old block released; the old bookkeeping stands on failure.
    pub fn reallocate(&mut self, addr: usize, new_size: usize) -> (r: usize)
        requires
            old(self).wf(),
        ensures
            final(self).wf(),
            r == ALLOC_FAILED ==> final(self)@ == old(self)@,
            r != ALLOC_FAILED ==> exists|i: int|
                0 <= i < old(self)@.len() && #[trigger] old(self)@[i].0 == addr && {
                    let old_data = old(self)@[i].1;
                    &&& final(self)@.len() == old(self)@.len()
                    &&& final(self)@ =~= old(self)@.remove(i).push((r, final(self)@.last().1))
                    &&& final(self)@.last().1.len() == new_size
                    &&& forall|k: int|
                        0 <= k < new_size && k < old_data.len() ==> final(self)@.last().1[k]
                            == old_data[k]
                },
    {
        let i = self.find_block(addr);
        if i >= self.blocks.len() || new_size == 0 {
            return ALLOC_FAILED;
        }
        if self.next > usize::MAX - new_size {
            return ALLOC_FAILED;
        }
        let base = self.next;
        let mut data: Vec<u8> = Vec::new();
        let mut k: usize = 0;
        while k < new_size
            invariant
                i < self@.len(),
                data@.len() == k,
                k <= new_size,
                forall|t: int|
                    0 <= t < k ==> #[trigger] data@[t] == if t < self@[i as int].1.len() {
                        self@[i as int].1[t]
                    } else {
                        0u8
                    },
                self == old(self),
            decreases new_size - k,
        {
            if k < self.blocks[i].data.len() {
                let b = self.blocks[i].data[k];
                data.push(b);
            } else {
                data.push(0u8);
            }
            k = k + 1;
        }
        let ghost new_data = data@;
        self.blocks.remove(i);
        self.blocks.push(MemoryBlock { addr: base, data });
        self.next = base + new_size;
        proof {
            assert(self@ =~= old(self)@.remove(i as int).push((base, new_data)));
            assert(self@.last().1 =~= new_data);
        }
        base
    }
}

/// Copies `n` bytes of `src` starting at `src_off` into `dst` starting at
/// `dst_off` (distinct buffers, so never overlapping).
pub fn mem_copy(dst: &mut Vec<u8>, dst_off: usize, src: &[u8], src_off: usize, n: usize)
    requires
        dst_off + n <= old(dst)@.len(),
        src_off + n <= src@.len(),
    ensures
        final(dst)@.len() == old(dst)@.len(),
        forall|i: int|
            dst_off <= i < dst_off + n ==> #[trigger] final(dst)@[i] == src@[i - dst_off + src_off],
        forall|i: int|
            0 <= i < final(dst)@.len() && !(dst_off <= i < dst_off + n) ==> #[trigger] final(dst)@[i] == old(
                dst,
            )@[i],
{
    let dcap = dst.len();
    let scap = src.len();
    let mut k: usize = 0;
    while k < n
        invariant
            dst@.len() <= usize::MAX,
            src@.len() <= usize::MAX,
            dst_off + n <= dst@.len(),
            src_off + n <= src@.len(),
            dst@.len() == old(dst)@.len(),
            k <= n,
            forall|i: int|
                dst_off <= i < dst_off + k ==> #[trigger] dst@[i] == src@[i - dst_off + src_off],
            forall|i: int|
                0 <= i < dst@.len() && !(dst_off <= i < dst_off + k) ==> #[trigger] dst@[i] == old(
                    dst,
                )@[i],
        decreases n - k,
    {
        dst[dst_off + k] = src[src_off + k];
        k = k + 1;
    }
}

/// Fills `n` bytes of `dst` starting at `off` with `val`.
pub fn mem_set(dst: &mut Vec<u8>, off: usize, val: u8, n: usize)
    requires
        off + n <= old(dst)@.len(),
    ensures
        final(dst)@.len() == old(dst)@.len(),
        forall|i: int| off <= i < off + n ==> #[trigger] final(dst)@[i] == val,
        forall|i: int|
            0 <= i < final(dst)@.len() && !(off <= i < off + n) ==> #[trigger] final(dst)@[i] == old(dst)@[i],
{
    let dcap = dst.len();
    let mut k: usize = 0;
    while k < n
        invariant
            dst@.len() <= usize::MAX,
            off + n <= dst@.len(),
            dst@.len() == old(dst)@.len(),
            k <= n,
            forall|i: int| off <= i < off + k ==> #[trigger] dst@[i] == val,
            forall|i: int|
                0 <= i < dst@.len() && !(off <= i < off + k) ==> #[trigger] dst@[i] == old(
                    dst,
                )@[i],
        decreases n - k,
    {
        dst[off + k] = val;
        k = k + 1;
    }
}

/// Moves `n` bytes within one buffer from `src_off` to `dst_off`; safe when
/// the two regions overlap, as the host's move primitive promises.
pub fn mem_move(buf: &mut Vec<u8>, dst_off: usize, src_off: usize, n: usize)
    requires
        dst_off + n <= old(buf)@.len(),
        src_off + n <= old(buf)@.len(),
    ensures
        final(buf)@.len() == old(buf)@.len(),
        forall|i: int|
            dst_off <= i < dst_off + n ==> #[trigger] final(buf)@[i] == old(buf)@[i - dst_off + src_off],
        forall|i: int|
            0 <= i < final(buf)@.len() && !(dst_off <= i < dst_off + n) ==> #[trigger] final(buf)@[i] == old(
                buf,
            )@[i],
{
    let bcap = buf.len();
    if dst_off <= src_off {
        let mut k: usize = 0;
        while k < n
            invariant
                buf@.len() <= usize::MAX,
                dst_off <= src_off,
                dst_off + n <= buf@.len(),
                src_off + n <= buf@.len(),
                buf@.len() == old(buf)@.len(),
                k <= n,
                forall|i: int|
                    dst_off <= i < dst_off + k ==> #[trigger] buf@[i] == old(buf)@[i - dst_off
                        + src_off],
                forall|i: int|
                    0 <= i < buf@.len() && !(dst_off <= i < dst_off + k) ==> #[trigger] buf@[i]
                        == old(buf)@[i],
            decreases n - k,
        {
            let b = buf[src_off + k];
            buf[dst_off + k] = b;
            k = k + 1;
        }
    } else {
        let mut k: usize = n;
        while k > 0
            invariant
                buf@.len() <= usize::MAX,
                dst_off > src_off,
                dst_off + n <= buf@.len(),
                src_off + n <= buf@.len(),
                buf@.len() == old(buf)@.len(),
                k <= n,
                forall|i: int|
                    dst_off + k <= i < dst_off + n ==> #[trigger] buf@[i] == old(buf)@[i - dst_off
                        + src_off],
                forall|i: int|
                    0 <= i < buf@.len() && !(dst_off + k <= i < dst_off + n) ==> #[trigger] buf@[i]
                        == old(buf)@[i],
            decreases k,
        {
            k = k - 1;
            let b = buf[src_off + k];
            buf[dst_off + k] = b;
        }
    }
}

/// Sign of the first differing byte among the first `n` of each buffer:
/// negative, zero or positive as the byte-wise compare primitive reports it.
pub fn mem_cmp(a: &[u8], b: &[u8], n: usize) -> (r: i32)
    requires
        n <= a@.len(),
        n <= b@.len(),
    ensures
        r == 0 <==> a@.subrange(0, n as int) == b@.subrange(0, n as int),
        r < 0 <==> exists|i: int|
            0 <= i < n && #[trigger] a@[i] < b@[i] && (forall|j: int|
                0 <= j < i ==> #[trigger] a@[j] == b@[j]),
        r > 0 <==> exists|i: int|
            0 <= i < n && #[trigger] a@[i] > b@[i] && (forall|j: int|
                0 <= j < i ==> #[trigger] a@[j] == b@[j]),
{
    let mut k: usize = 0;
    while k < n
        invariant
            n <= a@.len(),
            n <= b@.len(),
            k <= n,
            forall|j: int| 0 <= j < k ==> #[trigger] a@[j] == b@[j],
        decreases n - k,
    {
        if a[k] < b[k] {
            proof {
                assert(a@[k as int] < b@[k as int]);
                assert(a@.subrange(0, n as int)[k as int] != b@.subrange(0, n as int)[k as int]);
            }
            return -1;
        }
        if a[k] > b[k] {
            proof {
                assert(a@[k as int] > b@[k as int]);
                assert(a@.subrange(0, n as int)[k as int] != b@.subrange(0, n as int)[k as int]);
            }
            return 1;
        }
        k = k + 1;
    }
    proof {
        assert(a@.subrange(0, n as int) =~= b@.subrange(0, n as int));
        assert forall|i: int| 0 <= i < n implies !(#[trigger] a@[i] < b@[i]) by {
            assert(a@[i] == b@[i]);
        }
        assert forall|i: int| 0 <= i < n implies !(#[trigger] a@[i] > b@[i]) by {
            assert(a@[i] == b@[i]);
        }
    }
    0
}

/// Whether the first `n` bytes of the two buffers agree (the equality-compare
/// primitive: only the verdict, no sign).
pub fn mem_eq(a: &[u8], b: &[u8], n: usize) -> (r: bool)
    requires
        n <= a@.len(),
        n <= b@.len(),
    ensures
        r <==> a@.subrange(0, n as int) == b@.subrange(0, n as int),
{
    let mut k: usize = 0;
    while k < n
        invariant
            n <= a@.len(),
            n <= b@.len(),
            k <= n,
            forall|j: int| 0 <= j < k ==> #[trigger] a@[j] == b@[j],
        decreases n - k,
    {
        if a[k] != b[k] {
            assert(a@.subrange(0, n as int)[k as int] != b@.subrange(0, n as int)[k as int]);
            return false;
        }
        k = k + 1;
    }
    proof {
        assert(a@.subrange(0, n as int) =~= b@.subrange(0, n as int));
    }
    true
}

/// Whether two whole buffers hold the same bytes.
pub fn bytes_eq(a: &[u8], b: &[u8]) -> (r: bool)
    ensures
        r <==> a@ == b@,
{
    if a.len() != b.len() {
        return false;
    }
    let r = mem_eq(a, b, a.len());
    proof {
        assert(a@.subrange(0, a@.len() as int) =~= a@);
        assert(b@.subrange(0, b@.len() as int) =~= b@);
    }
    r
}

/// The null-terminated length scan: index of the first zero byte, or `None`
/// when the buffer holds no terminator.
pub fn str_len(s: &[u8]) -> (r: Option<usize>)
    ensures
        match r {
            Some(n) => n < s@.len() && s@[n as int] == 0 && forall|j: int|
                0 <= j < n ==> #[trigger] s@[j] != 0,
            None => forall|j: int| 0 <= j < s@.len() ==> #[trigger] s@[j] != 0,
        },
{
    let mut k: usize = 0;
    while k < s.len()
        invariant
            k <= s@.len(),
            forall|j: int| 0 <= j < k ==> #[trigger] s@[j] != 0,
        decreases s@.len() - k,
    {
        if s[k] == 0 {
            return Some(k);
        }
        k = k + 1;
    }
    None
}

/// Appends every byte of `src` to `dst`: the marshalling helper for building
/// boundary buffers.
pub fn push_all(dst: &mut Vec<u8>, src: &[u8])
    ensures
        final(dst)@ == old(dst)@ + src@,
{
    dst.extend_from_slice(src);
}

/// Whether `needle` occurs as a contiguous run inside `hay`.
pub open spec fn spec_contains_seq(hay: Seq<u8>, needle: Seq<u8>) -> bool {
    exists|i: int|
        0 <= i && i + needle.len() <= hay.len() && #[trigger] hay.subrange(i, i + needle.len())
            == needle
}

/// Substring search over raw bytes.
pub fn contains_bytes(hay: &[u8], needle: &[u8]) -> (r: bool)
    ensures
        r == spec_contains_seq(hay@, needle@),
{
    let hlen = hay.len();
    let nlen = needle.len();
    if nlen > hlen {
        return false;
    }
    if nlen == 0 {
        proof {
            let w = 0int;
            assert(hay@.subrange(w, w + needle@.len()) =~= needle@);
            assert(spec_contains_seq(hay@, needle@));
        }
        return true;
    }
    let mut i: usize = 0;
    while i <= hlen - nlen
        invariant
            nlen == needle@.len(),
            hlen == hay@.len(),
            nlen <= hlen,
            i <= hlen - nlen + 1,
            1 <= nlen,
            forall|k: int| 0 <= k < i ==> #[trigger] hay@.subrange(k, k + needle@.len()) != needle@,
        decreases hlen - nlen + 1 - i,
    {
        let window = slice_subrange(hay, i, i + nlen);
        if bytes_eq(window, needle) {
            proof {
                let w = i as int;
                assert(0 <= w && w + needle@.len() <= hay@.len());
                assert(hay@.subrange(w, w + needle@.len()) == needle@);
                assert(spec_contains_seq(hay@, needle@));
            }
            return true;
        }
        i = i + 1;
    }
    proof {
        assert forall|k: int|
            0 <= k && k + needle@.len() <= hay@.len() implies #[trigger] hay@.subrange(
            k,
            k + needle@.len(),
        ) != needle@ by {
            assert(k < i);
        }
    }
    false
}

} // verus!
