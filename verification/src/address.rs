//! Physical and virtual addresses and page numbers.
//!
//! On a 64-bit machine the kernel runs with SV39 paging (56-bit physical
//! addresses, 39-bit virtual addresses, three 9-bit page-table levels); on a
//! 32-bit machine it runs with SV32 (two 10-bit levels). The width is read
//! from `usize::BITS`.

use vstd::prelude::*;
use crate::config::{PAGE_SIZE, PAGE_SIZE_BITS};

verus! {

/// Width of a physical address under SV39.
pub const PA_WIDTH_SV39: usize = 56;
/// Width of a virtual address under SV39.
pub const VA_WIDTH_SV39: usize = 39;
/// Width of a physical page number under SV39.
pub const PPN_WIDTH_SV39: usize = 44;
/// Width of a virtual page number under SV39.
pub const VPN_WIDTH_SV39: usize = 27;
/// Width of a physical page number under SV32.
pub const PPN_WIDTH_SV32: usize = 22;
/// Width of a virtual page number under SV32.
pub const VPN_WIDTH_SV32: usize = 20;

/// Whether the machine word is 64 bits wide (SV39) rather than 32 (SV32).
pub open spec fn is_rv64() -> bool {
    usize::BITS == 64
}

/// `2^n` as a mathematical integer.
pub open spec fn pow2_int(n: nat) -> int {
    vstd::arithmetic::power2::pow2(n) as int
}

/// Number of page-table entries held by one page.
pub open spec fn ptes_per_page_spec() -> usize {
    if is_rv64() { 512 } else { 1024 }
}

/// Number of page-table entries held by one page.
#[verifier::when_used_as_spec(ptes_per_page_spec)]
pub fn ptes_per_page() -> (n: usize)
    ensures
        n == ptes_per_page_spec(),
{
    if usize::BITS == 64 { 512 } else { 1024 }
}

/// Physical address
#[derive(Clone, Copy, Debug, PartialEq, Eq, Structural, PartialOrd, Ord)]
pub struct PhysAddr(pub usize);

/// Virtual address
#[derive(Clone, Copy, Debug, PartialEq, Eq, Structural, PartialOrd, Ord)]
pub struct VirtAddr(pub usize);

/// Physical page number
#[derive(Clone, Copy, Debug, PartialEq, Eq, Structural, PartialOrd, Ord)]
pub struct PhysPageNum(pub usize);

/// Virtual page number
#[derive(Clone, Copy, Debug, Eq, Ord)]
pub struct VirtPageNum(pub usize);

/// The low `n` bits of `v`: `v mod 2^n`.
fn low_bits(v: usize, n: usize) -> (r: usize)
    requires
        n < usize::BITS,
    ensures
        r as int == v as int % pow2_int(n as nat),
{
    proof {
        vstd::bits::lemma_usize_pow2_no_overflow(n as nat);
        vstd::bits::lemma_usize_shl_is_mul(1, n);
        vstd::bits::lemma_usize_low_bits_mask_is_mod(v, n as nat);
    }
    let mask: usize = (1usize << n) - 1;
    v & mask
}

/// Physical address kept by the hardware for a raw word: the low 56 bits
/// under SV39, the whole word under SV32.
pub open spec fn phys_addr_bits(v: usize) -> usize {
    if is_rv64() { (v as int % pow2_int(56)) as usize } else { v }
}

/// Virtual address kept for a raw word: the low 39 bits under SV39, the
/// whole word under SV32.
pub open spec fn virt_addr_bits(v: usize) -> usize {
    if is_rv64() { (v as int % pow2_int(39)) as usize } else { v }
}

/// Physical page number kept for a raw word: its low 44 (SV39) or 22 (SV32) bits.
pub open spec fn phys_page_bits(v: usize) -> usize {
    if is_rv64() { (v as int % pow2_int(44)) as usize } else { (v as int % pow2_int(22)) as usize }
}

/// Virtual page number kept for a raw word: its low 27 (SV39) or 20 (SV32) bits.
pub open spec fn virt_page_bits(v: usize) -> usize {
    if is_rv64() { (v as int % pow2_int(27)) as usize } else { (v as int % pow2_int(20)) as usize }
}

impl From<usize> for PhysAddr {
    fn from(v: usize) -> (r: Self) {
        if usize::BITS == 64 {
            PhysAddr(low_bits(v, PA_WIDTH_SV39))
        } else {
            PhysAddr(v)
        }
    }
}

impl vstd::std_specs::convert::FromSpecImpl<usize> for PhysAddr {
    open spec fn obeys_from_spec() -> bool {
        true
    }

    open spec fn from_spec(v: usize) -> Self {
        PhysAddr(phys_addr_bits(v))
    }
}

impl From<usize> for VirtAddr {
    fn from(v: usize) -> (r: Self) {
        if usize::BITS == 64 {
            VirtAddr(low_bits(v, VA_WIDTH_SV39))
        } else {
            VirtAddr(v)
        }
    }
}

impl vstd::std_specs::convert::FromSpecImpl<usize> for VirtAddr {
    open spec fn obeys_from_spec() -> bool {
        true
    }

    open spec fn from_spec(v: usize) -> Self {
        VirtAddr(virt_addr_bits(v))
    }
}

impl From<usize> for PhysPageNum {
    fn from(v: usize) -> (r: Self) {
        if usize::BITS == 64 {
            PhysPageNum(low_bits(v, PPN_WIDTH_SV39))
        } else {
            PhysPageNum(low_bits(v, PPN_WIDTH_SV32))
        }
    }
}

impl vstd::std_specs::convert::FromSpecImpl<usize> for PhysPageNum {
    open spec fn obeys_from_spec() -> bool {
        true
    }

    open spec fn from_spec(v: usize) -> Self {
        PhysPageNum(phys_page_bits(v))
    }
}

impl From<usize> for VirtPageNum {
    fn from(v: usize) -> (r: Self) {
        if usize::BITS == 64 {
            VirtPageNum(low_bits(v, VPN_WIDTH_SV39))
        } else {
            VirtPageNum(low_bits(v, VPN_WIDTH_SV32))
        }
    }
}

impl vstd::std_specs::convert::FromSpecImpl<usize> for VirtPageNum {
    open spec fn obeys_from_spec() -> bool {
        true
    }

    open spec fn from_spec(v: usize) -> Self {
        VirtPageNum(virt_page_bits(v))
    }
}


impl From<PhysAddr> for usize {
    fn from(v: PhysAddr) -> (r: usize) {
        v.0
    }
}

impl vstd::std_specs::convert::FromSpecImpl<PhysAddr> for usize {
    open spec fn obeys_from_spec() -> bool {
        true
    }

    open spec fn from_spec(v: PhysAddr) -> usize {
        v.0
    }
}

impl From<PhysPageNum> for usize {
    fn from(v: PhysPageNum) -> (r: usize) {
        v.0
    }
}

impl vstd::std_specs::convert::FromSpecImpl<PhysPageNum> for usize {
    open spec fn obeys_from_spec() -> bool {
        true
    }

    open spec fn from_spec(v: PhysPageNum) -> usize {
        v.0
    }
}

impl From<VirtPageNum> for usize {
    fn from(v: VirtPageNum) -> (r: usize) {
        v.0
    }
}

impl vstd::std_specs::convert::FromSpecImpl<VirtPageNum> for usize {
    open spec fn obeys_from_spec() -> bool {
        true
    }

    open spec fn from_spec(v: VirtPageNum) -> usize {
        v.0
    }
}

/// The machine word of a virtual address: under SV39 bit 38 is copied into
/// bits 39..63 (the address is made canonical); under SV32 the word is kept.
pub open spec fn sign_extend_va(v: usize) -> usize {
    if is_rv64() && v as int >= pow2_int(38) {
        (v as int % pow2_int(39) + (pow2_int(64) - pow2_int(39))) as usize
    } else {
        v
    }
}

/// Sign extension of a 39-bit virtual address held in a 64-bit word.
fn sign_extend_sv39(v: u64) -> (r: u64)
    ensures
        v >= 0x40_0000_0000 ==> r == v % 0x80_0000_0000 + 0xffff_ff80_0000_0000,
        v < 0x40_0000_0000 ==> r == v,
{
    if v >= 0x40_0000_0000u64 {
        let r: u64 = v | 0xffff_ff80_0000_0000u64;
        assert(r == v % 0x80_0000_0000 + 0xffff_ff80_0000_0000) by (bit_vector)
            requires
                r == v | 0xffff_ff80_0000_0000u64,
        ;
        r
    } else {
        v
    }
}

impl From<VirtAddr> for usize {
    fn from(v: VirtAddr) -> (r: usize) {
        if usize::BITS == 64 {
            proof {
                vstd::arithmetic::power2::lemma2_to64();
                vstd::arithmetic::power2::lemma2_to64_rest();
            }
            let w: u64 = sign_extend_sv39(v.0 as u64);
            w as usize
        } else {
            v.0
        }
    }
}

impl vstd::std_specs::convert::FromSpecImpl<VirtAddr> for usize {
    open spec fn obeys_from_spec() -> bool {
        true
    }

    open spec fn from_spec(v: VirtAddr) -> usize {
        sign_extend_va(v.0)
    }
}


/// The address of the first byte of a page: the page number times the page
/// size, wrapped to the machine word.
pub open spec fn page_start(n: usize) -> usize {
    ((n as int * PAGE_SIZE as int) % (usize::MAX as int + 1)) as usize
}

/// `n << 12` is `n * 4096` wrapped to the machine word.
fn shl_page_bits(n: usize) -> (r: usize)
    ensures
        r == page_start(n),
{
    if usize::BITS == 64 {
        let x: u64 = n as u64;
        let r: u64 = x << (PAGE_SIZE_BITS as u64);
        assert(r as int == (x as int * 4096) % 0x1_0000_0000_0000_0000) by (bit_vector)
            requires
                r == x << 12u64,
        ;
        r as usize
    } else {
        let x: u32 = n as u32;
        let r: u32 = x << (PAGE_SIZE_BITS as u32);
        assert(r as int == (x as int * 4096) % 0x1_0000_0000) by (bit_vector)
            requires
                r == x << 12u32,
        ;
        r as usize
    }
}

impl VirtAddr {
    /// `VirtAddr` -> `VirtPageNum` (floor)
    pub fn floor(&self) -> (r: VirtPageNum)
        ensures
            r.0 == self.0 / PAGE_SIZE,
    {
        VirtPageNum(self.0 / PAGE_SIZE)
    }

    /// `VirtAddr` -> `VirtPageNum` (ceil)
    pub fn ceil(&self) -> (r: VirtPageNum)
        requires
            self.0 + (PAGE_SIZE - 1) <= usize::MAX,
        ensures
            r.0 == (self.0 + PAGE_SIZE - 1) / PAGE_SIZE as int,
            self.0 == 0 ==> r.0 == 0,
    {
        VirtPageNum((self.0 + (PAGE_SIZE - 1)) / PAGE_SIZE)
    }

    /// Get page offset
    pub fn page_offset(&self) -> (r: usize)
        ensures
            r == self.0 % PAGE_SIZE,
    {
        let v = self.0;
        assert(v & 4095usize == v % 4096usize) by (bit_vector);
        self.0 & (PAGE_SIZE - 1)
    }

    /// Check page aligned
    pub fn aligned(&self) -> (r: bool)
        ensures
            r == (self.0 % PAGE_SIZE == 0),
    {
        self.page_offset() == 0
    }
}

impl PhysAddr {
    /// `PhysAddr` -> `PhysPageNum` (floor)
    pub fn floor(&self) -> (r: PhysPageNum)
        ensures
            r.0 == self.0 / PAGE_SIZE,
    {
        PhysPageNum(self.0 / PAGE_SIZE)
    }

    /// `PhysAddr` -> `PhysPageNum` (ceil)
    pub fn ceil(&self) -> (r: PhysPageNum)
        requires
            self.0 + (PAGE_SIZE - 1) <= usize::MAX,
        ensures
            r.0 == (self.0 + PAGE_SIZE - 1) / PAGE_SIZE as int,
            self.0 == 0 ==> r.0 == 0,
    {
        PhysPageNum((self.0 + (PAGE_SIZE - 1)) / PAGE_SIZE)
    }

    /// Get page offset
    pub fn page_offset(&self) -> (r: usize)
        ensures
            r == self.0 % PAGE_SIZE,
    {
        let v = self.0;
        assert(v & 4095usize == v % 4096usize) by (bit_vector);
        self.0 & (PAGE_SIZE - 1)
    }

    /// Check page aligned
    pub fn aligned(&self) -> (r: bool)
        ensures
            r == (self.0 % PAGE_SIZE == 0),
    {
        self.page_offset() == 0
    }
}

impl VirtPageNum {
    /// The page of a page-aligned virtual address.
    pub fn from_addr(v: VirtAddr) -> (r: VirtPageNum)
        requires
            v.0 % PAGE_SIZE == 0,
        ensures
            r.0 == v.0 / PAGE_SIZE,
    {
        v.floor()
    }
}

impl PhysPageNum {
    /// The page of a page-aligned physical address.
    pub fn from_addr(v: PhysAddr) -> (r: PhysPageNum)
        requires
            v.0 % PAGE_SIZE == 0,
        ensures
            r.0 == v.0 / PAGE_SIZE,
    {
        v.floor()
    }
}

impl From<VirtPageNum> for VirtAddr {
    fn from(v: VirtPageNum) -> (r: Self) {
        VirtAddr(shl_page_bits(v.0))
    }
}

impl vstd::std_specs::convert::FromSpecImpl<VirtPageNum> for VirtAddr {
    open spec fn obeys_from_spec() -> bool {
        true
    }

    open spec fn from_spec(v: VirtPageNum) -> Self {
        VirtAddr(page_start(v.0))
    }
}

impl From<PhysPageNum> for PhysAddr {
    fn from(v: PhysPageNum) -> (r: Self) {
        PhysAddr(shl_page_bits(v.0))
    }
}

impl vstd::std_specs::convert::FromSpecImpl<PhysPageNum> for PhysAddr {
    open spec fn obeys_from_spec() -> bool {
        true
    }

    open spec fn from_spec(v: PhysPageNum) -> Self {
        PhysAddr(page_start(v.0))
    }
}


/// Page-table indexes of a virtual page number, root level first: three
/// 9-bit indexes under SV39, two 10-bit indexes under SV32.
pub open spec fn vpn_indexes(vpn: usize) -> Seq<usize> {
    if is_rv64() {
        seq![(vpn / 0x4_0000 % 512) as usize, (vpn / 512 % 512) as usize, (vpn % 512) as usize]
    } else {
        seq![(vpn / 1024 % 1024) as usize, (vpn % 1024) as usize]
    }
}

impl VirtPageNum {
    /// Return VPN indexes for page table walk
    /// RV64 SV39: 3-level page table, each level 9 bits
    /// RV32 SV32: 2-level page table, each level 10 bits
    pub fn indexes(&self) -> (idx: Vec<usize>)
        ensures
            idx@ == vpn_indexes(self.0),
    {
        let mut vpn = self.0;
        if usize::BITS == 64 {
            let mut idx: Vec<usize> = vec![0usize, 0usize, 0usize];
            let mut i: usize = 3;
            proof {
                vstd::arithmetic::power2::lemma2_to64();
                assert(vpn == self.0 as nat / vstd::arithmetic::power2::pow2(0));
            }
            while i > 0
                invariant
                    0 <= i <= 3,
                    idx.len() == 3,
                    vpn == self.0 as nat / vstd::arithmetic::power2::pow2((9 * (3 - i)) as nat),
                    forall|j: int|
                        i <= j < 3 ==> idx@[j] == self.0 as nat / vstd::arithmetic::power2::pow2(
                            (9 * (2 - j)) as nat,
                        ) % 512,
                decreases i,
            {
                i = i - 1;
                let v = vpn;
                assert(v & 511usize == v % 512usize) by (bit_vector);
                assert(v >> 9usize == v / 512usize) by (bit_vector);
                idx.set(i, vpn & 511);
                vpn = vpn >> 9;
                proof {
                    let e = (9 * (2 - i)) as nat;
                    vstd::arithmetic::power2::lemma_pow2_adds(e, 9);
                    vstd::arithmetic::power2::lemma_pow2_pos(e);
                    vstd::arithmetic::power2::lemma2_to64();
                    vstd::arithmetic::div_mod::lemma_div_denominator(
                        self.0 as int,
                        vstd::arithmetic::power2::pow2(e) as int,
                        512,
                    );
                }
            }
            proof {
                vstd::arithmetic::power2::lemma2_to64();
                assert(idx@ =~= vpn_indexes(self.0));
            }
            idx
        } else {
            let mut idx: Vec<usize> = vec![0usize, 0usize];
            let mut i: usize = 2;
            proof {
                vstd::arithmetic::power2::lemma2_to64();
                assert(vpn == self.0 as nat / vstd::arithmetic::power2::pow2(0));
            }
            while i > 0
                invariant
                    0 <= i <= 2,
                    idx.len() == 2,
                    vpn == self.0 as nat / vstd::arithmetic::power2::pow2((10 * (2 - i)) as nat),
                    forall|j: int|
                        i <= j < 2 ==> idx@[j] == self.0 as nat / vstd::arithmetic::power2::pow2(
                            (10 * (1 - j)) as nat,
                        ) % 1024,
                decreases i,
            {
                i = i - 1;
                let v = vpn;
                assert(v & 1023usize == v % 1024usize) by (bit_vector);
                assert(v >> 10usize == v / 1024usize) by (bit_vector);
                idx.set(i, vpn & 1023);
                vpn = vpn >> 10;
                proof {
                    let e = (10 * (1 - i)) as nat;
                    vstd::arithmetic::power2::lemma_pow2_adds(e, 10);
                    vstd::arithmetic::power2::lemma_pow2_pos(e);
                    vstd::arithmetic::power2::lemma2_to64();
                    vstd::arithmetic::div_mod::lemma_div_denominator(
                        self.0 as int,
                        vstd::arithmetic::power2::pow2(e) as int,
                        1024,
                    );
                }
            }
            proof {
                vstd::arithmetic::power2::lemma2_to64();
                assert(idx@ =~= vpn_indexes(self.0));
            }
            idx
        }
    }
}


/// An address is its page number times the page size plus its offset in the
/// page; the offset is below the page size; rounding up gives the same page
/// as rounding down exactly for aligned addresses, and one page more
/// otherwise.
pub proof fn lemma_floor_ceil_offset(a: usize)
    ensures
        (a / PAGE_SIZE) * PAGE_SIZE + a % PAGE_SIZE == a,
        a % PAGE_SIZE < PAGE_SIZE,
        a % PAGE_SIZE == 0 <==> (a + PAGE_SIZE - 1) / PAGE_SIZE as int == a / PAGE_SIZE,
        a % PAGE_SIZE != 0 ==> (a + PAGE_SIZE - 1) / PAGE_SIZE as int == a / PAGE_SIZE + 1,
{
}

/// Converting a raw word to an address or a page number keeps it within the
/// width of the paging scheme, and converting again changes nothing.
pub proof fn lemma_conversions_fit_and_are_idempotent(v: usize)
    ensures
        is_rv64() ==> phys_addr_bits(v) < pow2_int(56),
        is_rv64() ==> virt_addr_bits(v) < pow2_int(39),
        is_rv64() ==> phys_page_bits(v) < pow2_int(44),
        is_rv64() ==> virt_page_bits(v) < pow2_int(27),
        !is_rv64() ==> phys_page_bits(v) < pow2_int(22),
        !is_rv64() ==> virt_page_bits(v) < pow2_int(20),
        phys_addr_bits(phys_addr_bits(v)) == phys_addr_bits(v),
        virt_addr_bits(virt_addr_bits(v)) == virt_addr_bits(v),
        phys_page_bits(phys_page_bits(v)) == phys_page_bits(v),
        virt_page_bits(virt_page_bits(v)) == virt_page_bits(v),
{
    vstd::arithmetic::power2::lemma2_to64();
    vstd::arithmetic::power2::lemma2_to64_rest();
    let vi = v as int;
    vstd::arithmetic::div_mod::lemma_mod_pos_bound(vi, pow2_int(56));
    vstd::arithmetic::div_mod::lemma_mod_pos_bound(vi, pow2_int(39));
    vstd::arithmetic::div_mod::lemma_mod_pos_bound(vi, pow2_int(44));
    vstd::arithmetic::div_mod::lemma_mod_pos_bound(vi, pow2_int(27));
    vstd::arithmetic::div_mod::lemma_mod_pos_bound(vi, pow2_int(22));
    vstd::arithmetic::div_mod::lemma_mod_pos_bound(vi, pow2_int(20));
    vstd::arithmetic::div_mod::lemma_small_mod((vi % pow2_int(56)) as nat, pow2_int(56) as nat);
    vstd::arithmetic::div_mod::lemma_small_mod((vi % pow2_int(39)) as nat, pow2_int(39) as nat);
    vstd::arithmetic::div_mod::lemma_small_mod((vi % pow2_int(44)) as nat, pow2_int(44) as nat);
    vstd::arithmetic::div_mod::lemma_small_mod((vi % pow2_int(27)) as nat, pow2_int(27) as nat);
    vstd::arithmetic::div_mod::lemma_small_mod((vi % pow2_int(22)) as nat, pow2_int(22) as nat);
    vstd::arithmetic::div_mod::lemma_small_mod((vi % pow2_int(20)) as nat, pow2_int(20) as nat);
}

/// What a conversion from a raw word keeps: under SV32 a physical or
/// virtual address keeps the whole word, and page numbers keep 22 (physical)
/// or 20 (virtual) bits; under SV39 addresses keep their low 56 (physical)
/// or 39 (virtual) bits and page numbers their low 44 or 27 bits, so a word
/// already within the width is kept as it is.
pub proof fn lemma_conversion_widths(v: usize)
    ensures
        !is_rv64() ==> phys_addr_bits(v) == v,
        !is_rv64() ==> virt_addr_bits(v) == v,
        !is_rv64() ==> phys_page_bits(v) as int == v as int % 0x40_0000,
        !is_rv64() ==> virt_page_bits(v) as int == v as int % 0x10_0000,
        is_rv64() ==> phys_addr_bits(v) as int == v as int % 0x100_0000_0000_0000,
        is_rv64() ==> virt_addr_bits(v) as int == v as int % 0x80_0000_0000,
        is_rv64() ==> phys_page_bits(v) as int == v as int % 0x1000_0000_0000,
        is_rv64() ==> virt_page_bits(v) as int == v as int % 0x800_0000,
        is_rv64() && v < 0x100_0000_0000_0000 ==> phys_addr_bits(v) == v,
        is_rv64() && v < 0x80_0000_0000 ==> virt_addr_bits(v) == v,
{
    vstd::arithmetic::power2::lemma2_to64();
    vstd::arithmetic::power2::lemma2_to64_rest();
    let vi = v as int;
    vstd::arithmetic::div_mod::lemma_mod_pos_bound(vi, 0x40_0000);
    vstd::arithmetic::div_mod::lemma_mod_pos_bound(vi, 0x10_0000);
    vstd::arithmetic::div_mod::lemma_mod_pos_bound(vi, 0x100_0000_0000_0000);
    vstd::arithmetic::div_mod::lemma_mod_pos_bound(vi, 0x80_0000_0000);
    vstd::arithmetic::div_mod::lemma_mod_pos_bound(vi, 0x1000_0000_0000);
    vstd::arithmetic::div_mod::lemma_mod_pos_bound(vi, 0x800_0000);
    if v < 0x100_0000_0000_0000 {
        vstd::arithmetic::div_mod::lemma_small_mod(v as nat, 0x100_0000_0000_0000);
    }
    if v < 0x80_0000_0000 {
        vstd::arithmetic::div_mod::lemma_small_mod(v as nat, 0x80_0000_0000);
    }
}

/// A page number turned into the address of its first byte is page-aligned
/// and turns back into the same page number, when that address fits in a
/// word.
pub proof fn lemma_page_round_trip(n: usize)
    requires
        n as int * PAGE_SIZE as int <= usize::MAX,
    ensures
        page_start(n) == n * PAGE_SIZE,
        page_start(n) % PAGE_SIZE == 0,
        page_start(n) / PAGE_SIZE == n,
{
    vstd::arithmetic::div_mod::lemma_small_mod(
        (n as int * PAGE_SIZE as int) as nat,
        (usize::MAX as int + 1) as nat,
    );
    vstd::arithmetic::div_mod::lemma_mod_multiples_basic(n as int, PAGE_SIZE as int);
    vstd::arithmetic::div_mod::lemma_div_multiples_vanish(n as int, PAGE_SIZE as int);
}

/// Under SV39, a canonical virtual address (bits 38..63 all equal) survives
/// being kept as a 39-bit virtual address and turned back into a word.
pub proof fn lemma_canonical_va_round_trip(v: usize)
    requires
        is_rv64(),
        v < pow2_int(38) || v >= pow2_int(64) - pow2_int(38),
    ensures
        sign_extend_va(virt_addr_bits(v)) == v,
{
    vstd::arithmetic::power2::lemma2_to64();
    vstd::arithmetic::power2::lemma2_to64_rest();
    let m = v as int % pow2_int(39);
    if v < pow2_int(38) {
        vstd::arithmetic::div_mod::lemma_small_mod(v as nat, pow2_int(39) as nat);
    } else {
        let q = (pow2_int(64) - pow2_int(39)) / pow2_int(39);
        assert(pow2_int(64) - pow2_int(39) == q * pow2_int(39));
        vstd::arithmetic::div_mod::lemma_fundamental_div_mod_converse(
            v as int,
            pow2_int(39),
            q,
            v as int - (pow2_int(64) - pow2_int(39)),
        );
    }
}

/// The page-table indexes of a page number are each below the number of
/// entries of a page table, and together they give back the page number
/// (within the width of a virtual page number).
pub proof fn lemma_indexes_rebuild_vpn(vpn: usize)
    ensures
        is_rv64() ==> vpn_indexes(vpn).len() == 3 && vpn_indexes(vpn)[0] < 512
            && vpn_indexes(vpn)[1] < 512 && vpn_indexes(vpn)[2] < 512,
        is_rv64() && vpn < pow2_int(27) ==> vpn_indexes(vpn)[0] * 0x4_0000 + vpn_indexes(vpn)[1]
            * 512 + vpn_indexes(vpn)[2] == vpn,
        !is_rv64() ==> vpn_indexes(vpn).len() == 2 && vpn_indexes(vpn)[0] < 1024
            && vpn_indexes(vpn)[1] < 1024,
        !is_rv64() && vpn < pow2_int(20) ==> vpn_indexes(vpn)[0] * 1024 + vpn_indexes(vpn)[1]
            == vpn,
{
    vstd::arithmetic::power2::lemma2_to64();
    let v = vpn as int;
    if is_rv64() {
        vstd::arithmetic::div_mod::lemma_fundamental_div_mod(v, 512);
        vstd::arithmetic::div_mod::lemma_fundamental_div_mod(v / 512, 512);
        vstd::arithmetic::div_mod::lemma_div_denominator(v, 512, 512);
        if v < pow2_int(27) {
            vstd::arithmetic::div_mod::lemma_div_is_ordered(v, pow2_int(27) - 1, 0x4_0000);
            vstd::arithmetic::div_mod::lemma_small_mod((v / 0x4_0000) as nat, 512);
        }
    } else {
        vstd::arithmetic::div_mod::lemma_fundamental_div_mod(v, 1024);
        if v < pow2_int(20) {
            vstd::arithmetic::div_mod::lemma_div_is_ordered(v, pow2_int(20) - 1, 1024);
            vstd::arithmetic::div_mod::lemma_small_mod((v / 1024) as nat, 1024);
        }
    }
}

} // verus!
