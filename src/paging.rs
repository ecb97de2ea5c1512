//! Guest physical addresses and the page sizes of the EPT.

use vstd::arithmetic::div_mod::{lemma_fundamental_div_mod, lemma_fundamental_div_mod_converse};
use vstd::prelude::*;
use x86::bits64::paging::PAddr;

verus! {

/// Size of a small (4 KiB) page.
pub const BASE_PAGE_SIZE: u64 = 4096;

/// Size of a large (2 MiB) page.
pub const LARGE_PAGE_SIZE: u64 = 0x20_0000;

/// Start of the 4 KiB page that holds `pa`.
pub open spec fn base_page_of(pa: u64) -> u64 {
    (pa - pa % 4096) as u64
}

/// Start of the 2 MiB page that holds `pa`.
pub open spec fn large_page_of(pa: u64) -> u64 {
    (pa - pa % 0x20_0000) as u64
}

/// Offset of `pa` within its 4 KiB page.
pub open spec fn page_offset_of(pa: u64) -> u64 {
    (pa % 4096) as u64
}

/// Index of the 4 KiB page of `pa` within its 2 MiB page.
pub open spec fn pt_index_of(pa: u64) -> int {
    (pa % 0x20_0000) as int / 4096
}

/// An address is its 2 MiB page, plus 4 KiB times the index of its 4 KiB
/// page therein, plus its offset; its 4 KiB page lies in the same 2 MiB page
/// at the same index.
pub proof fn lemma_page_decomposition(pa: u64)
    ensures
        0 <= pt_index_of(pa) < 512,
        base_page_of(pa) == large_page_of(pa) + 4096 * pt_index_of(pa),
        large_page_of(base_page_of(pa)) == large_page_of(pa),
        pt_index_of(base_page_of(pa)) == pt_index_of(pa),
        page_offset_of(base_page_of(pa)) == 0,
{
    let p = pa as int;
    let a = p / 0x20_0000;
    let m = p % 0x20_0000;
    let b = m / 4096;
    let c = m % 4096;
    lemma_fundamental_div_mod(p, 0x20_0000);
    lemma_fundamental_div_mod(m, 4096);
    assert(p == (a * 512 + b) * 4096 + c) by (nonlinear_arith)
        requires
            p == 0x20_0000 * a + m,
            m == 4096 * b + c,
    ;
    lemma_fundamental_div_mod_converse(p, 4096, a * 512 + b, c);
    assert(0 <= b < 512) by (nonlinear_arith)
        requires
            m == 4096 * b + c,
            0 <= m < 0x20_0000,
            0 <= c < 4096,
    ;
    let base = a * 0x20_0000 + 4096 * b;
    lemma_fundamental_div_mod_converse(base, 0x20_0000, a, 4096 * b);
    lemma_fundamental_div_mod_converse(4096 * b, 4096, b, 0);
    lemma_fundamental_div_mod_converse(base, 4096, a * 512 + b, 0);
}

/// Relies on x86's `PAddr::align_down_to_base_page`, which clears the low twelve bits.
#[verifier::external_body]
fn paddr_align_down_to_base_page(pa: u64) -> (r: u64)
    ensures
        r == pa & !0xfffu64,
{
    PAddr::from(pa).align_down_to_base_page().as_u64()
}

/// Relies on x86's `PAddr::align_down_to_large_page`, which clears the low 21 bits.
#[verifier::external_body]
fn paddr_align_down_to_large_page(pa: u64) -> (r: u64)
    ensures
        r == pa & !0x1f_ffffu64,
{
    PAddr::from(pa).align_down_to_large_page().as_u64()
}

/// Relies on x86's `PAddr::base_page_offset`, which keeps the low twelve bits.
#[verifier::external_body]
fn paddr_base_page_offset(pa: u64) -> (r: u64)
    ensures
        r == pa & 0xfffu64,
{
    PAddr::from(pa).base_page_offset()
}

/// The 4 KiB page that holds `pa`.
pub fn base_page(pa: u64) -> (r: u64)
    ensures
        r == base_page_of(pa),
        r % 4096 == 0,
        r <= pa < r + 4096,
{
    let r = paddr_align_down_to_base_page(pa);
    assert(pa & !0xfffu64 == pa - pa % 4096) by (bit_vector);
    r
}

/// The 2 MiB page that holds `pa`.
pub fn large_page(pa: u64) -> (r: u64)
    ensures
        r == large_page_of(pa),
        r % 0x20_0000 == 0,
        r <= pa < r + 0x20_0000,
{
    let r = paddr_align_down_to_large_page(pa);
    assert(pa & !0x1f_ffffu64 == pa - pa % 0x20_0000) by (bit_vector);
    r
}

/// The offset of `pa` within its 4 KiB page.
pub fn base_page_offset(pa: u64) -> (r: u64)
    ensures
        r == page_offset_of(pa),
        r < 4096,
{
    let r = paddr_base_page_offset(pa);
    assert(pa & 0xfffu64 == pa % 4096) by (bit_vector);
    r
}

/// Address of a guest function inside the host shadow copy of its page: the
/// shadow page's base plus the function's offset within its own page.
pub fn calculate_function_offset_in_host_shadow_page(host_shadow_page_pa: u64, guest_function_pa: u64) -> (r: u64)
    requires
        host_shadow_page_pa % 4096 == 0,
        host_shadow_page_pa <= u64::MAX - 4095,
    ensures
        r == host_shadow_page_pa + page_offset_of(guest_function_pa),
{
    host_shadow_page_pa + base_page_offset(guest_function_pa)
}

} // verus!
