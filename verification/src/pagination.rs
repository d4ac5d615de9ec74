//! Positional addressing of items in the paginated list of the portal.
//!
//! Items are numbered from 1 across the whole list; a page shows a fixed
//! number of them. From an item's number alone follows the page it is on and
//! its place on that page.

use vstd::prelude::*;

verus! {

/// Number of items that the list shows per page once it has been resized.
pub const PAGE_SIZE: u32 = 100;

/// Pages that precede the page holding the item with number `index`.
pub open spec fn spec_page_offset(index: int, page_size: int) -> int
    recommends
        index >= 1,
        page_size >= 1,
{
    (index - 1) / page_size
}

/// Zero-based place of the item with number `index` on its page.
pub open spec fn spec_page_position(index: int, page_size: int) -> int
    recommends
        index >= 1,
        page_size >= 1,
{
    (index - 1) % page_size
}

/// Whether one "next page" advance is due before the item with number
/// `index` can be addressed, given that the batch started at item `first`.
pub open spec fn spec_needs_advance(index: int, first: int, page_size: int) -> bool {
    spec_page_position(index, page_size) == 0 && index != first
}

/// How many "next page" advances lead from the first page to the page that
/// holds item `start_index`.
pub fn page_offset(start_index: u32, page_size: u32) -> (advances: u32)
    requires
        start_index >= 1,
        page_size >= 1,
    ensures
        advances == spec_page_offset(start_index as int, page_size as int),
{
    (start_index - 1) / page_size
}

/// Zero-based place on its page of the item with number `index`.
pub fn page_position(index: u32, page_size: u32) -> (position: u32)
    requires
        index >= 1,
        page_size >= 1,
    ensures
        position == spec_page_position(index as int, page_size as int),
        position < page_size,
{
    (index - 1) % page_size
}

/// Whether the list has to be advanced by one page before item `index` is
/// addressed: the item opens a page and is not the first of the batch.
pub fn needs_advance(index: u32, first: u32, page_size: u32) -> (due: bool)
    requires
        index >= 1,
        page_size >= 1,
    ensures
        due == spec_needs_advance(index as int, first as int, page_size as int),
{
    (index - 1) % page_size == 0 && index != first
}

/// An item's number follows from its page and its place on the page: it is
/// the one after the items of the pages before and the items before it on
/// its page. The place lies within the page.
pub proof fn lemma_index_from_page(index: int, page_size: int)
    requires
        index >= 1,
        page_size >= 1,
    ensures
        index == spec_page_offset(index, page_size) * page_size + spec_page_position(
            index,
            page_size,
        ) + 1,
        0 <= spec_page_position(index, page_size) < page_size,
        0 <= spec_page_offset(index, page_size),
{
    vstd::arithmetic::div_mod::lemma_fundamental_div_mod(index - 1, page_size);
    vstd::arithmetic::div_mod::lemma_mod_bound(index - 1, page_size);
    vstd::arithmetic::div_mod::lemma_div_pos_is_pos(index - 1, page_size);
    assert(page_size * ((index - 1) / page_size) == ((index - 1) / page_size) * page_size)
        by (nonlinear_arith);
}

/// From one item to the next, either the place on the page grows by one and
/// the page stays, or the place falls back to the start and the page grows
/// by exactly one. The second is the case exactly when the first item is
/// the last of its page.
pub proof fn lemma_next_item(index: int, page_size: int)
    requires
        index >= 1,
        page_size >= 1,
    ensures
        spec_page_position(index, page_size) + 1 < page_size ==> {
            &&& spec_page_position(index + 1, page_size) == spec_page_position(index, page_size)
                + 1
            &&& spec_page_offset(index + 1, page_size) == spec_page_offset(index, page_size)
        },
        spec_page_position(index, page_size) + 1 == page_size ==> {
            &&& spec_page_position(index + 1, page_size) == 0
            &&& spec_page_offset(index + 1, page_size) == spec_page_offset(index, page_size) + 1
        },
        spec_page_position(index + 1, page_size) == 0 <==> index % page_size == 0,
{
    lemma_index_from_page(index, page_size);
    lemma_index_from_page(index + 1, page_size);
    let q = spec_page_offset(index, page_size);
    let r = spec_page_position(index, page_size);
    let q2 = spec_page_offset(index + 1, page_size);
    let r2 = spec_page_position(index + 1, page_size);
    assert(q * page_size + r + 1 == q2 * page_size + r2);
    if r + 1 < page_size {
        vstd::arithmetic::div_mod::lemma_fundamental_div_mod_converse(index, page_size, q, r + 1);
    } else {
        assert((q + 1) * page_size == q * page_size + page_size) by (nonlinear_arith);
        vstd::arithmetic::div_mod::lemma_fundamental_div_mod_converse(index, page_size, q + 1, 0);
    }
    vstd::arithmetic::div_mod::lemma_fundamental_div_mod(index, page_size);
    vstd::arithmetic::div_mod::lemma_mod_bound(index, page_size);
    if index % page_size == 0 {
        let k = index / page_size;
        assert(index == page_size * k);
        assert(page_size * k == k * page_size) by (nonlinear_arith);
        assert(k >= 1) by (nonlinear_arith)
            requires
                index >= 1,
                page_size >= 1,
                index == k * page_size,
        ;
        assert((k - 1) * page_size + (page_size - 1) == index - 1) by (nonlinear_arith)
            requires
                index == k * page_size,
        ;
        vstd::arithmetic::div_mod::lemma_fundamental_div_mod_converse(
            index - 1,
            page_size,
            k - 1,
            page_size - 1,
        );
    }
}

/// Within a batch, a page advance is due before an item exactly when the
/// item before it was the last of its page: every item of the batch but the
/// first that opens a page is on the page after that of the item before it,
/// and every other item is on the same page as the item before it.
pub proof fn lemma_advance_when_page_ends(index: int, first: int, page_size: int)
    requires
        1 <= first < index,
        page_size >= 1,
    ensures
        spec_needs_advance(index, first, page_size) <==> spec_page_offset(index, page_size)
            == spec_page_offset(index - 1, page_size) + 1,
        !spec_needs_advance(index, first, page_size) <==> spec_page_offset(index, page_size)
            == spec_page_offset(index - 1, page_size),
        spec_needs_advance(index, first, page_size) <==> (index - 1) % page_size == 0,
{
    lemma_next_item(index - 1, page_size);
    lemma_index_from_page(index - 1, page_size);
}

} // verus!
