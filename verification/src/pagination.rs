use vstd::prelude::*;

verus! {

/// Number of pages needed to show `total` rows at `size` rows per page:
/// the ceiling of `total / size`.
pub open spec fn spec_num_pages(total: int, size: int) -> int {
    (total + size - 1) / size
}

/// The window of rows that page `page` (1-indexed) shows at `size` rows
/// per page: rows `(page-1)*size` up to `page*size`, clipped to the end.
/// A page past the end is empty.
pub open spec fn spec_page_window<T>(s: Seq<T>, page: int, size: int) -> Seq<T> {
    let lo = (page - 1) * size;
    if lo >= s.len() {
        Seq::empty()
    } else if lo + size <= s.len() {
        s.subrange(lo, lo + size)
    } else {
        s.subrange(lo, s.len() as int)
    }
}

/// A page window never holds more than `size` rows, and only pages
/// `1..=num_pages` are non-empty.
pub proof fn lemma_page_window_bounds<T>(s: Seq<T>, page: int, size: int)
    requires
        page >= 1,
        size >= 1,
    ensures
        spec_page_window(s, page, size).len() <= size,
        page > spec_num_pages(s.len() as int, size) ==> spec_page_window(s, page, size).len()
            == 0,
        1 <= page <= spec_num_pages(s.len() as int, size) ==> spec_page_window(
            s,
            page,
            size,
        ).len() >= 1,
{
    let total = s.len() as int;
    assert((page - 1) * size >= 0) by (nonlinear_arith)
        requires
            page >= 1,
            size >= 1,
    ;
    if page > spec_num_pages(total, size) {
        // past the last page: the offset is at or past the end
        assert((page - 1) * size >= total) by (nonlinear_arith)
            requires
                page > (total + size - 1) / size,
                size >= 1,
                total >= 0,
        ;
    }
    if 1 <= page && page <= spec_num_pages(total, size) {
        assert((page - 1) * size < total) by (nonlinear_arith)
            requires
                page <= (total + size - 1) / size,
                page >= 1,
                size >= 1,
        ;
    }
}

/// Total page count for `total` rows at `size` rows per page.
pub fn num_pages(total: u64, size: u64) -> (r: u64)
    requires
        size >= 1,
    ensures
        r == spec_num_pages(total as int, size as int),
{
    if total == 0 {
        assert((size - 1) / (size as int) == 0) by {
            vstd::arithmetic::div_mod::lemma_basic_div(size - 1, size as int);
        }
        0
    } else {
        let r = (total - 1) / size + 1;
        assert(r == spec_num_pages(total as int, size as int)) by {
            vstd::arithmetic::div_mod::lemma_div_plus_one(total - 1, size as int);
        }
        r
    }
}

} // verus!
