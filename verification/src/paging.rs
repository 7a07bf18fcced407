use vstd::prelude::*;

verus! {

/// The rows of a page: how many rows it holds and how many rows come before
/// it. Pages are counted from 1.
pub open spec fn spec_page_window(page: int, size: int) -> (int, int) {
    (size, (page - 1) * size)
}

/// The window of a page, or `None` where the numbers leave the range of the
/// arithmetic.
pub fn page_window(page: i64, size: i64) -> (window: Option<(i64, i64)>)
    ensures
        match window {
            Some(found) => (found.0 as int, found.1 as int) == spec_page_window(
                page as int,
                size as int,
            ),
            None => !(i64::MIN <= spec_page_window(page as int, size as int).1 <= i64::MAX),
        },
{
    match page.checked_sub(1) {
        None => {
            assert(page == i64::MIN);
            assert((page - 1) * size < i64::MIN || (page - 1) * size > i64::MAX || size == 0)
                by (nonlinear_arith)
                requires
                    page == i64::MIN,
                    i64::MIN <= size <= i64::MAX,
            ;
            if size == 0 {
                Some((0, 0))
            } else {
                None
            }
        },
        Some(before) => match before.checked_mul(size) {
            None => None,
            Some(offset) => Some((size, offset)),
        },
    }
}

} // verus!
