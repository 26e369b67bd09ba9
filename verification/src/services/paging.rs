//! Cutting one page out of the bucketed rows, and saying whether more may follow.

use vstd::prelude::*;
use crate::helpers::query_parser::QueryParser;
use crate::services::bucketing::Sample;

verus! {

/// `x`, held between `low` and `high`.
pub open spec fn clamped(x: int, low: int, high: int) -> int {
    if x < low {
        low
    } else if x > high {
        high
    } else {
        x
    }
}

/// Where the page starts among `len` rows: after `max(page - 1, 0) * count`
/// rows, or at the end where there are not so many.
pub open spec fn page_start(parameters: QueryParser, len: int) -> int {
    clamped(parameters.rows_before(), 0, len)
}

/// Where the page ends among `len` rows: `count` rows after its start, or at
/// the end where there are not so many.
pub open spec fn page_end(parameters: QueryParser, len: int) -> int {
    clamped(parameters.rows_before() + parameters.count, page_start(parameters, len), len)
}

/// The rows of the page: pagination counts bucketed rows, never raw records.
pub open spec fn page_of<T>(rows: Seq<T>, parameters: QueryParser) -> Seq<T> {
    rows.subrange(
        page_start(parameters, rows.len() as int),
        page_end(parameters, rows.len() as int),
    )
}

/// Whether a page with `returned` rows may be followed by another: it may
/// exactly where the page is full.
pub open spec fn page_is_full(returned: int, requested: i64) -> bool {
    returned == requested
}

/// A page never holds more rows than were asked for, nor more than there are.
pub proof fn lemma_page_len<T>(rows: Seq<T>, parameters: QueryParser)
    ensures
        page_of(rows, parameters).len() <= rows.len(),
        parameters.count >= 0 ==> page_of(rows, parameters).len() <= parameters.count,
        parameters.count <= 0 ==> page_of(rows, parameters).len() == 0,
{
}

/// The first page of enough rows is full, and a page that is cut short by the
/// end of the rows is not.
pub proof fn lemma_partial_page_is_last<T>(rows: Seq<T>, parameters: QueryParser)
    requires
        parameters.count >= 1,
    ensures
        page_is_full(page_of(rows, parameters).len() as int, parameters.count) <==> rows.len()
            >= parameters.rows_before() + parameters.count && parameters.rows_before() >= 0,
{
    assert(parameters.rows_before() >= 0) by (nonlinear_arith)
        requires
            parameters.count >= 1,
            parameters.rows_before() == (if parameters.page > 1 {
                parameters.page - 1
            } else {
                0
            }) * parameters.count,
    ;
}

/// Computes where the page starts and ends among `len` rows.
pub fn page_range(parameters: &QueryParser, len: usize) -> (range: (usize, usize))
    ensures
        range.0 == page_start(*parameters, len as int),
        range.1 == page_end(*parameters, len as int),
        range.0 <= range.1 <= len,
{
    let pages_before: i128 = if parameters.page > 1 {
        (parameters.page - 1) as i128
    } else {
        0
    };
    assert(-0x4000_0000_0000_0000_0000_0000_0000_0000 <= pages_before * parameters.count
        <= 0x4000_0000_0000_0000_0000_0000_0000_0000) by (nonlinear_arith)
        requires
            0 <= pages_before <= 0x7fff_ffff_ffff_ffff,
            -0x8000_0000_0000_0000 <= parameters.count <= 0x7fff_ffff_ffff_ffff,
    ;
    let before: i128 = pages_before * (parameters.count as i128);
    let after: i128 = before + parameters.count as i128;
    let start: usize = if before < 0 {
        0
    } else if before > len as i128 {
        len
    } else {
        before as usize
    };
    let end: usize = if after < start as i128 {
        start
    } else if after > len as i128 {
        len
    } else {
        after as usize
    };
    (start, end)
}

/// Cuts the page out of the rows.
pub fn paginate(rows: &Vec<Sample>, parameters: &QueryParser) -> (page: Vec<Sample>)
    ensures
        page@ == page_of(rows@, *parameters),
{
    let (start, end) = page_range(parameters, rows.len());
    let mut page: Vec<Sample> = Vec::new();
    let mut i: usize = start;
    while i < end
        invariant
            start <= i <= end <= rows.len(),
            page@ == rows@.subrange(start as int, i as int),
        decreases end - i,
    {
        page.push(rows[i]);
        assert(rows@.subrange(start as int, i + 1) == rows@.subrange(start as int, i as int).push(
            rows@[i as int],
        ));
        i += 1;
    }
    page
}

/// Decides whether a page with `returned` rows may be followed by another.
pub fn has_next_page(returned: usize, requested: i64) -> (more: bool)
    ensures
        more == page_is_full(returned as int, requested),
{
    requested >= 0 && returned as u64 == requested as u64
}

} // verus!
