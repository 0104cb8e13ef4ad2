use vstd::prelude::*;

verus! {

/// How many pages a result set of `total` elements occupies when cut into
/// pages of `page_size` elements: the integer quotient, plus one more page
/// when a non-empty remainder is left over.
pub open spec fn pages_for(total: u64, page_size: u64) -> int
    recommends
        page_size > 0,
{
    total as int / page_size as int + if total as int % page_size as int > 0 {
        1int
    } else {
        0int
    }
}

/// The page count is the ceiling of `total / page_size`, and it is zero
/// exactly when the result set is empty.
pub proof fn lemma_pages_is_ceil(total: u64, page_size: u64)
    requires
        page_size > 0,
    ensures
        pages_for(total, page_size) == (total as int + page_size as int - 1) / page_size as int,
        pages_for(total, page_size) == 0 <==> total == 0,
{
    let t = total as int;
    let p = page_size as int;
    assert(t / p + (if t % p > 0 { 1int } else { 0int }) == (t + p - 1) / p) by (nonlinear_arith)
        requires
            p > 0,
            t >= 0,
    ;
    assert((t / p + (if t % p > 0 { 1int } else { 0int }) == 0) <==> t == 0) by (nonlinear_arith)
        requires
            p > 0,
            t >= 0,
    ;
}

/// The paginated success-response envelope: one page of items together with
/// the size of the full result set and the moment the envelope was built.
pub struct ApiResponse<T> {
    pub content: Vec<T>,
    pub total_pages: u64,
    pub total_elements: u64,
    pub time: i64,
}

/// Relies on chrono::Utc::now and chrono::DateTime::timestamp_millis: the
/// current wall-clock time, as milliseconds since the Unix epoch. Nothing is
/// promised of the value, which depends on when the call is made.
#[verifier::external_body]
fn now_millis() -> i64 {
    chrono::Utc::now().timestamp_millis()
}

impl<T> ApiResponse<T> {
    /// An envelope for an operation that legitimately returns nothing.
    pub fn no_content() -> (r: ApiResponse<T>)
        ensures
            r.content@ == Seq::<T>::empty(),
            r.total_pages == 0,
            r.total_elements == 0,
    {
        ApiResponse { content: Vec::new(), total_pages: 0, total_elements: 0, time: now_millis() }
    }

    /// One page of a larger result set of `total` elements, cut into pages of
    /// `page_size` elements each.
    pub fn build(content: Vec<T>, total: u64, page_size: u64) -> (r: ApiResponse<T>)
        requires
            page_size > 0,
        ensures
            r.content@ == content@,
            r.total_elements == total,
            r.total_pages == pages_for(total, page_size),
    {
        let quotient = total / page_size;
        let extra: u64 = if total % page_size > 0 {
            1
        } else {
            0
        };
        proof {
            if total % page_size > 0 {
                assert(page_size >= 2) by (nonlinear_arith)
                    requires
                        page_size > 0,
                        total % page_size > 0,
                ;
                assert(total as int / page_size as int + 1 <= u64::MAX) by (nonlinear_arith)
                    requires
                        page_size >= 2,
                        0 <= total <= u64::MAX,
                ;
            }
        }
        ApiResponse {
            content,
            total_pages: quotient + extra,
            total_elements: total,
            time: now_millis(),
        }
    }

    /// A single-page envelope holding a complete, unpaged result set.
    pub fn build_mono_page(content: Vec<T>) -> (r: ApiResponse<T>)
        ensures
            r.content@ == content@,
            r.total_elements == content@.len(),
            r.total_pages == 1,
    {
        let total_elements = content.len() as u64;
        ApiResponse { content, total_pages: 1, total_elements, time: now_millis() }
    }
}

} // verus!
