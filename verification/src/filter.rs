use vstd::prelude::*;
use vstd::string::*;

verus! {

/// The case-folded form of a text.
pub uninterp spec fn lower_of(s: Seq<char>) -> Seq<char>;

/// Relies on str::to_lowercase: the folded text depends on the characters
/// alone, and an empty text stays empty.
#[verifier::external_body]
fn to_lowercase_str(s: &str) -> (r: String)
    ensures
        r@ == lower_of(s@),
        s@.len() == 0 ==> r@.len() == 0,
{
    s.to_lowercase()
}

/// `needle` occurs in `hay` starting at character position `i`.
pub open spec fn matches_at(hay: Seq<char>, needle: Seq<char>, i: int) -> bool {
    &&& 0 <= i
    &&& i + needle.len() <= hay.len()
    &&& hay.subrange(i, i + needle.len()) == needle
}

/// `needle` occurs somewhere in `hay`.
pub open spec fn spec_contains(hay: Seq<char>, needle: Seq<char>) -> bool {
    exists|i: int| matches_at(hay, needle, i)
}

/// Whether `needle` occurs in `hay` at exactly position `i`.
fn match_at(hay: &str, needle: &str, i: usize, n: usize, m: usize) -> (r: bool)
    requires
        n == hay@.len(),
        m == needle@.len(),
        i + m <= n,
    ensures
        r == matches_at(hay@, needle@, i as int),
{
    let mut k: usize = 0;
    while k < m
        invariant
            n == hay@.len(),
            m == needle@.len(),
            i + m <= n,
            k <= m,
            forall|t: int| 0 <= t < k ==> hay@[i + t] == needle@[t],
        decreases m - k,
    {
        if hay.get_char(i + k) != needle.get_char(k) {
            proof {
                let sub = hay@.subrange(i as int, i + m);
                assert(sub[k as int] == hay@[i + k]);
            }
            return false;
        }
        k += 1;
    }
    proof {
        assert(hay@.subrange(i as int, i + m) =~= needle@);
    }
    true
}

/// Character position of the first occurrence of `needle` in `hay`, if any.
pub fn substring_index(hay: &str, needle: &str) -> (r: Option<usize>)
    ensures
        match r {
            Some(i) => matches_at(hay@, needle@, i as int) && forall|j: int|
                0 <= j < i ==> !matches_at(hay@, needle@, j),
            None => !spec_contains(hay@, needle@),
        },
{
    let n = hay.unicode_len();
    let m = needle.unicode_len();
    if m == 0 {
        proof {
            assert(hay@.subrange(0, 0) =~= needle@);
        }
        return Some(0);
    }
    if m > n {
        proof {
            assert forall|j: int| !matches_at(hay@, needle@, j) by {}
        }
        return None;
    }
    let mut i: usize = 0;
    while i <= n - m
        invariant
            n == hay@.len(),
            m == needle@.len(),
            1 <= m <= n,
            i <= n - m + 1,
            forall|j: int| 0 <= j < i ==> !matches_at(hay@, needle@, j),
        decreases n - m - i + 1,
    {
        if match_at(hay, needle, i, n, m) {
            return Some(i);
        }
        i += 1;
    }
    proof {
        assert forall|j: int| !matches_at(hay@, needle@, j) by {
            if 0 <= j && j + needle@.len() <= hay@.len() {
                assert(j < i);
            }
        }
    }
    None
}

/// A row matches a query when the folded query occurs in the folded row text.
pub open spec fn row_matches(row: Seq<char>, query: Seq<char>) -> bool {
    spec_contains(lower_of(row), lower_of(query))
}

/// Indices below `upto` of the rows that match the query, in row order.
pub open spec fn filtered_prefix(rows: Seq<Seq<char>>, query: Seq<char>, upto: int) -> Seq<usize>
    decreases upto,
{
    if upto <= 0 {
        Seq::empty()
    } else {
        let rest = filtered_prefix(rows, query, upto - 1);
        if row_matches(rows[upto - 1], query) {
            rest.push((upto - 1) as usize)
        } else {
            rest
        }
    }
}

/// The view-index permutation a query induces over a row set: the indices of
/// the matching rows, preserving the original order, the rows untouched.
pub open spec fn filter_view(rows: Seq<Seq<char>>, query: Seq<char>) -> Seq<usize> {
    filtered_prefix(rows, query, rows.len() as int)
}

/// Every index the filter selects is in range and addresses a matching row.
pub proof fn lemma_filtered_prefix_elems(rows: Seq<Seq<char>>, query: Seq<char>, upto: int)
    requires
        upto <= usize::MAX + 1,
    ensures
        forall|j: int|
            0 <= j < filtered_prefix(rows, query, upto).len() ==> 0 <= #[trigger] filtered_prefix(
                rows,
                query,
                upto,
            )[j] < upto && row_matches(rows[filtered_prefix(rows, query, upto)[j] as int], query),
    decreases upto,
{
    if upto > 0 {
        lemma_filtered_prefix_elems(rows, query, upto - 1);
        let rest = filtered_prefix(rows, query, upto - 1);
        assert forall|j: int|
            0 <= j < filtered_prefix(rows, query, upto).len() implies 0 <= #[trigger] filtered_prefix(
            rows,
            query,
            upto,
        )[j] < upto && row_matches(rows[filtered_prefix(rows, query, upto)[j] as int], query) by {
            let cur = filtered_prefix(rows, query, upto);
            if row_matches(rows[upto - 1], query) {
                assert(cur == rest.push((upto - 1) as usize));
                if j < rest.len() {
                    assert(cur[j] == rest[j]);
                } else {
                    assert(cur[j] == (upto - 1) as usize);
                }
            } else {
                assert(cur == rest);
            }
        }
    }
}

/// The filter selects at most one index per row.
pub proof fn lemma_filtered_prefix_len(rows: Seq<Seq<char>>, query: Seq<char>, upto: int)
    requires
        upto >= 0,
    ensures
        filtered_prefix(rows, query, upto).len() <= upto,
    decreases upto,
{
    if upto > 0 {
        lemma_filtered_prefix_len(rows, query, upto - 1);
    }
}

/// When every row matches, the filter keeps them all in order.
proof fn lemma_filter_all(rows: Seq<Seq<char>>, query: Seq<char>, upto: int)
    requires
        rows.len() <= usize::MAX,
        0 <= upto <= rows.len(),
        forall|i: int| 0 <= i < rows.len() ==> row_matches(#[trigger] rows[i], query),
    ensures
        filtered_prefix(rows, query, upto) == Seq::new(upto as nat, |i: int| i as usize),
    decreases upto,
{
    if upto > 0 {
        lemma_filter_all(rows, query, upto - 1);
        assert(Seq::new(upto as nat, |i: int| i as usize) =~= Seq::new(
            (upto - 1) as nat,
            |i: int| i as usize,
        ).push((upto - 1) as usize));
    }
}

/// Law: a query whose folded form is empty keeps every row, so the filter
/// yields the identity ordering over the whole row set.
pub proof fn lemma_empty_query_identity(rows: Seq<Seq<char>>, query: Seq<char>)
    requires
        rows.len() <= usize::MAX,
        lower_of(query) == Seq::<char>::empty(),
    ensures
        filter_view(rows, query) == Seq::new(rows.len(), |i: int| i as usize),
{
    assert forall|i: int| 0 <= i < rows.len() implies row_matches(#[trigger] rows[i], query) by {
        let hay = lower_of(rows[i]);
        assert(hay.subrange(0, 0) =~= Seq::<char>::empty());
        assert(matches_at(hay, lower_of(query), 0));
    }
    lemma_filter_all(rows, query, rows.len() as int);
}

/// Law: the filter never rewrites the rows, and every row it selects matches
/// the query; filtering the selected rows again with the same query therefore
/// keeps them all — filtering twice yields the same selection.
pub proof fn lemma_filter_idempotent(rows: Seq<Seq<char>>, query: Seq<char>)
    requires
        rows.len() <= usize::MAX,
    ensures
        ({
            let view = filter_view(rows, query);
            let selected = Seq::new(view.len(), |j: int| rows[view[j] as int]);
            filter_view(selected, query) == Seq::new(selected.len(), |i: int| i as usize)
        }),
{
    let view = filter_view(rows, query);
    let selected = Seq::new(view.len(), |j: int| rows[view[j] as int]);
    lemma_filtered_prefix_len(rows, query, rows.len() as int);
    lemma_filtered_prefix_elems(rows, query, rows.len() as int);
    assert forall|i: int| 0 <= i < selected.len() implies row_matches(
        #[trigger] selected[i],
        query,
    ) by {
        assert(selected[i] == rows[view[i] as int]);
    }
    lemma_filter_all(selected, query, selected.len() as int);
}

/// Computes the view indices for a substring query over the rows' plain text,
/// case-insensitively: the indices of the matching rows in their original
/// order. An empty query restores the identity ordering.
pub fn filter_indices(rows: &Vec<String>, query: &str) -> (r: Vec<usize>)
    ensures
        r@ == filter_view(rows.deep_view(), query@),
        query@.len() == 0 ==> r@ == Seq::new(rows@.len(), |i: int| i as usize),
{
    let ghost ls = rows.deep_view();
    let lq = to_lowercase_str(query);
    let n = rows.len();
    let mut out: Vec<usize> = Vec::new();
    let mut i: usize = 0;
    while i < n
        invariant
            n == rows@.len(),
            ls == rows.deep_view(),
            i <= n,
            lq@ == lower_of(query@),
            out@ == filtered_prefix(ls, query@, i as int),
        decreases n - i,
    {
        let lr = to_lowercase_str(rows[i].as_str());
        let found = substring_index(lr.as_str(), lq.as_str());
        match found {
            Some(_) => {
                assert(row_matches(ls[i as int], query@));
                out.push(i);
            },
            None => {
                assert(!row_matches(ls[i as int], query@));
            },
        }
        i += 1;
    }
    proof {
        if query@.len() == 0 {
            assert(ls.len() == n);
            assert(lower_of(query@) =~= Seq::<char>::empty());
            lemma_empty_query_identity(ls, query@);
        }
    }
    out
}

} // verus!
