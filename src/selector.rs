use vstd::prelude::*;
use vstd::string::StringExecFns;

use crate::error::ConvertError;
use crate::shared_read_seek::SharedReadSeek;
use crate::text::{trim_whitespace, trimmed};

verus! {

/// What the pyramid selection reads from one input document's header.
#[derive(Debug, Clone)]
pub struct Candidate {
    /// Components of the image-type label, each with surrounding whitespace removed.
    pub image_type: Vec<String>,
    /// Total pixel-matrix columns, where the header has it.
    pub columns: Option<u32>,
}

pub open spec fn string_views(v: Seq<String>) -> Seq<Seq<char>> {
    v.map_values(|s: String| s@)
}

/// The image-type tuples that mark a document as a pyramid level.
pub open spec fn is_pyramid_image_type(v: Seq<Seq<char>>) -> bool {
    v == seq!["ORIGINAL"@, "PRIMARY"@, "VOLUME"@, "NONE"@]
        || v == seq!["DERIVED"@, "PRIMARY"@, "VOLUME"@, "NONE"@]
        || v == seq!["DERIVED"@, "PRIMARY"@, "VOLUME"@, "RESAMPLED"@]
}

pub open spec fn is_accepted(c: Candidate) -> bool {
    is_pyramid_image_type(string_views(c.image_type@))
}

/// The sort key: the column count, with an absent count taken as zero.
pub open spec fn column_key(c: Candidate) -> u32 {
    match c.columns {
        Some(n) => n,
        None => 0,
    }
}

/// Candidate `a` comes before candidate `b`: more columns first, and input
/// order among equal counts.
pub open spec fn precedes(cs: Seq<Candidate>, a: int, b: int) -> bool {
    column_key(cs[a]) > column_key(cs[b]) || (column_key(cs[a]) == column_key(cs[b]) && a < b)
}

pub open spec fn is_sorted_by_columns(cs: Seq<Candidate>, order: Seq<usize>) -> bool {
    forall|x: int, y: int|
        0 <= x < y < order.len() ==> #[trigger] precedes(cs, order[x] as int, order[y] as int)
}

/// Index `i` occurs in `order`.
pub open spec fn lists(order: Seq<usize>, i: int) -> bool {
    exists|k: int| 0 <= k < order.len() && order[k] as int == i
}

/// `order` lists exactly the accepted candidates, by descending column count,
/// keeping input order among equal counts.
pub open spec fn is_level_order(cs: Seq<Candidate>, order: Seq<usize>) -> bool {
    &&& forall|k: int| 0 <= k < order.len() ==> #[trigger] order[k] < cs.len()
    &&& forall|k: int| 0 <= k < order.len() ==> is_accepted(#[trigger] cs[order[k] as int])
    &&& forall|i: int| 0 <= i < cs.len() && is_accepted(#[trigger] cs[i]) ==> lists(order, i)
    &&& is_sorted_by_columns(cs, order)
}

fn is_tuple(values: &Vec<String>, a: &str, b: &str, c: &str, d: &str) -> (r: bool)
    ensures
        r == (string_views(values@) == seq![a@, b@, c@, d@]),
{
    let ghost expected = seq![a@, b@, c@, d@];
    if values.len() != 4 {
        assert(string_views(values@).len() != expected.len());
        return false;
    }
    let r = values[0] == String::from_str(a) && values[1] == String::from_str(b)
        && values[2] == String::from_str(c) && values[3] == String::from_str(d);
    if r {
        assert(string_views(values@) =~= expected);
    } else {
        assert(exists|k: int| 0 <= k < 4 && string_views(values@)[k] != expected[k]);
    }
    r
}

/// Whether trimmed image-type components form one of the pyramid-level tuples.
pub fn pyramid_image_type(values: &Vec<String>) -> (r: bool)
    ensures
        r == is_pyramid_image_type(string_views(values@)),
{
    is_tuple(values, "ORIGINAL", "PRIMARY", "VOLUME", "NONE")
        || is_tuple(values, "DERIVED", "PRIMARY", "VOLUME", "NONE")
        || is_tuple(values, "DERIVED", "PRIMARY", "VOLUME", "RESAMPLED")
}

fn key_of(c: &Candidate) -> (r: u32)
    ensures
        r == column_key(*c),
{
    match c.columns {
        Some(n) => n,
        None => 0,
    }
}

/// Picks the pyramid levels among the candidates and orders them by
/// descending column count, keeping input order among equal counts.
pub fn select_levels(candidates: &Vec<Candidate>) -> (r: Result<Vec<usize>, ConvertError>)
    ensures
        match r {
            Ok(order) => order.len() > 0 && is_level_order(candidates@, order@),
            Err(e) => e == ConvertError::InputClassification && forall|i: int|
                0 <= i < candidates.len() ==> !is_accepted(#[trigger] candidates@[i]),
        },
{
    let ghost cs = candidates@;
    let mut order: Vec<usize> = Vec::new();
    let mut i: usize = 0;
    while i < candidates.len()
        invariant
            cs == candidates@,
            i <= cs.len(),
            forall|k: int| 0 <= k < order.len() ==> #[trigger] order[k] < i,
            forall|k: int| 0 <= k < order.len() ==> is_accepted(#[trigger] cs[order[k] as int]),
            forall|j: int| 0 <= j < i && is_accepted(#[trigger] cs[j]) ==> lists(order@, j),
            is_sorted_by_columns(cs, order@),
        decreases cs.len() - i,
    {
        if pyramid_image_type(&candidates[i].image_type) {
            let key = key_of(&candidates[i]);
            let mut p: usize = 0;
            while p < order.len() && key_of(&candidates[order[p]]) >= key
                invariant
                    cs == candidates@,
                    i < cs.len(),
                    key == column_key(cs[i as int]),
                    p <= order.len(),
                    forall|k: int| 0 <= k < order.len() ==> #[trigger] order[k] < i,
            forall|k: int| 0 <= k < order.len() ==> is_accepted(#[trigger] cs[order[k] as int]),
                    forall|k: int| 0 <= k < p ==> #[trigger] precedes(cs, order[k] as int, i as int),
                decreases order.len() - p,
            {
                p = p + 1;
            }
            let ghost old_order = order@;
            assert forall|k: int| p <= k < old_order.len() implies #[trigger] precedes(cs, i as int, old_order[k] as int) by {
                if k > p {
                    assert(precedes(cs, old_order[p as int] as int, old_order[k] as int));
                }
            }
            order.insert(p, i);
            assert forall|x: int, y: int| 0 <= x < y < order.len() implies #[trigger] precedes(cs, order[x] as int, order[y] as int) by {
                if y < p {
                    assert(precedes(cs, old_order[x] as int, old_order[y] as int));
                } else if y == p {
                } else if x < p {
                    assert(precedes(cs, old_order[x] as int, old_order[y - 1] as int));
                } else if x == p {
                } else {
                    assert(precedes(cs, old_order[x - 1] as int, old_order[y - 1] as int));
                }
            }
            assert(order@[p as int] == i);
            assert forall|k: int| 0 <= k < order.len() implies #[trigger] order[k] < i + 1 && is_accepted(cs[order[k] as int]) by {
                if k < p {
                    assert(order[k] == old_order[k]);
                } else if k > p {
                    assert(order[k] == old_order[k - 1]);
                }
            }
            assert forall|j: int| 0 <= j < i + 1 && is_accepted(#[trigger] cs[j]) implies lists(order@, j) by {
                if j < i {
                    let k = choose|k: int| 0 <= k < old_order.len() && old_order[k] as int == j;
                    if k < p {
                        assert(order@[k] as int == j);
                    } else {
                        assert(order@[k + 1] as int == j);
                    }
                } else {
                    assert(order@[p as int] as int == j);
                }
            }
        }
        i = i + 1;
    }
    if order.len() == 0 {
        assert forall|j: int| 0 <= j < cs.len() implies !is_accepted(#[trigger] cs[j]) by {
            if is_accepted(cs[j]) {
                assert(lists(order@, j));
            }
        }
        Err(ConvertError::InputClassification)
    } else {
        Ok(order)
    }
}

impl Candidate {
    /// A candidate from the raw image-type components of a header, each trimmed
    /// of surrounding whitespace.
    pub fn from_header(image_type: &Vec<String>, columns: Option<u32>) -> (r: Candidate)
        ensures
            r.image_type@.len() == image_type@.len(),
            forall|k: int| 0 <= k < image_type@.len() ==> #[trigger] r.image_type@[k]@ == trimmed(image_type@[k]@),
            r.columns == columns,
    {
        let mut values: Vec<String> = Vec::new();
        let mut k: usize = 0;
        while k < image_type.len()
            invariant
                k <= image_type@.len(),
                values@.len() == k,
                forall|j: int| 0 <= j < k ==> #[trigger] values@[j]@ == trimmed(image_type@[j]@),
            decreases image_type@.len() - k,
        {
            values.push(trim_whitespace(&image_type[k]));
            k = k + 1;
        }
        Candidate { image_type: values, columns }
    }
}

/// The handles of the pyramid levels, highest resolution first: the handle of
/// candidate `i` is `sources[i]`.
pub fn pyramid_sources(sources: &Vec<SharedReadSeek>, candidates: &Vec<Candidate>) -> (r: Result<
    Vec<SharedReadSeek>,
    ConvertError,
>)
    requires
        sources.len() == candidates.len(),
    ensures
        r is Err <==> forall|i: int| 0 <= i < candidates.len() ==> !is_accepted(#[trigger] candidates@[i]),
        r is Err ==> r->Err_0 == ConvertError::InputClassification,
        r is Ok ==> exists|order: Seq<usize>|
            {
                &&& is_level_order(candidates@, order)
                &&& order.len() == r->Ok_0.len()
                &&& forall|k: int| 0 <= k < order.len() ==> #[trigger] r->Ok_0@[k] == sources@[order[k] as int]
            },
{
    let order = match select_levels(candidates) {
        Ok(order) => order,
        Err(e) => return Err(e),
    };
    let mut r: Vec<SharedReadSeek> = Vec::new();
    let mut k: usize = 0;
    while k < order.len()
        invariant
            is_level_order(candidates@, order@),
            sources.len() == candidates.len(),
            k <= order.len(),
            r@.len() == k,
            forall|j: int| 0 <= j < k ==> #[trigger] r@[j] == sources@[order@[j] as int],
        decreases order.len() - k,
    {
        r.push(sources[order[k]]);
        k = k + 1;
    }
    assert(is_accepted(candidates@[order@[0] as int]));
    assert(exists|order: Seq<usize>|
        {
            &&& is_level_order(candidates@, order)
            &&& order.len() == r@.len()
            &&& forall|k: int| 0 <= k < order.len() ==> #[trigger] r@[k] == sources@[order[k] as int]
        });
    Ok(r)
}

/// Levels come out by descending column count, and levels with equal column
/// counts keep the order in which they were given.
pub proof fn lemma_levels_descending(cs: Seq<Candidate>, order: Seq<usize>, x: int, y: int)
    requires
        is_level_order(cs, order),
        0 <= x < y < order.len(),
    ensures
        column_key(cs[order[x] as int]) >= column_key(cs[order[y] as int]),
        column_key(cs[order[x] as int]) == column_key(cs[order[y] as int]) ==> order[x] < order[y],
{
    assert(precedes(cs, order[x] as int, order[y] as int));
}

/// Where all column counts differ, the levels come out strictly descending by
/// column count, whatever the order of the inputs.
pub proof fn lemma_distinct_columns_strictly_descending(cs: Seq<Candidate>, order: Seq<usize>)
    requires
        is_level_order(cs, order),
        forall|i: int, j: int|
            0 <= i < j < cs.len() ==> column_key(#[trigger] cs[i]) != column_key(#[trigger] cs[j]),
    ensures
        forall|x: int, y: int|
            0 <= x < y < order.len() ==> column_key(#[trigger] cs[order[x] as int]) > column_key(
                #[trigger] cs[order[y] as int],
            ),
{
    assert forall|x: int, y: int| 0 <= x < y < order.len() implies column_key(
        #[trigger] cs[order[x] as int],
    ) > column_key(#[trigger] cs[order[y] as int]) by {
        assert(precedes(cs, order[x] as int, order[y] as int));
        let (a, b) = (order[x] as int, order[y] as int);
        if a < b {
            assert(column_key(cs[a]) != column_key(cs[b]));
        } else if b < a {
            assert(column_key(cs[b]) != column_key(cs[a]));
        }
    }
}

/// A document whose image type is not a pyramid tuple yields no level, and no
/// document yields two.
pub proof fn lemma_rejected_excluded(cs: Seq<Candidate>, order: Seq<usize>)
    requires
        is_level_order(cs, order),
    ensures
        forall|i: int, k: int|
            0 <= i < cs.len() && !is_accepted(#[trigger] cs[i]) && 0 <= k < order.len() ==> #[trigger] order[k] as int != i,
        order.no_duplicates(),
{
    assert forall|x: int, y: int| 0 <= x < order.len() && 0 <= y < order.len() && x != y implies order[x] != order[y] by {
        if x < y {
            assert(precedes(cs, order[x] as int, order[y] as int));
        } else {
            assert(precedes(cs, order[y] as int, order[x] as int));
        }
    }
}

/// A single valid document yields exactly one level: itself.
pub proof fn lemma_single_document(cs: Seq<Candidate>, order: Seq<usize>)
    requires
        cs.len() == 1,
        is_accepted(cs[0]),
        is_level_order(cs, order),
    ensures
        order == seq![0usize],
{
    assert(lists(order, 0));
    lemma_rejected_excluded(cs, order);
    if order.len() > 1 {
        assert(order[0] < 1 && order[1] < 1);
        assert(order[0] != order[1]);
    }
    assert(order =~= seq![0usize]);
}

/// The candidates that an order lists, in that order.
pub open spec fn listed(cs: Seq<Candidate>, order: Seq<usize>) -> Seq<Candidate> {
    order.map_values(|i: usize| cs[i as int])
}

/// No two accepted candidates have the same column count.
pub open spec fn distinct_accepted_columns(cs: Seq<Candidate>) -> bool {
    forall|i: int, j: int|
        0 <= i < cs.len() && 0 <= j < cs.len() && i != j && is_accepted(#[trigger] cs[i])
            && is_accepted(#[trigger] cs[j]) ==> column_key(cs[i]) != column_key(cs[j])
}

proof fn lemma_strictly_descending_unique(s1: Seq<Candidate>, s2: Seq<Candidate>)
    requires
        forall|x: int, y: int| 0 <= x < y < s1.len() ==> column_key(#[trigger] s1[x]) > column_key(#[trigger] s1[y]),
        forall|x: int, y: int| 0 <= x < y < s2.len() ==> column_key(#[trigger] s2[x]) > column_key(#[trigger] s2[y]),
        forall|c: Candidate| s1.contains(c) <==> s2.contains(c),
    ensures
        s1 == s2,
    decreases s1.len(),
{
    if s1.len() == 0 {
        if s2.len() > 0 {
            assert(s2.contains(s2[0]));
        }
        assert(s1 =~= s2);
    } else {
        if s2.len() == 0 {
            assert(s1.contains(s1[0]));
        }
        assert(s1.contains(s1[0]));
        let j = choose|j: int| 0 <= j < s2.len() && s2[j] == s1[0];
        assert(s2.contains(s2[0]));
        let i = choose|i: int| 0 <= i < s1.len() && s1[i] == s2[0];
        if j > 0 {
            assert(column_key(s2[0]) > column_key(s2[j]));
            if i > 0 {
                assert(column_key(s1[0]) > column_key(s1[i]));
            }
        }
        assert(s1[0] == s2[0]);
        let t1 = s1.drop_first();
        let t2 = s2.drop_first();
        assert forall|c: Candidate| t1.contains(c) <==> t2.contains(c) by {
            if t1.contains(c) {
                let k = choose|k: int| 0 <= k < t1.len() && t1[k] == c;
                assert(s1[k + 1] == c);
                assert(column_key(s1[0]) > column_key(s1[k + 1]));
                assert(s2.contains(c));
                let m = choose|m: int| 0 <= m < s2.len() && s2[m] == c;
                assert(m != 0);
                assert(t2[m - 1] == c);
            }
            if t2.contains(c) {
                let k = choose|k: int| 0 <= k < t2.len() && t2[k] == c;
                assert(s2[k + 1] == c);
                assert(column_key(s2[0]) > column_key(s2[k + 1]));
                assert(s1.contains(c));
                let m = choose|m: int| 0 <= m < s1.len() && s1[m] == c;
                assert(m != 0);
                assert(t1[m - 1] == c);
            }
        }
        lemma_strictly_descending_unique(t1, t2);
        assert(s1 =~= seq![s1[0]] + t1);
        assert(s2 =~= seq![s2[0]] + t2);
    }
}

proof fn lemma_listed_strictly_descending(cs: Seq<Candidate>, order: Seq<usize>)
    requires
        is_level_order(cs, order),
        distinct_accepted_columns(cs),
    ensures
        forall|x: int, y: int|
            0 <= x < y < listed(cs, order).len() ==> column_key(#[trigger] listed(cs, order)[x]) > column_key(
                #[trigger] listed(cs, order)[y],
            ),
        forall|c: Candidate|
            listed(cs, order).contains(c) <==> exists|i: int| 0 <= i < cs.len() && is_accepted(c) && #[trigger] cs[i] == c,
{
    let s = listed(cs, order);
    lemma_rejected_excluded(cs, order);
    assert forall|x: int, y: int| 0 <= x < y < s.len() implies column_key(#[trigger] s[x]) > column_key(#[trigger] s[y]) by {
        assert(precedes(cs, order[x] as int, order[y] as int));
        assert(is_accepted(cs[order[x] as int]) && is_accepted(cs[order[y] as int]));
        assert(order[x] != order[y]);
    }
    assert forall|c: Candidate| s.contains(c) <==> exists|i: int| 0 <= i < cs.len() && is_accepted(c) && #[trigger] cs[i] == c by {
        if s.contains(c) {
            let k = choose|k: int| 0 <= k < s.len() && s[k] == c;
            assert(is_accepted(cs[order[k] as int]));
            assert(cs[order[k] as int] == c);
        }
        if exists|i: int| 0 <= i < cs.len() && is_accepted(c) && #[trigger] cs[i] == c {
            let i = choose|i: int| 0 <= i < cs.len() && is_accepted(c) && #[trigger] cs[i] == c;
            assert(is_accepted(cs[i]));
            assert(lists(order, i));
            let k = choose|k: int| 0 <= k < order.len() && order[k] as int == i;
            assert(s[k] == c);
        }
    }
}

/// Where the accepted documents have distinct column counts, the levels come
/// out the same whatever order the same documents were given in.
pub proof fn lemma_order_independent_of_input(
    cs1: Seq<Candidate>,
    order1: Seq<usize>,
    cs2: Seq<Candidate>,
    order2: Seq<usize>,
)
    requires
        cs1.to_multiset() == cs2.to_multiset(),
        distinct_accepted_columns(cs1),
        distinct_accepted_columns(cs2),
        is_level_order(cs1, order1),
        is_level_order(cs2, order2),
    ensures
        listed(cs1, order1) == listed(cs2, order2),
{
    lemma_listed_strictly_descending(cs1, order1);
    lemma_listed_strictly_descending(cs2, order2);
    let s1 = listed(cs1, order1);
    let s2 = listed(cs2, order2);
    assert forall|c: Candidate| s1.contains(c) <==> s2.contains(c) by {
        broadcast use vstd::seq_lib::group_to_multiset_ensures;
        if s1.contains(c) {
            let i = choose|i: int| 0 <= i < cs1.len() && is_accepted(c) && #[trigger] cs1[i] == c;
            assert(cs1.contains(c));
            assert(cs1.to_multiset().count(c) > 0);
            assert(cs2.to_multiset().count(c) > 0);
            assert(cs2.contains(c));
            let j = choose|j: int| 0 <= j < cs2.len() && cs2[j] == c;
            assert(cs2[j] == c);
        }
        if s2.contains(c) {
            let i = choose|i: int| 0 <= i < cs2.len() && is_accepted(c) && #[trigger] cs2[i] == c;
            assert(cs2.contains(c));
            assert(cs2.to_multiset().count(c) > 0);
            assert(cs1.to_multiset().count(c) > 0);
            assert(cs1.contains(c));
            let j = choose|j: int| 0 <= j < cs1.len() && cs1[j] == c;
            assert(cs1[j] == c);
        }
    }
    lemma_strictly_descending_unique(s1, s2);
}

} // verus!
