//! The student's checklist: which rubric codes were checked before a
//! revision is submitted, how it is compared with the codes the link was made
//! for, and how it is stored and read back as JSON.

use vstd::prelude::*;
use vstd::relations::{sorted_by, total_ordering};

use crate::error::{outcome, refusal, ApiError, UNPROCESSABLE_ENTITY};
use crate::text::decimal;

verus! {

broadcast use vstd::seq_lib::group_to_multiset_ensures;

/// The order in which rubric ids are kept: ascending.
pub open spec fn id_order() -> spec_fn(i64, i64) -> bool {
    |a: i64, b: i64| a <= b
}

/// `ids` in ascending order.
pub open spec fn sorted_ids(ids: Seq<i64>) -> Seq<i64> {
    ids.sort_by(id_order())
}

/// Whether two lists hold the same ids, each as often, in any order.
pub open spec fn same_ids(a: Seq<i64>, b: Seq<i64>) -> bool {
    a.to_multiset() == b.to_multiset()
}

pub proof fn lemma_id_order_total()
    ensures
        total_ordering(id_order()),
{
}

/// Sorting keeps the ids and puts them in ascending order; two lists sort to
/// the same list exactly when they hold the same ids.
pub proof fn lemma_sorted_ids(a: Seq<i64>, b: Seq<i64>)
    ensures
        same_ids(sorted_ids(a), a),
        sorted_by(sorted_ids(a), id_order()),
        (sorted_ids(a) == sorted_ids(b)) <==> same_ids(a, b),
{
    lemma_id_order_total();
    a.lemma_sort_by_ensures(id_order());
    b.lemma_sort_by_ensures(id_order());
    if same_ids(a, b) {
        vstd::seq_lib::lemma_sorted_unique(sorted_ids(a), sorted_ids(b), id_order());
    }
}

/// `ids` in ascending order (an insertion sort).
pub fn sort_ids(ids: &Vec<i64>) -> (r: Vec<i64>)
    ensures
        r@ == sorted_ids(ids@),
{
    let mut r: Vec<i64> = Vec::new();
    let n = ids.len();
    let mut i: usize = 0;
    while i < n
        invariant
            n == ids@.len(),
            i <= n,
            sorted_by(r@, id_order()),
            r@.to_multiset() == ids@.take(i as int).to_multiset(),
        decreases n - i,
    {
        let x = ids[i];
        let mut j: usize = 0;
        while j < r.len() && r[j] <= x
            invariant
                j <= r@.len(),
                forall|k: int| 0 <= k < j ==> r@[k] <= x,
            decreases r.len() - j,
        {
            j = j + 1;
        }
        let ghost old_r = r@;
        proof {
            assert forall|k: int| j <= k < old_r.len() implies x < #[trigger] old_r[k] by {
                assert(id_order()(old_r[j as int], old_r[k]) || k == j);
            }
        }
        r.insert(j, x);
        proof {
            let nr = r@;
            assert(nr == old_r.insert(j as int, x));
            assert forall|p: int, q: int| 0 <= p < q < nr.len() implies #[trigger] id_order()(
                nr[p],
                nr[q],
            ) by {
                if q < j {
                    assert(id_order()(old_r[p], old_r[q]));
                } else if q == j {
                } else if p < j {
                    assert(id_order()(old_r[p], old_r[q - 1]));
                } else if p == j {
                } else {
                    assert(id_order()(old_r[p - 1], old_r[q - 1]));
                }
            }
            assert(ids@.take(i + 1) =~= ids@.take(i as int).push(x));
        }
        i = i + 1;
    }
    proof {
        assert(ids@.take(n as int) =~= ids@);
        lemma_sorted_ids(ids@, ids@);
        lemma_id_order_total();
        vstd::seq_lib::lemma_sorted_unique(r@, sorted_ids(ids@), id_order());
    }
    r
}

/// Whether two id lists are equal, element by element.
fn ids_equal(a: &Vec<i64>, b: &Vec<i64>) -> (eq: bool)
    ensures
        eq == (a@ == b@),
{
    if a.len() != b.len() {
        return false;
    }
    let mut i: usize = 0;
    while i < a.len()
        invariant
            i <= a@.len() == b@.len(),
            forall|k: int| 0 <= k < i ==> a@[k] == b@[k],
        decreases a.len() - i,
    {
        if a[i] != b[i] {
            assert(a@[i as int] != b@[i as int]);
            return false;
        }
        i = i + 1;
    }
    assert(a@ =~= b@);
    true
}

/// The decimal text of an id, with a leading `-` when it is negative (as
/// `itoa` writes it for serde_json).
pub open spec fn id_text(x: i64) -> Seq<char> {
    if x < 0 {
        seq!['-'] + decimal((-(x as int)) as nat)
    } else {
        decimal(x as nat)
    }
}

/// The ids' decimal texts, separated by commas.
pub open spec fn id_list_items(ids: Seq<i64>) -> Seq<char>
    decreases ids.len(),
{
    if ids.len() == 0 {
        Seq::empty()
    } else if ids.len() == 1 {
        id_text(ids[0])
    } else {
        id_list_items(ids.drop_last()) + seq![','] + id_text(ids.last())
    }
}

/// The JSON text that `serde_json::to_string` writes for a list of ids:
/// `[`, the ids separated by commas, `]`.
pub open spec fn ids_json(ids: Seq<i64>) -> Seq<char> {
    seq!['['] + id_list_items(ids) + seq![']']
}

/// What `serde_json::from_str::<Vec<i64>>` gives for `text` (`None` where it
/// reports an error).
pub uninterp spec fn ids_from_json(text: Seq<char>) -> Option<Seq<i64>>;

/// Calls `serde_json::to_string` on a list of ids. The contract claims that
/// it succeeds and writes `ids_json` (its compact formatter writes `[`, the
/// `itoa` text of each id with `,` between them, and `]`; writing into a
/// `Vec` cannot fail), and that `serde_json::from_str` reads that text back
/// as the same list.
#[verifier::external_body]
fn write_ids_json(ids: &Vec<i64>) -> (res: Option<String>)
    ensures
        res is Some,
        res matches Some(s) ==> s@ == ids_json(ids@) && ids_from_json(s@) == Some(ids@),
{
    serde_json::to_string(ids).ok()
}

/// Calls `serde_json::from_str::<Vec<i64>>`; its result is named
/// `ids_from_json`. The contract also claims that text which serde_json
/// writes for a list of ids reads back as that list.
#[verifier::external_body]
fn read_ids_json(text: &str) -> (res: Option<Vec<i64>>)
    ensures
        match res {
            Some(v) => ids_from_json(text@) == Some(v@),
            None => ids_from_json(text@) is None,
        },
        res is None ==> forall|ids: Seq<i64>| #[trigger] ids_json(ids) != text@,
        res matches Some(v) ==> forall|ids: Seq<i64>| #[trigger] ids_json(ids) == text@ ==> v@ == ids,
{
    serde_json::from_str::<Vec<i64>>(text).ok()
}

/// The checklist as it is read back from storage: the stored JSON list, or
/// an empty list where the text is not one.
pub open spec fn stored_ids(text: Seq<char>) -> Seq<i64> {
    match ids_from_json(text) {
        Some(ids) => ids,
        None => Seq::empty(),
    }
}

/// Reads a stored checklist; text that is not a JSON list of ids reads as
/// an empty checklist, and the text written for a list reads as that list.
pub fn stored_checklist(text: &str) -> (ids: Vec<i64>)
    ensures
        ids@ == stored_ids(text@),
        forall|written: Seq<i64>| #[trigger] ids_json(written) == text@ ==> ids@ == written,
{
    match read_ids_json(text) {
        Some(v) => v,
        None => Vec::new(),
    }
}

/// The submitted checklist, checked against the codes of the link: refused
/// unless it holds exactly the assigned ids (in any order, none twice that is
/// assigned once); accepted, it is stored as the JSON of its sorted ids.
pub open spec fn checklist_record(assigned: Seq<i64>, checklist: Seq<i64>) -> Result<
    Seq<char>,
    (u16, Seq<char>),
> {
    if !same_ids(assigned, checklist) {
        Err(refusal(UNPROCESSABLE_ENTITY, "Check each rubric step before submitting."@))
    } else {
        Ok(ids_json(sorted_ids(checklist)))
    }
}

/// Checks a submitted checklist against the ids assigned to the link and
/// gives the text to store for it.
pub fn checklist_for_storage(assigned: &Vec<i64>, checklist: &Vec<i64>) -> (r: Result<
    String,
    ApiError,
>)
    ensures
        outcome(r) == checklist_record(assigned@, checklist@),
        r is Err && r->Err_0.status == UNPROCESSABLE_ENTITY <==> !same_ids(assigned@, checklist@),
        same_ids(assigned@, checklist@) ==> (r matches Ok(text) && text@ == ids_json(
            sorted_ids(assigned@),
        )),
        r matches Ok(text) ==> ids_from_json(text@) == Some(sorted_ids(assigned@)),
{
    let assigned_sorted = sort_ids(assigned);
    let checklist_sorted = sort_ids(checklist);
    proof {
        lemma_sorted_ids(assigned@, checklist@);
        lemma_sorted_ids(assigned@, assigned@);
        lemma_sorted_ids(checklist@, checklist@);
    }
    if !ids_equal(&checklist_sorted, &assigned_sorted) {
        return Err(ApiError::validation("Check each rubric step before submitting."));
    }
    match write_ids_json(&checklist_sorted) {
        Some(text) => Ok(text),
        None => Err(ApiError::internal()),
    }
}

} // verus!
