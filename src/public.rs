//! The read-only projections: one signature by identifier, and the list of
//! verified signatures, newest first. Neither carries an email address.
use vstd::prelude::*;
use crate::model::{PublicSignature, Signature};

verus! {

/// The public projection of a row.
pub open spec fn public_of(s: Signature) -> PublicSignature {
    PublicSignature {
        first_name: s.first_name,
        last_name: s.last_name,
        org: s.org,
        created_at: s.created_at,
        message: s.message,
    }
}

/// The public projections of the verified rows, in the rows' order.
pub open spec fn verified_views(rows: Seq<Signature>) -> Seq<PublicSignature>
    decreases rows.len(),
{
    if rows.len() == 0 {
        Seq::empty()
    } else {
        let before = verified_views(rows.drop_last());
        if rows.last().verified {
            before.push(public_of(rows.last()))
        } else {
            before
        }
    }
}

/// `v` is the public projection of one of the verified rows.
pub open spec fn from_verified_row(rows: Seq<Signature>, v: PublicSignature) -> bool {
    exists|i: int| 0 <= i < rows.len() && rows[i].verified && v == public_of(#[trigger] rows[i])
}

/// Newest first: `created_at` does not increase along the sequence.
pub open spec fn newest_first(v: Seq<PublicSignature>) -> bool {
    forall|i: int, j: int| 0 <= i < j < v.len() ==> v[i].created_at >= v[j].created_at
}

fn clone_text(o: &Option<String>) -> (r: Option<String>)
    ensures
        r == *o,
{
    match o {
        Some(s) => Some(s.clone()),
        None => None,
    }
}

/// The public projection of a signature: names, organisation, creation
/// time and message, and never the email address.
pub fn public_view(signature: &Signature) -> (r: PublicSignature)
    ensures
        r == public_of(*signature),
{
    PublicSignature {
        first_name: signature.first_name.clone(),
        last_name: signature.last_name.clone(),
        org: clone_text(&signature.org),
        created_at: signature.created_at,
        message: clone_text(&signature.message),
    }
}

/// Each projection in `verified_views(rows)` is that of a verified row.
pub proof fn lemma_views_are_verified(rows: Seq<Signature>, v: PublicSignature)
    requires
        verified_views(rows).contains(v),
    ensures
        from_verified_row(rows, v),
    decreases rows.len(),
{
    let before = verified_views(rows.drop_last());
    if before.contains(v) {
        lemma_views_are_verified(rows.drop_last(), v);
        let i = choose|i: int| 0 <= i < rows.drop_last().len() && rows.drop_last()[i].verified
            && v == public_of(#[trigger] rows.drop_last()[i]);
        assert(rows[i] == rows.drop_last()[i]);
    } else {
        assert(rows[rows.len() - 1] == rows.last());
    }
}

/// The verified signatures among `rows`, projected for the public and
/// ordered newest first. Rows with equal `created_at` keep their order.
pub fn list_verified(rows: &Vec<Signature>) -> (r: Vec<PublicSignature>)
    ensures
        r@.to_multiset() == verified_views(rows@).to_multiset(),
        newest_first(r@),
        forall|k: int| 0 <= k < r.len() ==> from_verified_row(rows@, #[trigger] r@[k]),
{
    broadcast use vstd::seq_lib::group_to_multiset_ensures, vstd::multiset::group_multiset_axioms;
    let mut r: Vec<PublicSignature> = Vec::new();
    let mut n: usize = 0;
    while n < rows.len()
        invariant
            n <= rows.len(),
            r@.to_multiset() == verified_views(rows@.subrange(0, n as int)).to_multiset(),
            newest_first(r@),
        decreases rows.len() - n,
    {
        let ghost before = r@;
        assert(rows@.subrange(0, n + 1).drop_last() =~= rows@.subrange(0, n as int));
        assert(rows@.subrange(0, n + 1).last() == rows@[n as int]);
        if rows[n].verified {
            let view = public_view(&rows[n]);
            let mut j: usize = 0;
            while j < r.len() && r[j].created_at >= view.created_at
                invariant
                    j <= r.len(),
                    r@ == before,
                    forall|k: int| 0 <= k < j ==> r@[k].created_at >= view.created_at,
                decreases r.len() - j,
            {
                j = j + 1;
            }
            r.insert(j, view);
            proof {
                let a = before.subrange(0, j as int);
                let b = before.subrange(j as int, before.len() as int);
                assert(before =~= a + b);
                assert(r@ =~= a.push(view) + b);
                vstd::seq_lib::lemma_multiset_commutative(a, b);
                vstd::seq_lib::lemma_multiset_commutative(a.push(view), b);
                a.to_multiset_ensures();
                verified_views(rows@.subrange(0, n as int)).to_multiset_ensures();
                assert(a.push(view).to_multiset() =~= a.to_multiset().insert(view));
                assert(r@.to_multiset() =~= before.to_multiset().insert(view));
                assert(verified_views(rows@.subrange(0, n + 1)) == verified_views(rows@.subrange(0, n as int)).push(view));
                assert forall|x: int, y: int| 0 <= x < y < r@.len() implies r@[x].created_at >= r@[y].created_at by {
                    if y < j {
                    } else if y == j {
                    } else if x < j {
                        assert(r@[y] == before[y - 1]);
                        if j < before.len() {
                            assert(before[j as int].created_at < view.created_at);
                            if y - 1 > j {
                                assert(before[j as int].created_at >= before[y - 1].created_at);
                            }
                        }
                    } else if x == j {
                        assert(r@[y] == before[y - 1]);
                        assert(before[j as int].created_at < view.created_at);
                        if y - 1 > j {
                            assert(before[j as int].created_at >= before[y - 1].created_at);
                        }
                    } else {
                        assert(r@[x] == before[x - 1]);
                        assert(r@[y] == before[y - 1]);
                    }
                }
            }
        }
        n = n + 1;
    }
    assert(rows@.subrange(0, rows.len() as int) =~= rows@);
    proof {
        assert forall|k: int| 0 <= k < r.len() implies from_verified_row(rows@, #[trigger] r@[k]) by {
            assert(r@.to_multiset().count(r@[k]) > 0);
            lemma_views_are_verified(rows@, r@[k]);
        }
    }
    r
}

} // verus!
