//! Extraction of well-known baggage entries from a trace context.
//!
//! Baggage is the set of key-value annotations that a trace context carries
//! across process boundaries. The extraction keeps the session, user and
//! role entries and hands them out as plain pairs.

use crate::capability::baggage_pairs;
use opentelemetry::Context as OtelContext;
use vstd::prelude::*;

verus! {

/// Whether `k` is one of the baggage keys the extraction keeps.
pub open spec fn known_baggage_key(k: Seq<char>) -> bool {
    ||| k == "session_id"@
    ||| k == "user_id"@
    ||| k == "role"@
}

/// The pairs of `s` whose key the extraction keeps, in order.
pub open spec fn selected_pairs(s: Seq<(String, String)>) -> Seq<(String, String)>
    decreases s.len(),
{
    if s.len() == 0 {
        Seq::empty()
    } else {
        let rest = selected_pairs(s.drop_last());
        if known_baggage_key(s.last().0@) {
            rest.push(s.last())
        } else {
            rest
        }
    }
}

/// Whether `k` is one of the kept baggage keys.
fn is_known_key(k: &String) -> (r: bool)
    ensures
        r == known_baggage_key(k@),
{
    *k == "session_id".to_owned() || *k == "user_id".to_owned() || *k == "role".to_owned()
}

/// Keeps exactly the session, user and role entries of `pairs`, in order.
pub fn select_known_baggage(pairs: &Vec<(String, String)>) -> (r: Vec<(String, String)>)
    ensures
        r@ == selected_pairs(pairs@),
{
    let n = pairs.len();
    let mut r: Vec<(String, String)> = Vec::new();
    let mut i: usize = 0;
    while i < n
        invariant
            n == pairs@.len(),
            i <= n,
            r@ == selected_pairs(pairs@.take(i as int)),
        decreases n - i,
    {
        let p = &pairs[i];
        if is_known_key(&p.0) {
            r.push((p.0.clone(), p.1.clone()));
        }
        proof {
            assert(pairs@.take(i + 1 as int).drop_last() =~= pairs@.take(i as int));
            assert(pairs@.take(i + 1 as int).last() == pairs@[i as int]);
            assert((pairs@[i as int].0, pairs@[i as int].1) == pairs@[i as int]);
        }
        i = i + 1;
    }
    proof {
        assert(pairs@.take(n as int) =~= pairs@);
    }
    r
}

/// Every selected pair carries a kept key.
proof fn lemma_selected_pairs_known(s: Seq<(String, String)>)
    ensures
        forall|i: int|
            0 <= i < selected_pairs(s).len() ==> known_baggage_key(
                #[trigger] selected_pairs(s)[i].0@,
            ),
    decreases s.len(),
{
    if s.len() > 0 {
        lemma_selected_pairs_known(s.drop_last());
        let rest = selected_pairs(s.drop_last());
        assert forall|i: int| 0 <= i < selected_pairs(s).len() implies known_baggage_key(
            selected_pairs(s)[i].0@,
        ) by {
            if known_baggage_key(s.last().0@) {
                assert(selected_pairs(s) == rest.push(s.last()));
                if i < rest.len() {
                    assert(selected_pairs(s)[i] == rest[i]);
                    assert(known_baggage_key(rest[i].0@));
                } else {
                    assert(selected_pairs(s)[i] == s.last());
                }
            } else {
                assert(selected_pairs(s) == rest);
                assert(known_baggage_key(rest[i].0@));
            }
        }
    }
}

/// Extracts the session, user and role entries of the baggage carried by
/// `context`, as plain key-value pairs; every returned pair carries one of
/// those three keys. Baggage promises no order of its entries.
pub fn extract_baggage(context: &OtelContext) -> (r: Vec<(String, String)>)
    ensures
        forall|i: int| 0 <= i < r@.len() ==> known_baggage_key(#[trigger] r@[i].0@),
{
    let pairs = baggage_pairs(context);
    let r = select_known_baggage(&pairs);
    proof {
        lemma_selected_pairs_known(pairs@);
    }
    r
}

} // verus!
