use vstd::prelude::*;
use crate::errors::Error;
use crate::registry::{
    cancel_post, create_post, history_kept, initialize_post, InvoiceRegistry,
};

verus! {

/// Over any run of operations, a record stays stored, a discount once set is
/// never unset nor changed, and a Settled or Canceled record never changes.
pub proof fn lemma_history_kept_across_steps(
    a: InvoiceRegistry,
    b: InvoiceRegistry,
    c: InvoiceRegistry,
)
    requires
        history_kept(a, b),
        history_kept(b, c),
    ensures
        history_kept(a, c),
{
    assert forall|id: u64| #[trigger] a.invoices@.contains_key(id) implies {
        &&& c.invoices@.contains_key(id)
        &&& (a.invoices@[id].discount_amount is Some ==> c.invoices@[id].discount_amount
            == a.invoices@[id].discount_amount)
        &&& (a.invoices@[id].status.is_terminal() ==> c.invoices@[id] == a.invoices@[id])
    } by {
        assert(b.invoices@.contains_key(id));
    }
}

/// A stored discount lies strictly between zero and the face value, and an
/// invoice still in Draft has none.
pub proof fn lemma_discount_bounds(reg: InvoiceRegistry, id: u64)
    requires
        reg.wf(),
        reg.invoices@.contains_key(id),
    ensures
        match reg.invoices@[id].discount_amount {
            Some(d) => 0 < d < reg.invoices@[id].face_amount,
            None => true,
        },
        reg.invoices@[id].status is Draft ==> reg.invoices@[id].discount_amount is None,
{
}

/// A second `initialize` fails with AlreadyInitialized and leaves the state,
/// the first configuration included, as it was.
pub proof fn lemma_initialize_once(
    s0: InvoiceRegistry,
    admin1: Seq<char>,
    fee1: u32,
    r1: Result<(), Error>,
    s1: InvoiceRegistry,
    admin2: Seq<char>,
    fee2: u32,
    r2: Result<(), Error>,
    s2: InvoiceRegistry,
)
    requires
        initialize_post(s0, admin1, fee1, r1, s1),
        initialize_post(s1, admin2, fee2, r2, s2),
    ensures
        r2 == Err::<(), Error>(Error::AlreadyInitialized),
        s2 == s1,
        s2.config == s1.config,
{
}

/// A successful creation hands out an id that no stored invoice holds, the
/// counter moves on by exactly one, and the new record carries no discount.
pub proof fn lemma_created_id_is_fresh(
    s0: InvoiceRegistry,
    now: u64,
    issuer: Seq<char>,
    face_amount: i128,
    asset: Seq<char>,
    due_timestamp: u64,
    memo: Seq<char>,
    r: Result<u64, Error>,
    s1: InvoiceRegistry,
)
    requires
        s0.ids_fresh(),
        s0.next_id() < u64::MAX,
        create_post(s0, now, issuer, face_amount, asset, due_timestamp, memo, r, s1),
        r is Ok,
    ensures
        !s0.invoices@.contains_key(r->Ok_0),
        r->Ok_0 == s0.next_id(),
        s1.next_id() == r->Ok_0 + 1,
        s1.ids_fresh(),
        s1.invoices@[r->Ok_0].discount_amount is None,
{
    let id = r->Ok_0;
    assert forall|k: u64| #[trigger] s1.invoices@.contains_key(k) implies k < s1.next_id() by {
        if k != id {
            assert(s0.invoices@.contains_key(k));
        }
    }
}

/// Cancelling leaves the counter where it was and the record in place, so a
/// cancelled id is never handed out again.
pub proof fn lemma_cancel_keeps_id(s0: InvoiceRegistry, id: u64, r: Result<(), Error>, s1: InvoiceRegistry)
    requires
        s0.ids_fresh(),
        cancel_post(s0, id, r, s1),
    ensures
        s1.next_id() == s0.next_id(),
        s1.ids_fresh(),
        s0.invoices@.contains_key(id) ==> s1.invoices@.contains_key(id),
        r is Ok ==> s1.invoices@[id].status is Canceled,
{
    assert forall|k: u64| #[trigger] s1.invoices@.contains_key(k) implies k < s1.next_id() by {
        if k != id {
            assert(s0.invoices@.contains_key(k));
        }
    }
}

} // verus!
