//! The confirmation handler: an untrusted bearer token drives the single
//! pending-to-confirmed transition of its subscriber.

use vstd::prelude::*;
use crate::store::{SubscriberRow, Store, confirm_rows, has_subscriber_id, has_token};

verus! {

/// The query parameters of a confirmation request.
#[derive(Debug)]
pub struct Parameters {
    pub subscription_token: String,
}

/// How a confirmation request ended, one case per HTTP status the handler
/// can answer.
#[derive(Clone, Copy, Debug)]
pub enum ConfirmOutcome {
    /// The token was found; its subscriber is now confirmed.
    Confirmed,
    /// The token was never issued; nothing was changed.
    UnknownToken,
    /// The token refers to a missing subscriber row: a data-integrity fault.
    IntegrityFault,
}

impl ConfirmOutcome {
    /// The HTTP status the response carries: 200, 401 or 500.
    pub fn status_code(&self) -> (r: u16)
        ensures
            self is Confirmed ==> r == 200,
            self is UnknownToken ==> r == 401,
            self is IntegrityFault ==> r == 500,
    {
        match self {
            ConfirmOutcome::Confirmed => 200,
            ConfirmOutcome::UnknownToken => 401,
            ConfirmOutcome::IntegrityFault => 500,
        }
    }
}

/// Confirms the subscriber owning the given token. A token that was never
/// issued is answered as unauthorized and leaves every row unchanged; a
/// valid token marks exactly its owning subscriber confirmed and touches
/// nothing else. Repeating the request with the same token is safe: it
/// re-writes the same status. Under the store invariant the integrity fault
/// cannot arise.
pub fn confirm(store: &mut Store, params: &Parameters) -> (r: ConfirmOutcome)
    requires
        old(store).wf(),
    ensures
        final(store).wf(),
        r is UnknownToken <==> !has_token(old(store).tokens@, params.subscription_token@),
        r is Confirmed <==> has_token(old(store).tokens@, params.subscription_token@),
        !(r is IntegrityFault),
        r is UnknownToken ==> final(store).subscribers@ == old(store).subscribers@,
        r is Confirmed ==> exists|i: int|
            {
                &&& 0 <= i < old(store).tokens@.len()
                &&& #[trigger] old(store).tokens@[i].subscription_token@
                    == params.subscription_token@
                &&& final(store).subscribers@ == confirm_rows(
                    old(store).subscribers@,
                    old(store).tokens@[i].subscriber_id,
                )
            },
        final(store).tokens@ == old(store).tokens@,
        final(store).users@ == old(store).users@,
{
    let id = match store.get_subscriber_id_from_token(&params.subscription_token) {
        Some(id) => id,
        None => {
            return ConfirmOutcome::UnknownToken;
        },
    };
    assert(has_subscriber_id(store.subscribers@, id));
    match store.confirm_subscriber(id) {
        Ok(()) => ConfirmOutcome::Confirmed,
        Err(_) => {
            proof {
                assert(false);
            }
            ConfirmOutcome::IntegrityFault
        },
    }
}

/// Confirming is idempotent: a second confirmation of the same subscriber
/// re-writes the same rows, so a repeated request with the same valid token
/// leaves the store exactly as the first one did.
pub proof fn lemma_confirm_idempotent(rows: Seq<SubscriberRow>, id: u128)
    ensures
        confirm_rows(confirm_rows(rows, id), id) == confirm_rows(rows, id),
{
    assert(confirm_rows(confirm_rows(rows, id), id) =~= confirm_rows(rows, id));
}

/// Confirmation never un-confirms anyone and never touches another row: a
/// row is confirmed afterwards exactly when it already was or it is the row
/// the token named.
pub proof fn lemma_confirm_monotone(rows: Seq<SubscriberRow>, id: u128, k: int)
    requires
        0 <= k < rows.len(),
    ensures
        confirm_rows(rows, id)[k].status is Confirmed <==> (rows[k].status is Confirmed
            || rows[k].id == id),
        rows[k].id != id ==> confirm_rows(rows, id)[k] == rows[k],
        confirm_rows(rows, id)[k].id == rows[k].id,
        confirm_rows(rows, id)[k].email@ == rows[k].email@,
{
}

} // verus!
