//! The confirm route: consume the token atomically with the status update,
//! or answer not-found and change nothing.

use vstd::prelude::*;

use crate::routes::errors::NewsletterError;
use crate::store::lemma_confirm_success;
use crate::store::lemma_confirm_unknown_token;
use crate::store::lemma_find_token_first;
use crate::store::lemma_subscribe_round_trip;
use crate::store::spec_confirm_subscription;
use crate::store::spec_consume_token;
use crate::store::spec_subscribe_transaction;
use crate::store::Store;
use crate::store::StoreModel;

verus! {

/// The query parameter of the confirm route.
pub struct Parameter {
    pub subscription_token: String,
}

/// What the confirm route does: delete the token row and mark its subscriber
/// confirmed, or, when no row holds the token, leave the store as it is and
/// fail (`false`).
pub open spec fn spec_handle_confirm(s: StoreModel, token: Seq<char>) -> (StoreModel, bool) {
    let step = spec_consume_token(s, token);
    match step.1 {
        None => (s, false),
        Some(id) => (spec_confirm_subscription(step.0, id), true),
    }
}

/// Handles a confirmation request: exactly the transition of
/// `spec_handle_confirm`, with an unknown token reported as a missing-token
/// error carrying the token.
pub fn confirm(store: &mut Store, parameter: &Parameter) -> (r: Result<(), NewsletterError>)
    ensures
        final(store)@ == spec_handle_confirm(old(store)@, parameter.subscription_token@).0,
        r is Ok <==> spec_handle_confirm(old(store)@, parameter.subscription_token@).1,
        r matches Err(e) ==> (e matches NewsletterError::MissingTokenError(t) && t@
            == parameter.subscription_token@),
{
    match store.consume_token(parameter.subscription_token.as_str()) {
        Some(subscriber_id) => {
            store.confirm_subscription(subscriber_id);
            Ok(())
        },
        None => Err(NewsletterError::MissingTokenError(parameter.subscription_token.clone())),
    }
}

/// Law (idempotence of confirm failure): confirming with a token that is not
/// stored fails, changes nothing, and keeps failing the same way however
/// often it is repeated.
pub proof fn lemma_confirm_unknown_token_repeats(s: StoreModel, token: Seq<char>)
    requires
        !s.has_token(token),
    ensures
        spec_handle_confirm(s, token) == (s, false),
        spec_handle_confirm(spec_handle_confirm(s, token).0, token) == (s, false),
{
    lemma_confirm_unknown_token(s, token);
}

/// Law (a confirmed subscriber's token is gone): on a well-formed store that
/// holds the token, the confirm route succeeds, afterwards no row holds that
/// token, the subscriber the token pointed at is confirmed, no subscriber row
/// is added or removed, and the store stays well formed.
pub proof fn lemma_confirm_token_consumed(s: StoreModel, token: Seq<char>)
    requires
        s.well_formed(),
        s.has_token(token),
    ensures
        spec_handle_confirm(s, token).1,
        ({
            let id = spec_consume_token(s, token).1.unwrap();
            let m = spec_handle_confirm(s, token).0;
            &&& m.token_count(token) == 0
            &&& forall|j: int|
                0 <= j < m.subscriptions.len() && (#[trigger] m.subscriptions[j]).id == id
                    ==> m.subscriptions[j].status is Confirmed
            &&& exists|j: int|
                0 <= j < m.subscriptions.len() && (#[trigger] m.subscriptions[j]).id == id
            &&& m.subscriptions.len() == s.subscriptions.len()
            &&& m.well_formed()
        }),
{
    lemma_confirm_success(s, token);
}

/// Law (the subscriber lifecycle end to end): after a fresh subscription,
/// confirming with its token succeeds, the new subscriber is confirmed, its
/// token row is gone, and the store stays well formed.
pub proof fn lemma_subscribe_then_confirm(
    s: StoreModel,
    id: u128,
    email: Seq<char>,
    name: Seq<char>,
    subscribed_at: i64,
    token: Seq<char>,
)
    requires
        s.well_formed(),
        !s.has_subscriber_id(id),
        !s.has_token(token),
    ensures
        spec_subscribe_transaction(s, id, email, name, subscribed_at, token) is Some,
        ({
            let m = spec_subscribe_transaction(s, id, email, name, subscribed_at, token).unwrap();
            let after = spec_handle_confirm(m, token);
            &&& after.1
            &&& after.0.well_formed()
            &&& after.0.token_count(token) == 0
            &&& after.0.subscriptions.len() == m.subscriptions.len()
            &&& exists|j: int|
                0 <= j < after.0.subscriptions.len() && (#[trigger] after.0.subscriptions[j]).id
                    == id && after.0.subscriptions[j].status is Confirmed
        }),
{
    lemma_subscribe_round_trip(s, id, email, name, subscribed_at, token);
    let m = spec_subscribe_transaction(s, id, email, name, subscribed_at, token).unwrap();
    let last = m.subscription_tokens.len() - 1;
    assert(m.subscription_tokens[last].subscription_token == token);
    assert(m.has_token(token));
    assert forall|j: int|
        0 <= j < last implies (#[trigger] m.subscription_tokens[j]).subscription_token
        != token by {
        assert(m.subscription_tokens[j] == s.subscription_tokens[j]);
        if s.subscription_tokens[j].subscription_token == token {
            assert(s.has_token(token));
        }
    }
    lemma_find_token_first(m.subscription_tokens, token, last);
    assert(spec_consume_token(m, token).1 == Some(id));
    lemma_confirm_token_consumed(m, token);
    let after = spec_handle_confirm(m, token);
    let w = choose|w: int|
        0 <= w < after.0.subscriptions.len() && (#[trigger] after.0.subscriptions[w]).id == id;
    assert(after.0.subscriptions[w].status is Confirmed);
}

} // verus!
