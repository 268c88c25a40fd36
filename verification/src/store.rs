//! A model of the service's persisted state: the `subscriptions`,
//! `subscription_tokens` and `users` tables, with the transitions the route
//! handlers perform on them. The spec-level transition functions say exactly
//! how each request transforms the state; the executable methods are proved
//! to match them, and the process around the library mirrors them with SQL
//! statements run inside one transaction each.

use vstd::prelude::*;

verus! {

/// Lifecycle of a subscriber: created `Pending`, moved to `Confirmed` exactly
/// once, when a matching token is consumed.
#[derive(Clone, Copy, Debug, PartialEq, Eq, Structural)]
pub enum SubscriptionStatus {
    Pending,
    Confirmed,
}

/// One row of the `subscriptions` table.
pub struct SubscriberRow {
    pub id: u128,
    pub email: String,
    pub name: String,
    pub status: SubscriptionStatus,
    pub subscribed_at: i64,
}

/// One row of the `subscription_tokens` table.
pub struct TokenRow {
    pub subscription_token: String,
    pub subscriber_id: u128,
}

/// One row of the `users` table: an operator allowed to send newsletters,
/// provisioned out of band.
pub struct StoredUser {
    pub id: u128,
    pub username: String,
    pub phc_password: String,
}

/// Mathematical image of a subscriber row.
#[verifier::ext_equal]
pub ghost struct SubscriberRowModel {
    pub id: u128,
    pub email: Seq<char>,
    pub name: Seq<char>,
    pub status: SubscriptionStatus,
    pub subscribed_at: i64,
}

/// Mathematical image of a token row.
#[verifier::ext_equal]
pub ghost struct TokenRowModel {
    pub subscription_token: Seq<char>,
    pub subscriber_id: u128,
}

/// Mathematical image of a user row.
#[verifier::ext_equal]
pub ghost struct StoredUserModel {
    pub id: u128,
    pub username: Seq<char>,
    pub phc_password: Seq<char>,
}

impl View for SubscriberRow {
    type V = SubscriberRowModel;

    open spec fn view(&self) -> SubscriberRowModel {
        SubscriberRowModel {
            id: self.id,
            email: self.email@,
            name: self.name@,
            status: self.status,
            subscribed_at: self.subscribed_at,
        }
    }
}

impl View for TokenRow {
    type V = TokenRowModel;

    open spec fn view(&self) -> TokenRowModel {
        TokenRowModel {
            subscription_token: self.subscription_token@,
            subscriber_id: self.subscriber_id,
        }
    }
}

impl View for StoredUser {
    type V = StoredUserModel;

    open spec fn view(&self) -> StoredUserModel {
        StoredUserModel {
            id: self.id,
            username: self.username@,
            phc_password: self.phc_password@,
        }
    }
}

/// The three tables.
pub struct Store {
    pub subscriptions: Vec<SubscriberRow>,
    pub subscription_tokens: Vec<TokenRow>,
    pub users: Vec<StoredUser>,
}

/// Mathematical image of the whole store.
#[verifier::ext_equal]
pub ghost struct StoreModel {
    pub subscriptions: Seq<SubscriberRowModel>,
    pub subscription_tokens: Seq<TokenRowModel>,
    pub users: Seq<StoredUserModel>,
}

impl View for Store {
    type V = StoreModel;

    open spec fn view(&self) -> StoreModel {
        StoreModel {
            subscriptions: self.subscriptions@.map_values(|r: SubscriberRow| r@),
            subscription_tokens: self.subscription_tokens@.map_values(|r: TokenRow| r@),
            users: self.users@.map_values(|r: StoredUser| r@),
        }
    }
}

impl StoreModel {
    /// The store with nothing persisted yet.
    pub open spec fn empty() -> StoreModel {
        StoreModel {
            subscriptions: Seq::empty(),
            subscription_tokens: Seq::empty(),
            users: Seq::empty(),
        }
    }

    pub open spec fn has_subscriber_id(self, id: u128) -> bool {
        exists|i: int|
            0 <= i < self.subscriptions.len() && (#[trigger] self.subscriptions[i]).id == id
    }

    pub open spec fn has_token(self, token: Seq<char>) -> bool {
        exists|i: int|
            0 <= i < self.subscription_tokens.len() && (#[trigger] self.subscription_tokens[i]).subscription_token
                == token
    }

    /// How many token rows hold this token string.
    pub open spec fn token_count(self, token: Seq<char>) -> nat {
        count_token(self.subscription_tokens, token)
    }

    /// Everything the database's keys and foreign keys guarantee, plus the
    /// lifecycle invariant: a token always points at an existing subscriber
    /// that is still pending, so a subscriber is never visible as confirmed
    /// while a token for it remains.
    pub open spec fn well_formed(self) -> bool {
        &&& forall|i: int, j: int|
            0 <= i < j < self.subscriptions.len() ==> (#[trigger] self.subscriptions[i]).id != (
            #[trigger] self.subscriptions[j]).id
        &&& forall|i: int, j: int|
            0 <= i < j < self.subscription_tokens.len() ==> (
            #[trigger] self.subscription_tokens[i]).subscription_token != (
            #[trigger] self.subscription_tokens[j]).subscription_token
        &&& forall|i: int, j: int|
            0 <= i < j < self.subscription_tokens.len() ==> (
            #[trigger] self.subscription_tokens[i]).subscriber_id != (
            #[trigger] self.subscription_tokens[j]).subscriber_id
        &&& forall|i: int|
            0 <= i < self.subscription_tokens.len() ==> exists|j: int|
                0 <= j < self.subscriptions.len() && (#[trigger] self.subscriptions[j]).id == (
                #[trigger] self.subscription_tokens[i]).subscriber_id && self.subscriptions[j].status
                    is Pending
    }
}

/// How many rows of `tokens` hold this token string.
pub open spec fn count_token(tokens: Seq<TokenRowModel>, token: Seq<char>) -> nat
    decreases tokens.len(),
{
    if tokens.len() == 0 {
        0
    } else {
        count_token(tokens.drop_last(), token) + if tokens.last().subscription_token == token {
            1nat
        } else {
            0nat
        }
    }
}

/// No row holds the token exactly when the count is zero.
pub proof fn lemma_count_token_zero(tokens: Seq<TokenRowModel>, token: Seq<char>)
    ensures
        count_token(tokens, token) == 0 <==> forall|j: int|
            0 <= j < tokens.len() ==> (#[trigger] tokens[j]).subscription_token != token,
    decreases tokens.len(),
{
    if tokens.len() > 0 {
        lemma_count_token_zero(tokens.drop_last(), token);
        assert(forall|j: int|
            0 <= j < tokens.len() - 1 ==> tokens.drop_last()[j] == #[trigger] tokens[j]);
    }
}

/// Index of the first token row holding `token`, if any.
pub open spec fn find_token(tokens: Seq<TokenRowModel>, token: Seq<char>) -> Option<int>
    decreases tokens.len(),
{
    if tokens.len() == 0 {
        None
    } else if tokens[0].subscription_token == token {
        Some(0int)
    } else {
        match find_token(tokens.subrange(1, tokens.len() as int), token) {
            Some(i) => Some(i + 1),
            None => None,
        }
    }
}

/// What `find_token` returns: either no row holds the token, or the least
/// matching index.
pub proof fn lemma_find_token_properties(tokens: Seq<TokenRowModel>, token: Seq<char>)
    ensures
        match find_token(tokens, token) {
            None => forall|j: int|
                0 <= j < tokens.len() ==> (#[trigger] tokens[j]).subscription_token != token,
            Some(i) => 0 <= i < tokens.len() && tokens[i].subscription_token == token && forall|
                j: int,
            | 0 <= j < i ==> (#[trigger] tokens[j]).subscription_token != token,
        },
    decreases tokens.len(),
{
    if tokens.len() > 0 && tokens[0].subscription_token != token {
        let rest = tokens.subrange(1, tokens.len() as int);
        lemma_find_token_properties(rest, token);
        assert(forall|j: int| 1 <= j < tokens.len() ==> (#[trigger] tokens[j]) == rest[j - 1]);
        match find_token(tokens, token) {
            None => {
                assert forall|j: int|
                    0 <= j < tokens.len() implies (#[trigger] tokens[j]).subscription_token
                    != token by {
                    if j >= 1 {
                        assert(rest[j - 1].subscription_token != token);
                    }
                }
            },
            Some(i) => {
                assert(tokens[i] == rest[i - 1]);
                assert forall|j: int|
                    0 <= j < i implies (#[trigger] tokens[j]).subscription_token != token by {
                    if j >= 1 {
                        assert(rest[j - 1].subscription_token != token);
                    }
                }
            },
        }
    }
}

/// `find_token` returns the first match: if some row holds the token, the
/// result is the least matching index; otherwise it is `None`.
pub proof fn lemma_find_token_first(tokens: Seq<TokenRowModel>, token: Seq<char>, i: int)
    requires
        0 <= i < tokens.len(),
        tokens[i].subscription_token == token,
        forall|j: int| 0 <= j < i ==> (#[trigger] tokens[j]).subscription_token != token,
    ensures
        find_token(tokens, token) == Some(i),
    decreases tokens.len(),
{
    if i == 0 {
    } else {
        let rest = tokens.subrange(1, tokens.len() as int);
        assert(rest[i - 1].subscription_token == token);
        assert(forall|j: int|
            0 <= j < i - 1 ==> (#[trigger] rest[j]).subscription_token != token) by {
            assert(forall|j: int| 0 <= j < i - 1 ==> rest[j] == tokens[j + 1]);
        }
        lemma_find_token_first(rest, token, i - 1);
    }
}

/// `find_token` finds nothing exactly when no row holds the token.
pub proof fn lemma_find_token_none(tokens: Seq<TokenRowModel>, token: Seq<char>)
    requires
        forall|j: int|
            0 <= j < tokens.len() ==> (#[trigger] tokens[j]).subscription_token != token,
    ensures
        find_token(tokens, token) is None,
    decreases tokens.len(),
{
    if tokens.len() > 0 {
        let rest = tokens.subrange(1, tokens.len() as int);
        assert(forall|j: int|
            0 <= j < rest.len() ==> (#[trigger] rest[j]).subscription_token != token) by {
            assert(forall|j: int| 0 <= j < rest.len() ==> rest[j] == tokens[j + 1]);
        }
        lemma_find_token_none(rest, token);
    }
}

/// What the subscribe transaction does to the store: inserting the pending
/// subscriber and its token, or refusing the pair because a key constraint
/// would be violated (`None`, in which case nothing changes).
pub open spec fn spec_subscribe_transaction(
    s: StoreModel,
    id: u128,
    email: Seq<char>,
    name: Seq<char>,
    subscribed_at: i64,
    token: Seq<char>,
) -> Option<StoreModel> {
    if s.has_subscriber_id(id) || s.has_token(token) {
        None
    } else {
        Some(
            StoreModel {
                subscriptions: s.subscriptions.push(
                    SubscriberRowModel {
                        id,
                        email,
                        name,
                        status: SubscriptionStatus::Pending,
                        subscribed_at,
                    },
                ),
                subscription_tokens: s.subscription_tokens.push(
                    TokenRowModel { subscription_token: token, subscriber_id: id },
                ),
                users: s.users,
            },
        )
    }
}

/// What consuming a token does: delete the first row holding it and hand
/// back its subscriber id, or leave the store untouched when no row matches.
pub open spec fn spec_consume_token(s: StoreModel, token: Seq<char>) -> (StoreModel, Option<
    u128,
>) {
    match find_token(s.subscription_tokens, token) {
        None => (s, None),
        Some(i) => (
            StoreModel {
                subscriptions: s.subscriptions,
                subscription_tokens: s.subscription_tokens.remove(i),
                users: s.users,
            },
            Some(s.subscription_tokens[i].subscriber_id),
        ),
    }
}

/// A row after the status update of the confirm step.
pub open spec fn confirm_row(r: SubscriberRowModel, id: u128) -> SubscriberRowModel {
    if r.id == id {
        SubscriberRowModel {
            id: r.id,
            email: r.email,
            name: r.name,
            status: SubscriptionStatus::Confirmed,
            subscribed_at: r.subscribed_at,
        }
    } else {
        r
    }
}

/// What the status update does: mark every subscriber with this id (at most
/// one, in a well-formed store) as confirmed.
pub open spec fn spec_confirm_subscription(s: StoreModel, id: u128) -> StoreModel {
    StoreModel {
        subscriptions: s.subscriptions.map_values(|r: SubscriberRowModel| confirm_row(r, id)),
        subscription_tokens: s.subscription_tokens,
        users: s.users,
    }
}

/// The emails of the confirmed subscribers, in table order.
pub open spec fn confirmed_emails_of(rows: Seq<SubscriberRowModel>) -> Seq<Seq<char>>
    decreases rows.len(),
{
    if rows.len() == 0 {
        Seq::empty()
    } else {
        let front = confirmed_emails_of(rows.drop_last());
        if rows.last().status is Confirmed {
            front.push(rows.last().email)
        } else {
            front
        }
    }
}

/// The first user row with this username, if any.
pub open spec fn find_user(users: Seq<StoredUserModel>, username: Seq<char>) -> Option<
    StoredUserModel,
>
    decreases users.len(),
{
    if users.len() == 0 {
        None
    } else if users[0].username == username {
        Some(users[0])
    } else {
        find_user(users.subrange(1, users.len() as int), username)
    }
}

/// Constraint violation a transaction can fail with; the handler maps it to
/// an internal error.
pub enum StoreError {
    DuplicateId,
    DuplicateToken,
}

impl Store {
    /// A store with nothing persisted.
    pub fn new() -> (s: Store)
        ensures
            s@ == StoreModel::empty(),
    {
        let s = Store { subscriptions: Vec::new(), subscription_tokens: Vec::new(), users: Vec::new() };
        proof {
            assert(s@ =~~= StoreModel::empty());
        }
        s
    }

    /// Inserts the pending subscriber row and its token row, both or
    /// neither, exactly as `spec_subscribe_transaction` says.
    pub fn subscribe_transaction(
        &mut self,
        id: u128,
        email: &str,
        name: &str,
        subscribed_at: i64,
        token: &str,
    ) -> (r: Result<(), StoreError>)
        ensures
            match spec_subscribe_transaction(
                old(self)@,
                id,
                email@,
                name@,
                subscribed_at,
                token@,
            ) {
                Some(m) => r is Ok && final(self)@ == m,
                None => r is Err && final(self)@ == old(self)@,
            },
    {
        let ghost pre = self@;
        let mut i: usize = 0;
        let n = self.subscriptions.len();
        while i < n
            invariant
                i <= n,
                n == self.subscriptions.len(),
                self@ == pre,
                forall|j: int| 0 <= j < i ==> (#[trigger] pre.subscriptions[j]).id != id,
            decreases n - i,
        {
            if self.subscriptions[i].id == id {
                assert(pre.subscriptions[i as int].id == id);
                return Err(StoreError::DuplicateId);
            }
            i = i + 1;
        }
        let mut k: usize = 0;
        let m = self.subscription_tokens.len();
        while k < m
            invariant
                k <= m,
                m == self.subscription_tokens.len(),
                self@ == pre,
                forall|j: int|
                    0 <= j < k ==> (#[trigger] pre.subscription_tokens[j]).subscription_token
                        != token@,
            decreases m - k,
        {
            if crate::text::str_eq(self.subscription_tokens[k].subscription_token.as_str(), token) {
                assert(pre.subscription_tokens[k as int].subscription_token == token@);
                return Err(StoreError::DuplicateToken);
            }
            k = k + 1;
        }
        assert(!pre.has_subscriber_id(id));
        assert(!pre.has_token(token@));
        self.subscriptions.push(
            SubscriberRow {
                id,
                email: email.to_owned(),
                name: name.to_owned(),
                status: SubscriptionStatus::Pending,
                subscribed_at,
            },
        );
        self.subscription_tokens.push(
            TokenRow { subscription_token: token.to_owned(), subscriber_id: id },
        );
        proof {
            let post = spec_subscribe_transaction(
                pre,
                id,
                email@,
                name@,
                subscribed_at,
                token@,
            ).unwrap();
            assert(self@.subscriptions =~= post.subscriptions);
            assert(self@.subscription_tokens =~= post.subscription_tokens);
            assert(self@.users =~= post.users);
            assert(self@ =~= post);
        }
        Ok(())
    }

    /// Deletes the first token row holding `token` and returns its
    /// subscriber id; leaves the store untouched when no row matches.
    pub fn consume_token(&mut self, token: &str) -> (r: Option<u128>)
        ensures
            final(self)@ == spec_consume_token(old(self)@, token@).0,
            r == spec_consume_token(old(self)@, token@).1,
    {
        let mut i: usize = 0;
        let n = self.subscription_tokens.len();
        while i < n
            invariant
                i <= n,
                n == self.subscription_tokens.len(),
                self@ == old(self)@,
                forall|j: int|
                    0 <= j < i ==> (#[trigger] old(self)@.subscription_tokens[j]).subscription_token
                        != token@,
            decreases n - i,
        {
            if crate::text::str_eq(self.subscription_tokens[i].subscription_token.as_str(), token) {
                proof {
                    lemma_find_token_first(old(self)@.subscription_tokens, token@, i as int);
                }
                let id = self.subscription_tokens[i].subscriber_id;
                self.subscription_tokens.remove(i);
                proof {
                    assert(self@.subscription_tokens =~= old(self)@.subscription_tokens.remove(
                        i as int,
                    ));
                    assert(self@ =~= spec_consume_token(old(self)@, token@).0);
                }
                return Some(id);
            }
            i = i + 1;
        }
        proof {
            lemma_find_token_none(old(self)@.subscription_tokens, token@);
        }
        None
    }

    /// Marks every subscriber with this id as confirmed.
    pub fn confirm_subscription(&mut self, subscriber_id: u128)
        ensures
            final(self)@ == spec_confirm_subscription(old(self)@, subscriber_id),
    {
        let ghost pre = self@;
        let mut i: usize = 0;
        let n = self.subscriptions.len();
        while i < n
            invariant
                i <= n,
                n == self.subscriptions.len(),
                self@.subscription_tokens == pre.subscription_tokens,
                self@.users == pre.users,
                forall|j: int|
                    0 <= j < self.subscriptions@.len() ==> (#[trigger] self.subscriptions@[j])@
                        == if j < i {
                        confirm_row(pre.subscriptions[j], subscriber_id)
                    } else {
                        pre.subscriptions[j]
                    },
            decreases n - i,
        {
            if self.subscriptions[i].id == subscriber_id {
                self.subscriptions[i].status = SubscriptionStatus::Confirmed;
            }
            i = i + 1;
        }
        proof {
            assert(self@.subscriptions =~= spec_confirm_subscription(
                pre,
                subscriber_id,
            ).subscriptions);
            assert(self@ =~= spec_confirm_subscription(pre, subscriber_id));
        }
    }

    /// The emails of the confirmed subscribers, in table order.
    pub fn confirmed_emails(&self) -> (r: Vec<String>)
        ensures
            r@.map_values(|s: String| s@) == confirmed_emails_of(self@.subscriptions),
    {
        let mut out: Vec<String> = Vec::new();
        let mut i: usize = 0;
        let n = self.subscriptions.len();
        while i < n
            invariant
                i <= n,
                n == self.subscriptions.len(),
                out@.map_values(|s: String| s@) == confirmed_emails_of(
                    self@.subscriptions.take(i as int),
                ),
            decreases n - i,
        {
            let ghost prefix = self@.subscriptions.take(i as int);
            let row_confirmed = match self.subscriptions[i].status {
                SubscriptionStatus::Confirmed => true,
                SubscriptionStatus::Pending => false,
            };
            if row_confirmed {
                let email = self.subscriptions[i].email.clone();
                out.push(email);
            }
            proof {
                let next = self@.subscriptions.take(i + 1 as int);
                assert(next.drop_last() =~= prefix);
                assert(next.last() == self@.subscriptions[i as int]);
                assert(out@.map_values(|s: String| s@) =~= confirmed_emails_of(next));
            }
            i = i + 1;
        }
        proof {
            assert(self@.subscriptions.take(n as int) =~= self@.subscriptions);
        }
        out
    }

    /// The first user row with this username, with its strings copied out.
    pub fn lookup_user(&self, username: &str) -> (r: Option<StoredUser>)
        ensures
            match r {
                Some(u) => find_user(self@.users, username@) == Some(u@),
                None => find_user(self@.users, username@) is None,
            },
    {
        let mut i: usize = 0;
        let n = self.users.len();
        proof {
            assert(self@.users.subrange(0, n as int) =~= self@.users);
        }
        while i < n
            invariant
                i <= n,
                n == self.users.len(),
                find_user(self@.users, username@) == find_user(
                    self@.users.subrange(i as int, n as int),
                    username@,
                ),
            decreases n - i,
        {
            let ghost rest = self@.users.subrange(i as int, n as int);
            if crate::text::str_eq(self.users[i].username.as_str(), username) {
                assert(rest[0] == self@.users[i as int]);
                let u = StoredUser {
                    id: self.users[i].id,
                    username: self.users[i].username.clone(),
                    phc_password: self.users[i].phc_password.clone(),
                };
                return Some(u);
            }
            proof {
                assert(rest[0] == self@.users[i as int]);
                assert(rest.subrange(1, rest.len() as int) =~= self@.users.subrange(
                    i + 1 as int,
                    n as int,
                ));
            }
            i = i + 1;
        }
        proof {
            assert(self@.users.subrange(n as int, n as int) =~= Seq::<StoredUserModel>::empty());
        }
        None
    }

    /// Adds an operator row; provisioning is out of band in the real system,
    /// and tests use this to seed credentials.
    pub fn add_user(&mut self, user: StoredUser)
        ensures
            final(self)@.users == old(self)@.users.push(user@),
            final(self)@.subscriptions == old(self)@.subscriptions,
            final(self)@.subscription_tokens == old(self)@.subscription_tokens,
    {
        self.users.push(user);
        proof {
            assert(self@.users =~= old(self)@.users.push(user@));
        }
    }
}

/// Law: a store with nothing persisted is well formed.
pub proof fn lemma_empty_store_well_formed()
    ensures
        StoreModel::empty().well_formed(),
{
}

/// Law (subscribe round trip): on a well-formed store, subscribing with a
/// fresh id and a fresh token succeeds and creates exactly one new
/// subscriber row, with status pending, and exactly one token row linking
/// the token to it; and the store stays well formed.
pub proof fn lemma_subscribe_round_trip(
    s: StoreModel,
    id: u128,
    email: Seq<char>,
    name: Seq<char>,
    subscribed_at: i64,
    token: Seq<char>,
)
    requires
        s.well_formed(),
        !s.has_subscriber_id(id),
        !s.has_token(token),
    ensures
        spec_subscribe_transaction(s, id, email, name, subscribed_at, token) is Some,
        ({
            let m = spec_subscribe_transaction(s, id, email, name, subscribed_at, token).unwrap();
            &&& m.subscriptions == s.subscriptions.push(
                SubscriberRowModel {
                    id,
                    email,
                    name,
                    status: SubscriptionStatus::Pending,
                    subscribed_at,
                },
            )
            &&& m.subscription_tokens == s.subscription_tokens.push(
                (TokenRowModel { subscription_token: token, subscriber_id: id }),
            )
            &&& m.token_count(token) == 1
            &&& m.well_formed()
        }),
{
    let m = spec_subscribe_transaction(s, id, email, name, subscribed_at, token).unwrap();
    assert(m.subscription_tokens.drop_last() =~= s.subscription_tokens);
    lemma_count_token_zero(s.subscription_tokens, token);
    assert(m.token_count(token) == 1);
    let subs = m.subscriptions;
    let toks = m.subscription_tokens;
    let old_sub_len = s.subscriptions.len() as int;
    let old_tok_len = s.subscription_tokens.len() as int;
    assert forall|i: int, j: int| 0 <= i < j < subs.len() implies (#[trigger] subs[i]).id != (
    #[trigger] subs[j]).id by {
        if j == old_sub_len {
            assert(subs[i] == s.subscriptions[i]);
        }
    }
    assert forall|i: int, j: int|
        0 <= i < j < toks.len() implies (#[trigger] toks[i]).subscription_token != (
    #[trigger] toks[j]).subscription_token by {
        if j == old_tok_len {
            assert(toks[i] == s.subscription_tokens[i]);
        }
    }
    assert forall|i: int, j: int| 0 <= i < j < toks.len() implies (#[trigger] toks[i]).subscriber_id
        != (#[trigger] toks[j]).subscriber_id by {
        if j == old_tok_len {
            let k = choose|k: int|
                0 <= k < old_sub_len && (#[trigger] s.subscriptions[k]).id == s.subscription_tokens[i].subscriber_id
                    && s.subscriptions[k].status is Pending;
            assert(s.has_subscriber_id(s.subscriptions[k].id));
        }
    }
    assert forall|i: int| 0 <= i < toks.len() implies exists|j: int|
        0 <= j < subs.len() && (#[trigger] subs[j]).id == (#[trigger] toks[i]).subscriber_id
            && subs[j].status is Pending by {
        if i < old_tok_len {
            let k = choose|k: int|
                0 <= k < old_sub_len && (#[trigger] s.subscriptions[k]).id == s.subscription_tokens[i].subscriber_id
                    && s.subscriptions[k].status is Pending;
            assert(subs[k] == s.subscriptions[k]);
            assert(subs[k].id == toks[i].subscriber_id && subs[k].status is Pending);
        } else {
            assert(subs[old_sub_len].id == toks[i].subscriber_id && subs[old_sub_len].status
                is Pending);
        }
    }
}

/// Law (confirm with an unknown token is stable): consuming a token that is
/// not stored changes nothing and finds nothing, however often it is
/// repeated.
pub proof fn lemma_confirm_unknown_token(s: StoreModel, token: Seq<char>)
    requires
        !s.has_token(token),
    ensures
        spec_consume_token(s, token) == (s, None::<u128>),
        spec_consume_token(spec_consume_token(s, token).0, token) == (s, None::<u128>),
{
    assert forall|j: int|
        0 <= j < s.subscription_tokens.len() implies (#[trigger] s.subscription_tokens[j]).subscription_token
        != token by {
        if s.subscription_tokens[j].subscription_token == token {
            assert(s.has_token(token));
        }
    }
    lemma_find_token_none(s.subscription_tokens, token);
}

/// Law (confirm consumes the token): on a well-formed store that holds the
/// token, consuming it and confirming the subscriber it points at leaves no
/// row with that token, marks that subscriber confirmed, deletes no
/// subscriber, and keeps the store well formed.
pub proof fn lemma_confirm_success(s: StoreModel, token: Seq<char>)
    requires
        s.well_formed(),
        s.has_token(token),
    ensures
        spec_consume_token(s, token).1 is Some,
        ({
            let id = spec_consume_token(s, token).1.unwrap();
            let m = spec_confirm_subscription(spec_consume_token(s, token).0, id);
            &&& m.token_count(token) == 0
            &&& forall|j: int|
                0 <= j < m.subscriptions.len() && (#[trigger] m.subscriptions[j]).id == id
                    ==> m.subscriptions[j].status is Confirmed
            &&& exists|j: int|
                0 <= j < m.subscriptions.len() && (#[trigger] m.subscriptions[j]).id == id
            &&& m.subscriptions.len() == s.subscriptions.len()
            &&& m.well_formed()
        }),
{
    lemma_find_token_properties(s.subscription_tokens, token);
    if find_token(s.subscription_tokens, token) is None {
        let w = choose|w: int|
            0 <= w < s.subscription_tokens.len() && (#[trigger] s.subscription_tokens[w]).subscription_token
                == token;
        assert(false);
    }
    let i = find_token(s.subscription_tokens, token).unwrap();
    let id = s.subscription_tokens[i].subscriber_id;
    let m = spec_confirm_subscription(spec_consume_token(s, token).0, id);
    let toks = m.subscription_tokens;
    let subs = m.subscriptions;
    assert(toks =~= s.subscription_tokens.remove(i));
    assert(forall|j: int| 0 <= j < i ==> #[trigger] toks[j] == s.subscription_tokens[j]);
    assert(forall|j: int|
        i <= j < toks.len() ==> #[trigger] toks[j] == s.subscription_tokens[j + 1]);
    assert forall|j: int| 0 <= j < toks.len() implies (#[trigger] toks[j]).subscription_token
        != token by {
        if j < i {
            assert(s.subscription_tokens[j].subscription_token != s.subscription_tokens[i].subscription_token);
        } else {
            assert(s.subscription_tokens[j + 1].subscription_token != s.subscription_tokens[i].subscription_token);
        }
    }
    lemma_count_token_zero(toks, token);
    assert(forall|j: int|
        0 <= j < subs.len() ==> #[trigger] subs[j] == confirm_row(s.subscriptions[j], id));
    let k = choose|k: int|
        0 <= k < s.subscriptions.len() && (#[trigger] s.subscriptions[k]).id == id
            && s.subscriptions[k].status is Pending;
    assert(subs[k].id == id);
    assert forall|a: int, b: int| 0 <= a < b < toks.len() implies (#[trigger] toks[a]).subscriber_id
        != (#[trigger] toks[b]).subscriber_id && toks[a].subscription_token != toks[b].subscription_token by {
        let a0 = if a < i {
            a
        } else {
            a + 1
        };
        let b0 = if b < i {
            b
        } else {
            b + 1
        };
        assert(toks[a] == s.subscription_tokens[a0] && toks[b] == s.subscription_tokens[b0]);
    }
    assert forall|j: int| 0 <= j < toks.len() implies exists|w: int|
        0 <= w < subs.len() && (#[trigger] subs[w]).id == (#[trigger] toks[j]).subscriber_id
            && subs[w].status is Pending by {
        let j0 = if j < i {
            j
        } else {
            j + 1
        };
        assert(toks[j] == s.subscription_tokens[j0]);
        let w = choose|w: int|
            0 <= w < s.subscriptions.len() && (#[trigger] s.subscriptions[w]).id == s.subscription_tokens[j0].subscriber_id
                && s.subscriptions[w].status is Pending;
        assert(s.subscription_tokens[j0].subscriber_id != id) by {
            if j0 < i {
                assert(s.subscription_tokens[j0].subscriber_id
                    != s.subscription_tokens[i].subscriber_id);
            } else {
                assert(s.subscription_tokens[i].subscriber_id
                    != s.subscription_tokens[j0].subscriber_id);
            }
        }
        assert(subs[w] == confirm_row(s.subscriptions[w], id));
        assert(subs[w].id == toks[j].subscriber_id && subs[w].status is Pending);
    }
}

} // verus!
