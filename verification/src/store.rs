//! An in-memory model of the relational store: the subscribers,
//! subscription_tokens and users tables, with their integrity invariant.
//!
//! The process around the library binds these operations to durable storage;
//! the library states and proves what each operation does to the tables.

use vstd::prelude::*;
use vstd::string::StringExecFns;

verus! {

/// The lifecycle state of a subscriber. The only transition is
/// `PendingConfirmation` to `Confirmed`; nothing leaves `Confirmed`.
#[derive(Clone, Copy, Debug)]
pub enum SubscriberStatus {
    PendingConfirmation,
    Confirmed,
}

/// One row of the subscribers table.
#[derive(Debug)]
pub struct SubscriberRow {
    pub id: u128,
    pub email: String,
    pub name: String,
    pub subscribed_at: i64,
    pub status: SubscriberStatus,
}

/// One row of the subscription_tokens table; the token is the primary key.
#[derive(Debug)]
pub struct TokenRow {
    pub subscription_token: String,
    pub subscriber_id: u128,
}

/// One row of the users table.
#[derive(Debug)]
pub struct UserRow {
    pub user_id: u128,
    pub username: String,
    pub password_hash: String,
}

/// A failed storage operation, in the shape the schema would refuse it.
#[derive(Clone, Copy, Debug)]
pub enum StoreError {
    /// A unique or primary-key constraint would be violated.
    UniqueViolation,
    /// A referenced row does not exist.
    ForeignKeyViolation,
    /// A row that was expected to exist was not found.
    RecordNotFound,
}

impl StoreError {
    /// A short description of the failure.
    pub open spec fn spec_message(self) -> Seq<char> {
        match self {
            StoreError::UniqueViolation => "unique constraint violation"@,
            StoreError::ForeignKeyViolation => "foreign key constraint violation"@,
            StoreError::RecordNotFound => "record not found"@,
        }
    }

    /// Renders the failure for logs and responses.
    pub fn message(&self) -> (r: String)
        ensures
            r@ == self.spec_message(),
    {
        match self {
            StoreError::UniqueViolation => String::from_str("unique constraint violation"),
            StoreError::ForeignKeyViolation => String::from_str("foreign key constraint violation"),
            StoreError::RecordNotFound => String::from_str("record not found"),
        }
    }
}

/// Whether some subscriber row carries this identifier.
pub open spec fn has_subscriber_id(rows: Seq<SubscriberRow>, id: u128) -> bool {
    exists|i: int| 0 <= i < rows.len() && #[trigger] rows[i].id == id
}

/// Whether some subscriber row carries this email address.
pub open spec fn has_subscriber_email(rows: Seq<SubscriberRow>, email: Seq<char>) -> bool {
    exists|i: int| 0 <= i < rows.len() && #[trigger] rows[i].email@ == email
}

/// Whether some token row carries this token.
pub open spec fn has_token(rows: Seq<TokenRow>, token: Seq<char>) -> bool {
    exists|i: int| 0 <= i < rows.len() && #[trigger] rows[i].subscription_token@ == token
}

/// Whether some user row carries this username.
pub open spec fn has_username(rows: Seq<UserRow>, username: Seq<char>) -> bool {
    exists|i: int| 0 <= i < rows.len() && #[trigger] rows[i].username@ == username
}

/// Whether some user row carries this user identifier.
pub open spec fn has_user_id(rows: Seq<UserRow>, user_id: u128) -> bool {
    exists|i: int| 0 <= i < rows.len() && #[trigger] rows[i].user_id == user_id
}

/// The subscriber rows after the row with identifier `id` (if any) is marked
/// confirmed; every other row is untouched.
pub open spec fn confirm_rows(rows: Seq<SubscriberRow>, id: u128) -> Seq<SubscriberRow> {
    rows.map(
        |i: int, r: SubscriberRow|
            if r.id == id {
                SubscriberRow { status: SubscriberStatus::Confirmed, ..r }
            } else {
                r
            },
    )
}

/// The email column of the confirmed subscriber rows, in table order.
pub open spec fn confirmed_emails(rows: Seq<SubscriberRow>) -> Seq<Seq<char>>
    decreases rows.len(),
{
    if rows.len() == 0 {
        Seq::empty()
    } else {
        let prefix = confirmed_emails(rows.drop_last());
        if rows.last().status is Confirmed {
            prefix.push(rows.last().email@)
        } else {
            prefix
        }
    }
}

/// The durable state: all three tables.
#[derive(Debug)]
pub struct Store {
    pub subscribers: Vec<SubscriberRow>,
    pub tokens: Vec<TokenRow>,
    pub users: Vec<UserRow>,
}

impl Store {
    /// The schema's integrity invariant: unique subscriber identifiers and
    /// emails, unique tokens, tokens referring to existing subscribers, and
    /// unique user identifiers.
    pub open spec fn wf(self) -> bool {
        &&& forall|i: int, j: int|
            0 <= i < j < self.subscribers@.len() ==> #[trigger] self.subscribers@[i].id
                != #[trigger] self.subscribers@[j].id
        &&& forall|i: int, j: int|
            0 <= i < j < self.subscribers@.len() ==> #[trigger] self.subscribers@[i].email@
                != #[trigger] self.subscribers@[j].email@
        &&& forall|i: int, j: int|
            0 <= i < j < self.tokens@.len() ==> #[trigger] self.tokens@[i].subscription_token@
                != #[trigger] self.tokens@[j].subscription_token@
        &&& forall|i: int|
            0 <= i < self.tokens@.len() ==> has_subscriber_id(
                self.subscribers@,
                #[trigger] self.tokens@[i].subscriber_id,
            )
        &&& forall|i: int, j: int|
            0 <= i < j < self.users@.len() ==> #[trigger] self.users@[i].user_id
                != #[trigger] self.users@[j].user_id
    }

    /// An empty store.
    pub fn new() -> (r: Store)
        ensures
            r.wf(),
            r.subscribers@.len() == 0,
            r.tokens@.len() == 0,
            r.users@.len() == 0,
    {
        Store { subscribers: Vec::new(), tokens: Vec::new(), users: Vec::new() }
    }

    fn contains_subscriber_id(&self, id: u128) -> (r: bool)
        ensures
            r == has_subscriber_id(self.subscribers@, id),
    {
        let n = self.subscribers.len();
        let mut i: usize = 0;
        while i < n
            invariant
                i <= n,
                n == self.subscribers@.len(),
                forall|j: int| 0 <= j < i ==> #[trigger] self.subscribers@[j].id != id,
            decreases n - i,
        {
            if self.subscribers[i].id == id {
                return true;
            }
            i = i + 1;
        }
        false
    }

    fn contains_subscriber_email(&self, email: &String) -> (r: bool)
        ensures
            r == has_subscriber_email(self.subscribers@, email@),
    {
        let n = self.subscribers.len();
        let mut i: usize = 0;
        while i < n
            invariant
                i <= n,
                n == self.subscribers@.len(),
                forall|j: int| 0 <= j < i ==> #[trigger] self.subscribers@[j].email@ != email@,
            decreases n - i,
        {
            if self.subscribers[i].email.eq(email) {
                return true;
            }
            i = i + 1;
        }
        false
    }

    /// Whether a token row with this token exists.
    pub fn token_exists(&self, token: &String) -> (r: bool)
        ensures
            r == has_token(self.tokens@, token@),
    {
        let n = self.tokens.len();
        let mut i: usize = 0;
        while i < n
            invariant
                i <= n,
                n == self.tokens@.len(),
                forall|j: int| 0 <= j < i ==> #[trigger] self.tokens@[j].subscription_token@ != token@,
            decreases n - i,
        {
            if self.tokens[i].subscription_token.eq(token) {
                return true;
            }
            i = i + 1;
        }
        false
    }

    /// Inserts a new subscriber row with status `PendingConfirmation`.
    /// Succeeds exactly when neither the identifier nor the email address is
    /// already present; a failed insert leaves the store untouched.
    pub fn insert_subscriber(
        &mut self,
        id: u128,
        email: String,
        name: String,
        subscribed_at: i64,
    ) -> (r: Result<(), StoreError>)
        requires
            old(self).wf(),
        ensures
            final(self).wf(),
            r is Ok <==> !has_subscriber_id(old(self).subscribers@, id) && !has_subscriber_email(
                old(self).subscribers@,
                email@,
            ),
            r is Ok ==> final(self).subscribers@ == old(self).subscribers@.push(
                SubscriberRow {
                    id,
                    email,
                    name,
                    subscribed_at,
                    status: SubscriberStatus::PendingConfirmation,
                },
            ),
            r is Err ==> final(self).subscribers@ == old(self).subscribers@,
            r matches Err(e) ==> e is UniqueViolation,
            final(self).tokens@ == old(self).tokens@,
            final(self).users@ == old(self).users@,
    {
        if self.contains_subscriber_id(id) || self.contains_subscriber_email(&email) {
            return Err(StoreError::UniqueViolation);
        }
        let row = SubscriberRow {
            id,
            email,
            name,
            subscribed_at,
            status: SubscriberStatus::PendingConfirmation,
        };
        self.subscribers.push(row);
        assert forall|i: int|
            0 <= i < self.tokens@.len() implies has_subscriber_id(
            self.subscribers@,
            #[trigger] self.tokens@[i].subscriber_id,
        ) by {
            assert(has_subscriber_id(old(self).subscribers@, self.tokens@[i].subscriber_id));
            let w = choose|k: int|
                0 <= k < old(self).subscribers@.len() && #[trigger] old(
                    self,
                ).subscribers@[k].id == self.tokens@[i].subscriber_id;
            assert(self.subscribers@[w].id == self.tokens@[i].subscriber_id);
        }
        Ok(())
    }

    /// Inserts a token row for an existing subscriber. Succeeds exactly when
    /// the token is fresh and the subscriber exists; a failed insert leaves
    /// the store untouched.
    pub fn store_token(&mut self, subscriber_id: u128, token: String) -> (r: Result<
        (),
        StoreError,
    >)
        requires
            old(self).wf(),
        ensures
            final(self).wf(),
            r is Ok <==> !has_token(old(self).tokens@, token@) && has_subscriber_id(
                old(self).subscribers@,
                subscriber_id,
            ),
            r is Ok ==> final(self).tokens@ == old(self).tokens@.push(
                TokenRow { subscription_token: token, subscriber_id },
            ),
            r is Err ==> final(self).tokens@ == old(self).tokens@,
            final(self).subscribers@ == old(self).subscribers@,
            final(self).users@ == old(self).users@,
    {
        if self.token_exists(&token) {
            return Err(StoreError::UniqueViolation);
        }
        if !self.contains_subscriber_id(subscriber_id) {
            return Err(StoreError::ForeignKeyViolation);
        }
        self.tokens.push(TokenRow { subscription_token: token, subscriber_id });
        Ok(())
    }

    /// Looks a token up and returns the owning subscriber's identifier.
    pub fn get_subscriber_id_from_token(&self, token: &String) -> (r: Option<u128>)
        ensures
            r is Some <==> has_token(self.tokens@, token@),
            r matches Some(id) ==> exists|i: int|
                0 <= i < self.tokens@.len() && #[trigger] self.tokens@[i].subscription_token@
                    == token@ && self.tokens@[i].subscriber_id == id,
    {
        let n = self.tokens.len();
        let mut i: usize = 0;
        while i < n
            invariant
                i <= n,
                n == self.tokens@.len(),
                forall|j: int| 0 <= j < i ==> #[trigger] self.tokens@[j].subscription_token@ != token@,
            decreases n - i,
        {
            if self.tokens[i].subscription_token.eq(token) {
                return Some(self.tokens[i].subscriber_id);
            }
            i = i + 1;
        }
        None
    }

    /// Marks the subscriber with this identifier confirmed. Succeeds exactly
    /// when the row exists; every other row is untouched either way.
    pub fn confirm_subscriber(&mut self, subscriber_id: u128) -> (r: Result<(), StoreError>)
        requires
            old(self).wf(),
        ensures
            final(self).wf(),
            r is Ok <==> has_subscriber_id(old(self).subscribers@, subscriber_id),
            r is Ok ==> final(self).subscribers@ == confirm_rows(
                old(self).subscribers@,
                subscriber_id,
            ),
            r is Err ==> final(self).subscribers@ == old(self).subscribers@,
            r matches Err(e) ==> e is RecordNotFound,
            final(self).tokens@ == old(self).tokens@,
            final(self).users@ == old(self).users@,
    {
        let idx = match self.find_subscriber_index(subscriber_id) {
            Some(i) => i,
            None => {
                return Err(StoreError::RecordNotFound);
            },
        };
        let email = self.subscribers[idx].email.clone();
        let name = self.subscribers[idx].name.clone();
        let subscribed_at = self.subscribers[idx].subscribed_at;
        self.subscribers[idx] = SubscriberRow {
            id: subscriber_id,
            email,
            name,
            subscribed_at,
            status: SubscriberStatus::Confirmed,
        };
        proof {
            let rows = old(self).subscribers@;
            assert forall|k: int|
                0 <= k < self.subscribers@.len() implies self.subscribers@[k] == confirm_rows(
                rows,
                subscriber_id,
            )[k] by {
                if k < idx {
                    assert(rows[k].id != rows[idx as int].id);
                } else if k > idx {
                    assert(rows[idx as int].id != rows[k].id);
                }
            }
            assert(self.subscribers@ =~= confirm_rows(rows, subscriber_id));
            assert forall|a: int|
                0 <= a < self.tokens@.len() implies has_subscriber_id(
                self.subscribers@,
                #[trigger] self.tokens@[a].subscriber_id,
            ) by {
                let w = choose|k: int|
                    0 <= k < rows.len() && #[trigger] rows[k].id == self.tokens@[a].subscriber_id;
                assert(self.subscribers@[w].id == self.tokens@[a].subscriber_id);
            }
        }
        Ok(())
    }

    fn find_subscriber_index(&self, subscriber_id: u128) -> (r: Option<usize>)
        ensures
            r is Some <==> has_subscriber_id(self.subscribers@, subscriber_id),
            r matches Some(i) ==> i < self.subscribers@.len() && self.subscribers@[i as int].id
                == subscriber_id,
    {
        let n = self.subscribers.len();
        let mut i: usize = 0;
        while i < n
            invariant
                i <= n,
                n == self.subscribers@.len(),
                forall|j: int| 0 <= j < i ==> #[trigger] self.subscribers@[j].id != subscriber_id,
            decreases n - i,
        {
            if self.subscribers[i].id == subscriber_id {
                return Some(i);
            }
            i = i + 1;
        }
        None
    }

    /// Returns the identifier and stored password hash of the first user row
    /// with this username, in table order.
    pub fn get_stored_credentials(&self, username: &String) -> (r: Option<(u128, String)>)
        ensures
            r is Some <==> has_username(self.users@, username@),
            r matches Some(c) ==> exists|i: int|
                {
                    &&& 0 <= i < self.users@.len()
                    &&& #[trigger] self.users@[i].username@ == username@
                    &&& self.users@[i].user_id == c.0
                    &&& self.users@[i].password_hash@ == c.1@
                    &&& forall|j: int| 0 <= j < i ==> #[trigger] self.users@[j].username@ != username@
                },
    {
        let n = self.users.len();
        let mut i: usize = 0;
        while i < n
            invariant
                i <= n,
                n == self.users@.len(),
                forall|j: int| 0 <= j < i ==> #[trigger] self.users@[j].username@ != username@,
            decreases n - i,
        {
            if self.users[i].username.eq(username) {
                return Some((self.users[i].user_id, self.users[i].password_hash.clone()));
            }
            i = i + 1;
        }
        None
    }

    /// Returns the username of the user row with this identifier.
    pub fn get_username(&self, user_id: u128) -> (r: Option<String>)
        ensures
            r is Some <==> has_user_id(self.users@, user_id),
            r matches Some(u) ==> exists|i: int|
                0 <= i < self.users@.len() && #[trigger] self.users@[i].user_id == user_id
                    && self.users@[i].username@ == u@,
    {
        let n = self.users.len();
        let mut i: usize = 0;
        while i < n
            invariant
                i <= n,
                n == self.users@.len(),
                forall|j: int| 0 <= j < i ==> #[trigger] self.users@[j].user_id != user_id,
            decreases n - i,
        {
            if self.users[i].user_id == user_id {
                return Some(self.users[i].username.clone());
            }
            i = i + 1;
        }
        None
    }

    /// Inserts a user row. Succeeds exactly when the identifier is fresh; a
    /// failed insert leaves the store untouched.
    pub fn insert_user(&mut self, user_id: u128, username: String, password_hash: String) -> (r:
        Result<(), StoreError>)
        requires
            old(self).wf(),
        ensures
            final(self).wf(),
            r is Ok <==> !has_user_id(old(self).users@, user_id),
            r is Ok ==> final(self).users@ == old(self).users@.push(
                UserRow { user_id, username, password_hash },
            ),
            r is Err ==> final(self).users@ == old(self).users@,
            final(self).subscribers@ == old(self).subscribers@,
            final(self).tokens@ == old(self).tokens@,
    {
        if self.find_user_index(user_id).is_some() {
            return Err(StoreError::UniqueViolation);
        }
        self.users.push(UserRow { user_id, username, password_hash });
        Ok(())
    }

    /// Replaces the stored password hash of the user row with this
    /// identifier. Succeeds exactly when the row exists.
    pub fn update_password_hash(&mut self, user_id: u128, password_hash: String) -> (r: Result<
        (),
        StoreError,
    >)
        requires
            old(self).wf(),
        ensures
            final(self).wf(),
            r is Ok <==> has_user_id(old(self).users@, user_id),
            r is Ok ==> exists|i: int|
                {
                    &&& 0 <= i < old(self).users@.len()
                    &&& old(self).users@[i].user_id == user_id
                    &&& final(self).users@ == old(self).users@.update(
                        i,
                        UserRow {
                            user_id,
                            username: old(self).users@[i].username,
                            password_hash,
                        },
                    )
                },
            r is Err ==> final(self).users@ == old(self).users@,
            final(self).subscribers@ == old(self).subscribers@,
            final(self).tokens@ == old(self).tokens@,
    {
        let idx = match self.find_user_index(user_id) {
            Some(i) => i,
            None => {
                return Err(StoreError::RecordNotFound);
            },
        };
        let username = self.users[idx].username.clone();
        self.users[idx] = UserRow { user_id, username, password_hash };
        Ok(())
    }

    fn find_user_index(&self, user_id: u128) -> (r: Option<usize>)
        ensures
            r is Some <==> has_user_id(self.users@, user_id),
            r matches Some(i) ==> i < self.users@.len() && self.users@[i as int].user_id == user_id,
    {
        let n = self.users.len();
        let mut i: usize = 0;
        while i < n
            invariant
                i <= n,
                n == self.users@.len(),
                forall|j: int| 0 <= j < i ==> #[trigger] self.users@[j].user_id != user_id,
            decreases n - i,
        {
            if self.users[i].user_id == user_id {
                return Some(i);
            }
            i = i + 1;
        }
        None
    }

    /// Projects the email column of every confirmed subscriber row, in table
    /// order, as the newsletter publisher's query does.
    pub fn get_confirmed_emails(&self) -> (r: Vec<String>)
        ensures
            r@.len() == confirmed_emails(self.subscribers@).len(),
            forall|i: int|
                0 <= i < r@.len() ==> #[trigger] r@[i]@ == confirmed_emails(self.subscribers@)[i],
    {
        let n = self.subscribers.len();
        let mut out: Vec<String> = Vec::new();
        let mut i: usize = 0;
        while i < n
            invariant
                i <= n,
                n == self.subscribers@.len(),
                out@.len() == confirmed_emails(self.subscribers@.subrange(0, i as int)).len(),
                forall|k: int|
                    0 <= k < out@.len() ==> #[trigger] out@[k]@ == confirmed_emails(
                        self.subscribers@.subrange(0, i as int),
                    )[k],
            decreases n - i,
        {
            proof {
                assert(self.subscribers@.subrange(0, i + 1 as int).drop_last() =~= self.subscribers@.subrange(
                    0,
                    i as int,
                ));
                assert(self.subscribers@.subrange(0, i + 1 as int).last() == self.subscribers@[i as int]);
            }
            let is_confirmed = matches!(self.subscribers[i].status, SubscriberStatus::Confirmed);
            if is_confirmed {
                out.push(self.subscribers[i].email.clone());
            }
            i = i + 1;
        }
        proof {
            assert(self.subscribers@.subrange(0, n as int) =~= self.subscribers@);
        }
        out
    }
}

} // verus!
