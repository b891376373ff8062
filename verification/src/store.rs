//! The account and link records and the in-memory store they live in.
//!
//! The store stands for the service's backing table pair.  Its
//! well-formedness predicate carries the schema-level guarantees the
//! handlers rely on: unique identifiers below the next-id counters, unique
//! usernames and emails, a password hash exactly on locally-authenticated
//! accounts, and unique names and slugs among links that are not
//! soft-deleted.

use vstd::prelude::*;

verus! {

/// How an account authenticates: through a password held here (`Local`) or
/// through an outside identity provider (`Google`).
#[derive(Clone, Copy, Debug, PartialEq, Eq, Structural)]
pub enum Provider {
    Google,
    Local,
}

/// A stored account row.
#[derive(Debug)]
pub struct Account {
    pub id: u64,
    pub username: String,
    pub email: String,
    pub password_hash: Option<String>,
    pub provider: Provider,
    pub created_at: i64,
    pub updated_at: Option<i64>,
}

impl Account {
    /// A password hash is present exactly on locally-authenticated accounts.
    pub open spec fn wf(self) -> bool {
        self.password_hash is Some <==> self.provider == Provider::Local
    }
}

/// A stored short-link row.  `deleted_at` set marks the row soft-deleted.
#[derive(Debug)]
pub struct Link {
    pub id: u64,
    pub name: String,
    pub slug: String,
    pub redirect_to: String,
    pub owner_id: u64,
    pub created_at: i64,
    pub updated_at: Option<i64>,
    pub deleted_at: Option<i64>,
}

impl Link {
    /// Whether the row is live, that is not soft-deleted.
    pub open spec fn is_active(self) -> bool {
        self.deleted_at is None
    }
}

/// Copies an account field by field.
pub fn copy_account(a: &Account) -> (r: Account)
    ensures
        r == *a,
{
    Account {
        id: a.id,
        username: a.username.clone(),
        email: a.email.clone(),
        password_hash: match &a.password_hash {
            Some(h) => Some(h.clone()),
            None => None,
        },
        provider: a.provider,
        created_at: a.created_at,
        updated_at: a.updated_at,
    }
}

/// Copies a link field by field.
pub fn copy_link(l: &Link) -> (r: Link)
    ensures
        r == *l,
{
    Link {
        id: l.id,
        name: l.name.clone(),
        slug: l.slug.clone(),
        redirect_to: l.redirect_to.clone(),
        owner_id: l.owner_id,
        created_at: l.created_at,
        updated_at: l.updated_at,
        deleted_at: l.deleted_at,
    }
}

/// The in-memory account and link tables.
#[derive(Debug)]
pub struct Store {
    pub accounts: Vec<Account>,
    pub links: Vec<Link>,
    pub next_account_id: u64,
    pub next_link_id: u64,
}

impl Store {
    /// The schema-level invariant of the two tables.
    pub open spec fn wf(self) -> bool {
        &&& forall|i: int|
            0 <= i < self.accounts@.len() ==> (#[trigger] self.accounts@[i]).wf()
                && self.accounts@[i].id < self.next_account_id
        &&& forall|i: int, j: int|
            0 <= i < j < self.accounts@.len() ==> #[trigger] self.accounts@[i].id
                != #[trigger] self.accounts@[j].id && self.accounts@[i].username@
                != self.accounts@[j].username@ && self.accounts@[i].email@
                != self.accounts@[j].email@
        &&& forall|i: int|
            0 <= i < self.links@.len() ==> (#[trigger] self.links@[i]).id < self.next_link_id
        &&& forall|i: int, j: int|
            0 <= i < j < self.links@.len() ==> #[trigger] self.links@[i].id
                != #[trigger] self.links@[j].id
        &&& forall|i: int, j: int|
            0 <= i < j < self.links@.len() && (#[trigger] self.links@[i]).is_active()
                && (#[trigger] self.links@[j]).is_active() ==> self.links@[i].name@
                != self.links@[j].name@ && self.links@[i].slug@ != self.links@[j].slug@
    }

    /// An empty store.
    pub fn new() -> (r: Store)
        ensures
            r.wf(),
            r.accounts@.len() == 0,
            r.links@.len() == 0,
            r.next_account_id == 1,
            r.next_link_id == 1,
    {
        Store { accounts: Vec::new(), links: Vec::new(), next_account_id: 1, next_link_id: 1 }
    }

    /// Whether some account carries this id.
    pub open spec fn has_account_with_id(self, id: u64) -> bool {
        exists|i: int| 0 <= i < self.accounts@.len() && (#[trigger] self.accounts@[i]).id == id
    }

    /// The account carrying this id.
    pub open spec fn account_by_id(self, id: u64) -> Account {
        self.accounts@[choose|i: int|
            0 <= i < self.accounts@.len() && (#[trigger] self.accounts@[i]).id == id]
    }

    /// Whether some account carries this username.
    pub open spec fn has_account_with_username(self, u: Seq<char>) -> bool {
        exists|i: int|
            0 <= i < self.accounts@.len() && (#[trigger] self.accounts@[i]).username@ == u
    }

    /// The account carrying this username.
    pub open spec fn account_by_username(self, u: Seq<char>) -> Account {
        self.accounts@[choose|i: int|
            0 <= i < self.accounts@.len() && (#[trigger] self.accounts@[i]).username@ == u]
    }

    /// Whether some account carries this username or this email.
    pub open spec fn has_account_with_username_or_email(self, u: Seq<char>, e: Seq<char>) -> bool {
        exists|i: int|
            0 <= i < self.accounts@.len() && ((#[trigger] self.accounts@[i]).username@ == u
                || self.accounts@[i].email@ == e)
    }

    /// Whether some link carries this id.
    pub open spec fn has_link_with_id(self, id: u64) -> bool {
        exists|i: int| 0 <= i < self.links@.len() && (#[trigger] self.links@[i]).id == id
    }

    /// The link carrying this id.
    pub open spec fn link_by_id(self, id: u64) -> Link {
        self.links@[choose|i: int|
            0 <= i < self.links@.len() && (#[trigger] self.links@[i]).id == id]
    }

    /// Whether some non-deleted link carries this name or this slug.
    pub open spec fn has_active_conflict(self, name: Seq<char>, slug: Seq<char>) -> bool {
        exists|i: int|
            0 <= i < self.links@.len() && (#[trigger] self.links@[i]).is_active()
                && (self.links@[i].name@ == name || self.links@[i].slug@ == slug)
    }

    /// Whether some non-deleted link carries this slug.
    pub open spec fn has_active_slug(self, slug: Seq<char>) -> bool {
        exists|i: int|
            0 <= i < self.links@.len() && (#[trigger] self.links@[i]).is_active()
                && self.links@[i].slug@ == slug
    }

    /// Whether some non-deleted link other than `id` carries this name or
    /// this slug.
    pub open spec fn has_other_active_conflict(
        self,
        id: u64,
        name: Seq<char>,
        slug: Seq<char>,
    ) -> bool {
        exists|i: int|
            0 <= i < self.links@.len() && (#[trigger] self.links@[i]).is_active()
                && self.links@[i].id != id && (self.links@[i].name@ == name
                || self.links@[i].slug@ == slug)
    }

    /// Finds the account with the given id.
    pub fn find_account_by_id(&self, id: u64) -> (r: Option<usize>)
        requires
            self.wf(),
        ensures
            r is Some <==> self.has_account_with_id(id),
            r matches Some(i) ==> i < self.accounts@.len() && self.accounts@[i as int].id == id
                && self.accounts@[i as int] == self.account_by_id(id),
    {
        let n = self.accounts.len();
        let mut i: usize = 0;
        while i < n
            invariant
                self.wf(),
                0 <= i <= n,
                n == self.accounts@.len(),
                forall|j: int| 0 <= j < i ==> (#[trigger] self.accounts@[j]).id != id,
            decreases n - i,
        {
            if self.accounts[i].id == id {
                proof {
                    let w = choose|k: int|
                        0 <= k < self.accounts@.len() && (#[trigger] self.accounts@[k]).id == id;
                    assert(w == i);
                }
                return Some(i);
            }
            i = i + 1;
        }
        None
    }

    /// Finds the account with the given username.
    pub fn find_account_by_username(&self, username: &String) -> (r: Option<usize>)
        requires
            self.wf(),
        ensures
            r is Some <==> self.has_account_with_username(username@),
            r matches Some(i) ==> i < self.accounts@.len() && self.accounts@[i as int].username@
                == username@ && self.accounts@[i as int] == self.account_by_username(username@),
    {
        let n = self.accounts.len();
        let mut i: usize = 0;
        while i < n
            invariant
                self.wf(),
                0 <= i <= n,
                n == self.accounts@.len(),
                forall|j: int| 0 <= j < i ==> (#[trigger] self.accounts@[j]).username@ != username@,
            decreases n - i,
        {
            if self.accounts[i].username.eq(username) {
                proof {
                    let w = choose|k: int|
                        0 <= k < self.accounts@.len() && (#[trigger] self.accounts@[k]).username@
                            == username@;
                    assert(w == i);
                }
                return Some(i);
            }
            i = i + 1;
        }
        None
    }

    /// Whether some account carries the given username or email.
    pub fn exists_account_with_username_or_email(&self, username: &String, email: &String) -> (r:
        bool)
        ensures
            r == self.has_account_with_username_or_email(username@, email@),
    {
        let n = self.accounts.len();
        let mut i: usize = 0;
        while i < n
            invariant
                0 <= i <= n,
                n == self.accounts@.len(),
                forall|j: int|
                    0 <= j < i ==> !((#[trigger] self.accounts@[j]).username@ == username@
                        || self.accounts@[j].email@ == email@),
            decreases n - i,
        {
            if self.accounts[i].username.eq(username) || self.accounts[i].email.eq(email) {
                return true;
            }
            i = i + 1;
        }
        false
    }

    /// Finds the link with the given id, deleted or not.
    pub fn find_link_by_id(&self, id: u64) -> (r: Option<usize>)
        requires
            self.wf(),
        ensures
            r is Some <==> self.has_link_with_id(id),
            r matches Some(i) ==> i < self.links@.len() && self.links@[i as int].id == id
                && self.links@[i as int] == self.link_by_id(id),
    {
        let n = self.links.len();
        let mut i: usize = 0;
        while i < n
            invariant
                self.wf(),
                0 <= i <= n,
                n == self.links@.len(),
                forall|j: int| 0 <= j < i ==> (#[trigger] self.links@[j]).id != id,
            decreases n - i,
        {
            if self.links[i].id == id {
                proof {
                    let w = choose|k: int|
                        0 <= k < self.links@.len() && (#[trigger] self.links@[k]).id == id;
                    assert(w == i);
                }
                return Some(i);
            }
            i = i + 1;
        }
        None
    }

    /// Whether some non-deleted link carries the given name or slug.
    pub fn exists_active_conflict(&self, name: &String, slug: &String) -> (r: bool)
        ensures
            r == self.has_active_conflict(name@, slug@),
    {
        let n = self.links.len();
        let mut i: usize = 0;
        while i < n
            invariant
                0 <= i <= n,
                n == self.links@.len(),
                forall|j: int|
                    0 <= j < i ==> !((#[trigger] self.links@[j]).is_active() && (
                    self.links@[j].name@ == name@ || self.links@[j].slug@ == slug@)),
            decreases n - i,
        {
            if self.links[i].deleted_at.is_none() && (self.links[i].name.eq(name)
                || self.links[i].slug.eq(slug)) {
                return true;
            }
            i = i + 1;
        }
        false
    }

    /// Whether some non-deleted link carries the given slug.
    pub fn exists_active_slug(&self, slug: &String) -> (r: bool)
        ensures
            r == self.has_active_slug(slug@),
    {
        let n = self.links.len();
        let mut i: usize = 0;
        while i < n
            invariant
                0 <= i <= n,
                n == self.links@.len(),
                forall|j: int|
                    0 <= j < i ==> !((#[trigger] self.links@[j]).is_active() && self.links@[j].slug@
                        == slug@),
            decreases n - i,
        {
            if self.links[i].deleted_at.is_none() && self.links[i].slug.eq(slug) {
                return true;
            }
            i = i + 1;
        }
        false
    }

    /// Whether some non-deleted link other than `id` carries the given name
    /// or slug.
    pub fn exists_other_active_conflict(&self, id: u64, name: &String, slug: &String) -> (r: bool)
        ensures
            r == self.has_other_active_conflict(id, name@, slug@),
    {
        let n = self.links.len();
        let mut i: usize = 0;
        while i < n
            invariant
                0 <= i <= n,
                n == self.links@.len(),
                forall|j: int|
                    0 <= j < i ==> !((#[trigger] self.links@[j]).is_active() && self.links@[j].id
                        != id && (self.links@[j].name@ == name@ || self.links@[j].slug@ == slug@)),
            decreases n - i,
        {
            if self.links[i].deleted_at.is_none() && self.links[i].id != id && (
                self.links[i].name.eq(name) || self.links[i].slug.eq(slug)) {
                return true;
            }
            i = i + 1;
        }
        false
    }
}

} // verus!
