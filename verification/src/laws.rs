//! The cross-function guarantees of the service, each proved from the
//! handlers' contracts over the store model.

use vstd::prelude::*;

use crate::auth::{auth_outcome, AuthError};
use crate::create_url::{create_store_change, created_link};
use crate::delete_url::delete_store_change;
use crate::get_url::has_active_link_with_id;
use crate::jwt::decoded_claims;
use crate::login::{login_outcome, LoginOutcome};
use crate::register::{register_store_change, registered_account};
use crate::store::{Account, Provider, Store};
use crate::text::{dec_str, lemma_dec_str_val};

verus! {

/// After a registration on a free username and email, a login on that
/// username with the registered password resolves to the new account's
/// id: the stored hash verifies against the password it was derived
/// from.
pub proof fn lemma_register_then_login(
    store0: Store,
    store1: Store,
    acc: Account,
    username: Seq<char>,
    email: Seq<char>,
    password: Seq<char>,
    hash_secret: Seq<char>,
    now: int,
)
    requires
        store0.wf(),
        !store0.has_account_with_username_or_email(username, email),
        registered_account(acc, store0, username, email, password, hash_secret, now),
        register_store_change(store0, store1, acc),
    ensures
        login_outcome(store1, hash_secret, username, password) == LoginOutcome::Success(acc.id),
        store1.has_account_with_id(acc.id),
{
    let n0 = store0.accounts@.len() as int;
    assert(store1.accounts@[n0] == acc);
    assert(store1.has_account_with_username(username));
    let j = choose|j: int|
        0 <= j < store1.accounts@.len() && (#[trigger] store1.accounts@[j]).username@ == username;
    if j < n0 {
        assert(store0.accounts@[j].username@ == username);
    }
    assert(j == n0);
    assert(store1.account_by_username(username) == acc);
}

/// A token carrying a live account's id as its subject, presented as
/// `Bearer <token>` and not yet expired, authenticates as that account.
pub proof fn lemma_issued_token_resolves(
    store: Store,
    jwt_secret: Seq<char>,
    token: Seq<char>,
    id: u64,
    iat: int,
    exp: int,
    now: int,
)
    requires
        store.wf(),
        decoded_claims(jwt_secret, token) == Some((dec_str(id as nat), iat, exp)),
        now <= exp,
        store.has_account_with_id(id),
    ensures
        auth_outcome(store, jwt_secret, Some("Bearer "@ + token), now) == Ok::<u64, AuthError>(id),
{
    reveal_strlit("Bearer ");
    let h = "Bearer "@ + token;
    assert(h.subrange(0, 7) =~= "Bearer "@);
    assert(h.subrange(7, h.len() as int) =~= token);
    lemma_dec_str_val(id as nat);
}

/// An externally-authenticated account can never log in by password:
/// whatever the password, the outcome is the provider rejection.
pub proof fn lemma_external_provider_rejected(
    store: Store,
    hash_secret: Seq<char>,
    username: Seq<char>,
    password: Seq<char>,
)
    requires
        store.wf(),
        store.has_account_with_username(username),
        store.account_by_username(username).provider == Provider::Google,
    ensures
        login_outcome(store, hash_secret, username, password) == LoginOutcome::ProviderNotValid,
{
}

/// Soft deletion is idempotent and refreshes the stamp: after one
/// deletion the row still exists under its id with the same owner — so a
/// second deletion succeeds too — and carries the deletion time of the
/// latest call.
pub proof fn lemma_delete_idempotent(
    store0: Store,
    store1: Store,
    i: int,
    owner_id: u64,
    link_id: u64,
    now: int,
)
    requires
        store0.wf(),
        store0.has_link_with_id(link_id),
        store0.link_by_id(link_id).owner_id == owner_id,
        delete_store_change(store0, store1, i, now),
        store0.links@[i].id == link_id,
    ensures
        store1.has_link_with_id(link_id),
        store1.link_by_id(link_id).owner_id == owner_id,
        store1.link_by_id(link_id).deleted_at == Some(now as i64),
{
    assert(store1.links@[i].id == link_id);
    assert(store1.has_link_with_id(link_id));
    let j = choose|j: int|
        0 <= j < store1.links@.len() && (#[trigger] store1.links@[j]).id == link_id;
    if j != i {
        assert(store0.links@[j].id == link_id);
        assert(store0.links@[i].id == store0.links@[j].id);
    }
    assert(j == i);
    assert(store1.link_by_id(link_id) == store1.links@[i]);
}

/// A slug carried by a live link meets the creation duplicate check,
/// whatever name comes with it; soft-deleted rows lie outside
/// `has_active_slug` and `has_active_conflict`, so a retired slug does
/// not stand in the way.
pub proof fn lemma_taken_slug_conflicts(store: Store, name: Seq<char>, slug: Seq<char>)
    requires
        store.has_active_slug(slug),
    ensures
        store.has_active_conflict(name, slug),
{
}

/// A name and slug carried only by soft-deleted rows do not block
/// creation: when every row bearing them is deleted, the duplicate check
/// passes, and creation then succeeds by `create_url_handler`'s contract
/// wherever its machine limits (a free id) allow.
pub proof fn lemma_deleted_rows_do_not_block(store: Store, name: Seq<char>, slug: Seq<char>)
    requires
        forall|i: int|
            0 <= i < store.links@.len() && (#[trigger] store.links@[i]).name@ == name
                ==> !store.links@[i].is_active(),
        forall|i: int|
            0 <= i < store.links@.len() && (#[trigger] store.links@[i]).slug@ == slug
                ==> !store.links@[i].is_active(),
    ensures
        !store.has_active_conflict(name, slug),
        !store.has_active_slug(slug),
{
}

/// After a link is created, its name and slug are taken: a second
/// creation with the same name or the same stored slug meets the
/// duplicate check.
pub proof fn lemma_create_then_duplicate(
    store0: Store,
    store1: Store,
    l: crate::store::Link,
    owner_id: u64,
    name: Seq<char>,
    slug: Seq<char>,
    redirect_to: Seq<char>,
    now: int,
)
    requires
        created_link(l, store0, owner_id, name, slug, redirect_to, now),
        create_store_change(store0, store1, l),
    ensures
        store1.has_active_conflict(name, l.slug@),
        store1.has_active_slug(l.slug@),
{
    let n0 = store0.links@.len() as int;
    assert(store1.links@[n0] == l);
    assert(store1.links@[n0].is_active());
}

/// Ownership shields a live link: for a caller who is not the owner, the
/// row is found (so every mutation path answers Forbidden, never
/// NotFound, by the handlers' contracts).
pub proof fn lemma_non_owner_sees_forbidden(store: Store, caller: u64, link_id: u64)
    requires
        store.wf(),
        has_active_link_with_id(store, link_id),
        store.link_by_id(link_id).owner_id != caller,
    ensures
        store.has_link_with_id(link_id),
        store.link_by_id(link_id).is_active(),
{
    let j = choose|j: int|
        0 <= j < store.links@.len() && (#[trigger] store.links@[j]).id == link_id
            && store.links@[j].is_active();
    assert(store.links@[j].id == link_id);
    assert(store.has_link_with_id(link_id));
    let k = choose|k: int|
        0 <= k < store.links@.len() && (#[trigger] store.links@[k]).id == link_id;
    assert(k == j);
}

} // verus!
