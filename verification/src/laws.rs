//! Laws of the registry's state machine.
//!
//! Each proof function here states one guarantee of the registry over the
//! transition functions that the operations' own contracts use, for every
//! state and every input its `requires` admits.

use vstd::prelude::*;

use crate::account::null_id;
use crate::registry::Error;
use crate::registry::RegistryView;
use crate::registry::TokenId;
use crate::registry::spec_burn;
use crate::registry::spec_mint;
use crate::registry::spec_owner_of;

verus! {

/// A mint on behalf of any identity other than the issuer fails with
/// `OnlyAdminCanIssue` and leaves the whole state — the owner map included —
/// unchanged.
pub proof fn lemma_mint_by_non_issuer_changes_nothing(
    s: RegistryView,
    caller: Seq<u8>,
    id: TokenId,
    token_uri: Seq<u8>,
    owner: Seq<u8>,
    expiration_date: Seq<u8>,
    candidate_name: Seq<u8>,
)
    requires
        caller != s.issuer,
    ensures
        spec_mint(s, caller, id, token_uri, owner, expiration_date, candidate_name).1 == Err::<
            (),
            Error,
        >(Error::OnlyAdminCanIssue),
        spec_mint(s, caller, id, token_uri, owner, expiration_date, candidate_name).0 == s,
{
}

/// A mint by the issuer of an id with no live token, bound to a non-null
/// owner, succeeds, and afterwards that owner is reported for the id.
pub proof fn lemma_mint_fresh_token_succeeds(
    s: RegistryView,
    id: TokenId,
    token_uri: Seq<u8>,
    owner: Seq<u8>,
    expiration_date: Seq<u8>,
    candidate_name: Seq<u8>,
)
    requires
        !s.token_owner.dom().contains(id),
        owner != null_id(),
    ensures
        spec_mint(s, s.issuer, id, token_uri, owner, expiration_date, candidate_name).1 == Ok::<
            (),
            Error,
        >(()),
        spec_owner_of(
            spec_mint(s, s.issuer, id, token_uri, owner, expiration_date, candidate_name).0,
            id,
        ) == Some(owner),
{
}

/// A mint by the issuer that targets the null identity fails with
/// `NotAllowed` and leaves the owner map unchanged — for any id with no live
/// token. (For an id whose token is live the liveness check comes first, so
/// such a mint fails with `TokenExists` instead.)
pub proof fn lemma_mint_to_null_owner_fails(
    s: RegistryView,
    id: TokenId,
    token_uri: Seq<u8>,
    expiration_date: Seq<u8>,
    candidate_name: Seq<u8>,
)
    requires
        !s.token_owner.dom().contains(id),
    ensures
        spec_mint(s, s.issuer, id, token_uri, null_id(), expiration_date, candidate_name).1
            == Err::<(), Error>(Error::NotAllowed),
        spec_mint(
            s,
            s.issuer,
            id,
            token_uri,
            null_id(),
            expiration_date,
            candidate_name,
        ).0.token_owner == s.token_owner,
{
}

/// A mint by the issuer of an id whose token is live fails with
/// `TokenExists`, leaves the owner map unchanged, and in particular keeps the
/// previous owner of that id.
pub proof fn lemma_mint_live_token_fails(
    s: RegistryView,
    id: TokenId,
    token_uri: Seq<u8>,
    owner: Seq<u8>,
    expiration_date: Seq<u8>,
    candidate_name: Seq<u8>,
)
    requires
        s.token_owner.dom().contains(id),
    ensures
        spec_mint(s, s.issuer, id, token_uri, owner, expiration_date, candidate_name).1 == Err::<
            (),
            Error,
        >(Error::TokenExists),
        spec_mint(s, s.issuer, id, token_uri, owner, expiration_date, candidate_name).0.token_owner
            == s.token_owner,
        spec_owner_of(
            spec_mint(s, s.issuer, id, token_uri, owner, expiration_date, candidate_name).0,
            id,
        ) == spec_owner_of(s, id),
{
}

/// After any successful mint, a burn of the same id on behalf of the owner
/// the token was bound to succeeds, and afterwards no owner is reported for
/// the id.
pub proof fn lemma_burn_after_mint_succeeds(
    s: RegistryView,
    caller: Seq<u8>,
    id: TokenId,
    token_uri: Seq<u8>,
    owner: Seq<u8>,
    expiration_date: Seq<u8>,
    candidate_name: Seq<u8>,
)
    requires
        spec_mint(s, caller, id, token_uri, owner, expiration_date, candidate_name).1 == Ok::<
            (),
            Error,
        >(()),
    ensures
        ({
            let minted = spec_mint(
                s,
                caller,
                id,
                token_uri,
                owner,
                expiration_date,
                candidate_name,
            ).0;
            &&& spec_burn(minted, owner, id).1 == Ok::<(), Error>(())
            &&& spec_owner_of(spec_burn(minted, owner, id).0, id) is None
        }),
{
}

/// A burn on behalf of any identity other than the recorded owner of a live
/// token fails with `NotOwner` and leaves the whole state unchanged.
pub proof fn lemma_burn_by_non_owner_changes_nothing(s: RegistryView, caller: Seq<u8>, id: TokenId)
    requires
        s.token_owner.dom().contains(id),
        caller != s.token_owner[id],
    ensures
        spec_burn(s, caller, id).1 == Err::<(), Error>(Error::NotOwner),
        spec_burn(s, caller, id).0 == s,
{
}

/// A burn of an id with no live token fails with `TokenNotFound` and leaves
/// the whole state unchanged, whoever calls.
pub proof fn lemma_burn_absent_token_fails(s: RegistryView, caller: Seq<u8>, id: TokenId)
    requires
        !s.token_owner.dom().contains(id),
    ensures
        spec_burn(s, caller, id).1 == Err::<(), Error>(Error::TokenNotFound),
        spec_burn(s, caller, id).0 == s,
{
}

/// A burned id is free for reuse: after a successful mint of `id` and a burn
/// by its owner, the issuer can mint `id` again, bound to any non-null owner,
/// and afterwards that new owner is reported for the id.
pub proof fn lemma_burned_id_can_be_reminted(
    s: RegistryView,
    id: TokenId,
    first_uri: Seq<u8>,
    first_owner: Seq<u8>,
    first_expiration: Seq<u8>,
    first_name: Seq<u8>,
    next_uri: Seq<u8>,
    next_owner: Seq<u8>,
    next_expiration: Seq<u8>,
    next_name: Seq<u8>,
)
    requires
        spec_mint(s, s.issuer, id, first_uri, first_owner, first_expiration, first_name).1 == Ok::<
            (),
            Error,
        >(()),
        next_owner != null_id(),
    ensures
        ({
            let minted = spec_mint(
                s,
                s.issuer,
                id,
                first_uri,
                first_owner,
                first_expiration,
                first_name,
            ).0;
            let burned = spec_burn(minted, first_owner, id).0;
            let again = spec_mint(
                burned,
                s.issuer,
                id,
                next_uri,
                next_owner,
                next_expiration,
                next_name,
            );
            &&& spec_burn(minted, first_owner, id).1 == Ok::<(), Error>(())
            &&& again.1 == Ok::<(), Error>(())
            &&& spec_owner_of(again.0, id) == Some(next_owner)
        }),
{
}

/// Neither a mint nor a burn, successful or not, ever changes the issuer or
/// the certificate-authority label.
pub proof fn lemma_issuer_and_authority_fixed(
    s: RegistryView,
    caller: Seq<u8>,
    id: TokenId,
    token_uri: Seq<u8>,
    owner: Seq<u8>,
    expiration_date: Seq<u8>,
    candidate_name: Seq<u8>,
)
    ensures
        spec_mint(s, caller, id, token_uri, owner, expiration_date, candidate_name).0.issuer
            == s.issuer,
        spec_mint(
            s,
            caller,
            id,
            token_uri,
            owner,
            expiration_date,
            candidate_name,
        ).0.certificate_authority == s.certificate_authority,
        spec_burn(s, caller, id).0.issuer == s.issuer,
        spec_burn(s, caller, id).0.certificate_authority == s.certificate_authority,
{
}

} // verus!
