//! The certificate registry: a state machine over token ownership.
//!
//! The registry records one immutable issuer identity, an immutable
//! certificate-authority label, a map from token id to owner for every live
//! token, contract-wide metadata describing the most recently minted
//! certificate, and a log of issuance notifications. `mint` and `burn` take
//! the caller's identity as an explicit argument; the host that resolves
//! identities hands it in as a plain value.

use vstd::prelude::*;

use crate::account::AccountId;
use crate::account::ID_WIDTH;
use crate::account::null_id;

verus! {

broadcast use vstd::std_specs::hash::group_hash_axioms, crate::account::lemma_id_width;

/// A token identifier: a 32-bit unsigned integer chosen by the caller.
pub type TokenId = u32;

/// Every way a registry operation can fail.
#[derive(Clone, Copy, Debug, PartialEq, Eq)]
pub enum Error {
    /// The caller of `burn` is not the recorded owner of the token.
    NotOwner,
    /// The caller of `mint` is not the issuer.
    OnlyAdminCanIssue,
    /// The token id handed to `mint` already names a live token.
    TokenExists,
    /// The owner handed to `mint` is the null identity.
    NotAllowed,
    /// Reserved; no operation currently returns it.
    OnlyAdminCanCheck,
    /// The token id handed to `burn` names no live token.
    TokenNotFound,
}

/// An issuance notification: emitted once for every successful mint.
#[derive(Clone, Copy, Debug, PartialEq, Eq)]
pub struct Issue {
    /// The owner the token was bound to.
    pub to: Option<AccountId>,
    /// The id of the minted token.
    pub id: TokenId,
}

/// The mathematical shape of an issuance notification.
#[verifier::ext_equal]
pub struct IssueView {
    pub to: Option<Seq<u8>>,
    pub id: TokenId,
}

impl View for Issue {
    type V = IssueView;

    open spec fn view(&self) -> IssueView {
        IssueView { to: match self.to {
            Some(a) => Some(a@),
            None => None,
        }, id: self.id }
    }
}

/// The mathematical state of a registry.
#[verifier::ext_equal]
pub struct RegistryView {
    /// The single identity permitted to mint; fixed at construction.
    pub issuer: Seq<u8>,
    /// The certifying body's label; fixed at construction.
    pub certificate_authority: Seq<u8>,
    /// Metadata of the most recently attempted authorized mint.
    pub token_uri: Seq<u8>,
    /// Owner of each live token.
    pub token_owner: Map<TokenId, Seq<u8>>,
    /// Metadata of the most recently attempted authorized mint.
    pub candidate_name: Seq<u8>,
    /// Metadata of the most recently attempted authorized mint.
    pub expiration_date: Seq<u8>,
    /// Issuance notifications, oldest first.
    pub events: Seq<IssueView>,
}

/// Owner map of a registry, as identities' bytes.
pub open spec fn owners_view(m: Map<TokenId, AccountId>) -> Map<TokenId, Seq<u8>> {
    m.map_values(|a: AccountId| a@)
}

/// Notification log of a registry, as notification views.
pub open spec fn events_view(v: Seq<Issue>) -> Seq<IssueView> {
    v.map_values(|e: Issue| e@)
}

impl RegistryView {
    /// Structural soundness of a registry state: no live token is owned by
    /// the null identity, and every recorded owner is a full-width identity.
    pub open spec fn wf(self) -> bool {
        forall|k: TokenId| #[trigger] self.token_owner.dom().contains(k) ==> {
            &&& self.token_owner[k] != null_id()
            &&& self.token_owner[k].len() == ID_WIDTH
        }
    }
}

/// The state a fresh registry starts in: the given issuer and authority
/// label, empty metadata, no live tokens, no notifications.
pub open spec fn spec_new(issuer: Seq<u8>, certificate_authority: Seq<u8>) -> RegistryView {
    RegistryView {
        issuer: issuer,
        certificate_authority: certificate_authority,
        token_uri: Seq::empty(),
        token_owner: Map::empty(),
        candidate_name: Seq::empty(),
        expiration_date: Seq::empty(),
        events: Seq::empty(),
    }
}

/// What registering `id -> owner` does to a state: it fails on a live id,
/// then on a null owner, and otherwise records the ownership. The checks are
/// made in exactly that order, so a live id is reported as `TokenExists` even
/// when the owner is also null.
pub open spec fn spec_register(s: RegistryView, owner: Seq<u8>, id: TokenId) -> (RegistryView,
    Result<(), Error>) {
    if s.token_owner.dom().contains(id) {
        (s, Err(Error::TokenExists))
    } else if owner == null_id() {
        (s, Err(Error::NotAllowed))
    } else {
        (RegistryView { token_owner: s.token_owner.insert(id, owner), ..s }, Ok(()))
    }
}

/// What `mint` does to a state. A caller other than the issuer changes
/// nothing and is refused. The issuer first overwrites the contract-wide
/// metadata — deliberately before any further check, so a mint that then
/// fails leaves the new metadata behind — and then registers the ownership;
/// on success a notification is appended.
pub open spec fn spec_mint(
    s: RegistryView,
    caller: Seq<u8>,
    id: TokenId,
    token_uri: Seq<u8>,
    owner: Seq<u8>,
    expiration_date: Seq<u8>,
    candidate_name: Seq<u8>,
) -> (RegistryView, Result<(), Error>) {
    if caller != s.issuer {
        (s, Err(Error::OnlyAdminCanIssue))
    } else {
        let with_metadata = RegistryView {
            token_uri: token_uri,
            expiration_date: expiration_date,
            candidate_name: candidate_name,
            ..s
        };
        let (registered, outcome) = spec_register(with_metadata, owner, id);
        match outcome {
            Ok(()) => (
                RegistryView {
                    events: registered.events.push(IssueView { to: Some(owner), id: id }),
                    ..registered
                },
                Ok(()),
            ),
            Err(e) => (registered, Err(e)),
        }
    }
}

/// What `burn` does to a state: an absent id is refused, a caller other than
/// the recorded owner is refused, and otherwise the token's ownership record
/// is removed. No notification is appended.
pub open spec fn spec_burn(s: RegistryView, caller: Seq<u8>, id: TokenId) -> (RegistryView, Result<
    (),
    Error,
>) {
    if !s.token_owner.dom().contains(id) {
        (s, Err(Error::TokenNotFound))
    } else if s.token_owner[id] != caller {
        (s, Err(Error::NotOwner))
    } else {
        (RegistryView { token_owner: s.token_owner.remove(id), ..s }, Ok(()))
    }
}

/// What `owner_of` reads from a state: the owner of a live token, absence
/// otherwise.
pub open spec fn spec_owner_of(s: RegistryView, id: TokenId) -> Option<Seq<u8>> {
    if s.token_owner.dom().contains(id) {
        Some(s.token_owner[id])
    } else {
        None
    }
}

/// The owner an `owner_of` call reports, as identity bytes.
pub open spec fn owner_opt_view(o: Option<AccountId>) -> Option<Seq<u8>> {
    match o {
        Some(a) => Some(a@),
        None => None,
    }
}

/// Inserting into the owner map and then reading identities' bytes is the
/// same as inserting the identity's bytes into the bytes-level map.
proof fn lemma_owners_view_insert(m: Map<TokenId, AccountId>, k: TokenId, v: AccountId)
    ensures
        owners_view(m.insert(k, v)) =~= owners_view(m).insert(k, v@),
{
}

/// Removing from the owner map commutes with reading identities' bytes.
proof fn lemma_owners_view_remove(m: Map<TokenId, AccountId>, k: TokenId)
    ensures
        owners_view(m.remove(k)) =~= owners_view(m).remove(k),
{
}

/// Appending a notification commutes with reading the log's views.
proof fn lemma_events_view_push(v: Seq<Issue>, e: Issue)
    ensures
        events_view(v.push(e)) =~= events_view(v).push(e@),
{
}

/// Registering an ownership keeps the registry sound: the owner recorded for
/// the fresh token is a full-width, non-null identity.
pub proof fn lemma_register_preserves_wf(s: RegistryView, owner: Seq<u8>, id: TokenId)
    requires
        s.wf(),
        owner.len() == ID_WIDTH,
    ensures
        spec_register(s, owner, id).0.wf(),
{
    let t = spec_register(s, owner, id).0;
    if !s.token_owner.dom().contains(id) && owner != null_id() {
        assert forall|k: TokenId| #[trigger] t.token_owner.dom().contains(k) implies t.token_owner[k]
            != null_id() && t.token_owner[k].len() == ID_WIDTH by {
            if k != id {
                assert(s.token_owner.dom().contains(k));
            }
        }
    }
}

/// A mint, successful or not, keeps the registry sound.
pub proof fn lemma_mint_preserves_wf(
    s: RegistryView,
    caller: Seq<u8>,
    id: TokenId,
    token_uri: Seq<u8>,
    owner: Seq<u8>,
    expiration_date: Seq<u8>,
    candidate_name: Seq<u8>,
)
    requires
        s.wf(),
        owner.len() == ID_WIDTH,
    ensures
        spec_mint(s, caller, id, token_uri, owner, expiration_date, candidate_name).0.wf(),
{
    if caller == s.issuer {
        let with_metadata = RegistryView {
            token_uri: token_uri,
            expiration_date: expiration_date,
            candidate_name: candidate_name,
            ..s
        };
        lemma_register_preserves_wf(with_metadata, owner, id);
    }
}

/// A burn, successful or not, keeps the registry sound.
pub proof fn lemma_burn_preserves_wf(s: RegistryView, caller: Seq<u8>, id: TokenId)
    requires
        s.wf(),
    ensures
        spec_burn(s, caller, id).0.wf(),
{
    let t = spec_burn(s, caller, id).0;
    assert forall|k: TokenId| #[trigger] t.token_owner.dom().contains(k) implies t.token_owner[k]
        != null_id() && t.token_owner[k].len() == ID_WIDTH by {
        assert(s.token_owner.dom().contains(k));
    }
}

/// The certificate registry.
pub struct DigitalCertificate {
    issuer: AccountId,
    certificate_authority: Vec<u8>,
    token_uri: Vec<u8>,
    token_owner: std::collections::HashMap<TokenId, AccountId>,
    candidate_name: Vec<u8>,
    expiration_date: Vec<u8>,
    events: Vec<Issue>,
}

impl View for DigitalCertificate {
    type V = RegistryView;

    closed spec fn view(&self) -> RegistryView {
        RegistryView {
            issuer: self.issuer@,
            certificate_authority: self.certificate_authority@,
            token_uri: self.token_uri@,
            token_owner: owners_view(self.token_owner@),
            candidate_name: self.candidate_name@,
            expiration_date: self.expiration_date@,
            events: events_view(self.events@),
        }
    }
}

impl DigitalCertificate {
    /// Creates a registry with the given issuer and certificate-authority
    /// label; everything else starts empty. Never fails.
    pub fn new(issuer: AccountId, certificate_authority: Vec<u8>) -> (r: DigitalCertificate)
        ensures
            r@ == spec_new(issuer@, certificate_authority@),
            r@.wf(),
    {
        let r = DigitalCertificate {
            issuer,
            certificate_authority,
            token_uri: Vec::new(),
            token_owner: std::collections::HashMap::new(),
            candidate_name: Vec::new(),
            expiration_date: Vec::new(),
            events: Vec::new(),
        };
        proof {
            assert(owners_view(r.token_owner@) =~= Map::empty());
            assert(events_view(r.events@) =~= Seq::empty());
            assert(r@ =~~= spec_new(issuer@, certificate_authority@));
        }
        r
    }

    /// Mints the token `id`, binding it to `token_owner`, on behalf of
    /// `caller`. Only the issuer may mint; the issuer's mint overwrites the
    /// contract-wide metadata first (also when the mint then fails) and then
    /// registers the ownership, refusing a live id (`TokenExists`) before a
    /// null owner (`NotAllowed`). A successful mint appends one issuance
    /// notification; a failed one appends none.
    pub fn mint(
        &mut self,
        caller: AccountId,
        id: TokenId,
        token_uri: Vec<u8>,
        token_owner: AccountId,
        expiration_date: Vec<u8>,
        candidate_name: Vec<u8>,
    ) -> (result: Result<(), Error>)
        ensures
            final(self)@ == spec_mint(
                old(self)@,
                caller@,
                id,
                token_uri@,
                token_owner@,
                expiration_date@,
                candidate_name@,
            ).0,
            result == spec_mint(
                old(self)@,
                caller@,
                id,
                token_uri@,
                token_owner@,
                expiration_date@,
                candidate_name@,
            ).1,
            final(self)@.issuer == old(self)@.issuer,
            final(self)@.certificate_authority == old(self)@.certificate_authority,
            old(self)@.wf() ==> final(self)@.wf(),
    {
        proof {
            if old(self)@.wf() {
                lemma_mint_preserves_wf(
                    old(self)@,
                    caller@,
                    id,
                    token_uri@,
                    token_owner@,
                    expiration_date@,
                    candidate_name@,
                );
            }
        }
        if !caller.same_as(&self.issuer) {
            return Err(Error::OnlyAdminCanIssue);
        }
        self.token_uri = token_uri;
        self.expiration_date = expiration_date;
        self.candidate_name = candidate_name;
        match self.add_token_to(&token_owner, id) {
            Err(e) => Err(e),
            Ok(()) => {
                let note = Issue { to: Some(token_owner), id: id };
                proof {
                    lemma_events_view_push(self.events@, note);
                }
                self.events.push(note);
                proof {
                    assert(self@ =~~= spec_mint(
                        old(self)@,
                        caller@,
                        id,
                        self.token_uri@,
                        token_owner@,
                        self.expiration_date@,
                        self.candidate_name@,
                    ).0);
                }
                Ok(())
            },
        }
    }

    /// Reports the owner of the live token `id`, or absence. Readable by
    /// anyone; never fails.
    pub fn owner_of(&self, id: TokenId) -> (result: Option<AccountId>)
        ensures
            owner_opt_view(result) == spec_owner_of(self@, id),
    {
        match self.token_owner.get(&id) {
            Some(a) => Some(*a),
            None => None,
        }
    }

    /// Burns the token `id` on behalf of `caller`: an absent id is refused
    /// with `TokenNotFound`, a caller other than the recorded owner with
    /// `NotOwner`, and otherwise the ownership record is removed. No
    /// notification is emitted.
    pub fn burn(&mut self, caller: AccountId, id: TokenId) -> (result: Result<(), Error>)
        ensures
            final(self)@ == spec_burn(old(self)@, caller@, id).0,
            result == spec_burn(old(self)@, caller@, id).1,
            final(self)@.issuer == old(self)@.issuer,
            final(self)@.certificate_authority == old(self)@.certificate_authority,
            old(self)@.wf() ==> final(self)@.wf(),
    {
        proof {
            if old(self)@.wf() {
                lemma_burn_preserves_wf(old(self)@, caller@, id);
            }
        }
        let owner: AccountId = match self.token_owner.get(&id) {
            Some(a) => *a,
            None => {
                return Err(Error::TokenNotFound);
            },
        };
        if !owner.same_as(&caller) {
            return Err(Error::NotOwner);
        }
        self.token_owner.remove(&id);
        proof {
            lemma_owners_view_remove(old(self).token_owner@, id);
            assert(self@ =~~= spec_burn(old(self)@, caller@, id).0);
        }
        Ok(())
    }

    /// Registers `id -> to` in the owner map: refuses a live id, then a null
    /// owner, and otherwise inserts the ownership record.
    fn add_token_to(&mut self, to: &AccountId, id: TokenId) -> (result: Result<(), Error>)
        ensures
            final(self)@ == spec_register(old(self)@, to@, id).0,
            result == spec_register(old(self)@, to@, id).1,
    {
        if self.token_owner.contains_key(&id) {
            return Err(Error::TokenExists);
        }
        if to.is_null() {
            return Err(Error::NotAllowed);
        }
        self.token_owner.insert(id, *to);
        proof {
            lemma_owners_view_insert(old(self).token_owner@, id, *to);
            assert(self@ =~~= spec_register(old(self)@, to@, id).0);
        }
        Ok(())
    }

    /// The identity permitted to mint.
    pub fn issuer(&self) -> (r: AccountId)
        ensures
            r@ == self@.issuer,
    {
        self.issuer
    }

    /// The certifying body's label.
    pub fn certificate_authority(&self) -> (r: &Vec<u8>)
        ensures
            r@ == self@.certificate_authority,
    {
        &self.certificate_authority
    }

    /// The document URI written by the most recent authorized mint.
    pub fn token_uri(&self) -> (r: &Vec<u8>)
        ensures
            r@ == self@.token_uri,
    {
        &self.token_uri
    }

    /// The expiration marker written by the most recent authorized mint.
    pub fn expiration_date(&self) -> (r: &Vec<u8>)
        ensures
            r@ == self@.expiration_date,
    {
        &self.expiration_date
    }

    /// The candidate name written by the most recent authorized mint.
    pub fn candidate_name(&self) -> (r: &Vec<u8>)
        ensures
            r@ == self@.candidate_name,
    {
        &self.candidate_name
    }

    /// The issuance notifications emitted so far, oldest first.
    pub fn events(&self) -> (r: &Vec<Issue>)
        ensures
            events_view(r@) == self@.events,
    {
        &self.events
    }
}

} // verus!
