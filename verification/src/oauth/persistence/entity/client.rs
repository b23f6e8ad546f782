//! A client as it is stored: under the guid `client:<id>`, with its scopes
//! and redirect URIs.

use vstd::prelude::*;
use vstd::string::*;

use crate::guid::{guid_parse, Guid, GuidView};
use crate::links::{parse_url, url_parse};
use crate::oauth::client::{Client, ClientView};
use crate::oauth::scope::Scope;
use crate::text::{is_first_index, join2, lemma_first_index_unique};

verus! {

/// A stored client. Only public clients are read back: the secret is not
/// stored.
#[derive(Debug)]
pub struct ClientEntity {
    id: Guid,
    rev: Option<String>,
    allowed_scopes: Scope,
    allowed_redirect_uris: Vec<String>,
}

/// The abstract value of a [`ClientEntity`].
pub struct ClientEntityView {
    pub id: GuidView,
    pub rev: Option<Seq<char>>,
    pub allowed_scopes: Seq<Seq<char>>,
    pub allowed_redirect_uris: Seq<Seq<char>>,
}

impl View for ClientEntity {
    type V = ClientEntityView;

    closed spec fn view(&self) -> ClientEntityView {
        ClientEntityView {
            id: self.id@,
            rev: self.rev.deep_view(),
            allowed_scopes: self.allowed_scopes@,
            allowed_redirect_uris: self.allowed_redirect_uris.deep_view(),
        }
    }
}

/// The guid under which a client is stored: `client:<id>` read as a guid.
pub open spec fn client_guid(client_id: Seq<char>) -> GuidView {
    guid_parse("client:"@ + client_id)
}

/// The stored form of a client: under `client:<id>`, not yet stored,
/// with its scopes and redirect URIs (the secret is not stored).
pub open spec fn client_entity_of(c: ClientView) -> ClientEntityView {
    ClientEntityView {
        id: client_guid(c.client_id),
        rev: None,
        allowed_scopes: c.allowed_scopes,
        allowed_redirect_uris: c.allowed_redirect_uris,
    }
}

/// The public client that a stored form stands for: the id of its guid,
/// its scopes, and its redirect URIs as parsed.
pub open spec fn stored_client(e: ClientEntityView) -> ClientView {
    ClientView {
        client_id: e.id.id,
        client_secret: None,
        allowed_scopes: e.allowed_scopes,
        allowed_redirect_uris: parsed_urls(e.allowed_redirect_uris),
    }
}

/// Whether every text of `uris` parses as a URL.
pub open spec fn all_urls(uris: Seq<Seq<char>>) -> bool {
    forall|i: int| 0 <= i < uris.len() ==> url_parse(#[trigger] uris[i]) is Ok
}

/// The serializations of the parsed URLs, in order.
pub open spec fn parsed_urls(uris: Seq<Seq<char>>) -> Seq<Seq<char>> {
    uris.map_values(|u: Seq<char>| url_parse(u)->Ok_0)
}

/// Parses each redirect URI; the first parse error, if any.
fn parse_all(uris: &Vec<String>) -> (r: Result<Vec<String>, String>)
    ensures
        match r {
            Ok(v) => all_urls(uris.deep_view()) && v.deep_view() == parsed_urls(uris.deep_view()),
            Err(m) => !all_urls(uris.deep_view()),
        },
{
    let mut out: Vec<String> = Vec::new();
    let mut i: usize = 0;
    while i < uris.len()
        invariant
            i <= uris.len(),
            forall|j: int| 0 <= j < i ==> url_parse(#[trigger] uris.deep_view()[j]) is Ok,
            out.deep_view() == parsed_urls(uris.deep_view().take(i as int)),
        decreases uris.len() - i,
    {
        match parse_url(uris[i].as_str()) {
            Ok(u) => {
                let ghost before = out.deep_view();
                out.push(u);
                assert(out.deep_view() =~= before.push(u@));
                assert(parsed_urls(uris.deep_view().take(i + 1)) =~= parsed_urls(
                    uris.deep_view().take(i as int),
                ).push(url_parse(uris.deep_view()[i as int])->Ok_0));
            },
            Err(m) => {
                assert(url_parse(uris.deep_view()[i as int]) is Err);
                return Err(m);
            },
        }
        i = i + 1;
    }
    assert(uris.deep_view().take(uris.len() as int) =~= uris.deep_view());
    Ok(out)
}

/// A copy of a list of texts.
fn copy_texts(v: &Vec<String>) -> (r: Vec<String>)
    ensures
        r.deep_view() == v.deep_view(),
{
    let mut out: Vec<String> = Vec::new();
    let mut i: usize = 0;
    while i < v.len()
        invariant
            i <= v.len(),
            out.deep_view() == v.deep_view().take(i as int),
        decreases v.len() - i,
    {
        let ghost before = out.deep_view();
        let t = v[i].clone();
        out.push(t);
        assert(out.deep_view() =~= before.push(v[i as int]@));
        assert(v.deep_view().take(i + 1) =~= v.deep_view().take(i as int).push(v.deep_view()[i as int]));
        i = i + 1;
    }
    assert(v.deep_view().take(v.len() as int) =~= v.deep_view());
    out
}

impl ClientEntity {
    /// The guid under which the client with the given id is stored.
    pub fn build_guid(client_id: &String) -> (r: Guid)
        ensures
            r@ == client_guid(client_id@),
    {
        proof {
            reveal_strlit("client:");
        }
        let text = join2("client:", client_id.as_str());
        Guid::parse(text.as_str())
    }

    /// A stored client, as read back from the store.
    pub fn from_parts(id: Guid, rev: Option<String>, allowed_scopes: Scope, allowed_redirect_uris: Vec<String>) -> (r: ClientEntity)
        ensures
            r@ == (ClientEntityView {
                id: id@,
                rev: rev.deep_view(),
                allowed_scopes: allowed_scopes@,
                allowed_redirect_uris: allowed_redirect_uris.deep_view(),
            }),
    {
        ClientEntity { id, rev, allowed_scopes, allowed_redirect_uris }
    }

    /// The guid the client is stored under.
    pub fn id(&self) -> (r: &Guid)
        ensures
            r@ == self@.id,
    {
        &self.id
    }

    /// The revision of the stored client, once stored.
    pub fn rev(&self) -> (r: Option<String>)
        ensures
            r.deep_view() == self@.rev,
    {
        match &self.rev {
            Some(v) => Some(v.clone()),
            None => None,
        }
    }

    /// The scopes the client is allowed.
    pub fn allowed_scopes(&self) -> (r: &Scope)
        ensures
            r@ == self@.allowed_scopes,
    {
        &self.allowed_scopes
    }

    /// The client's redirect URIs, as stored.
    pub fn allowed_redirect_uris(&self) -> (r: &Vec<String>)
        ensures
            r.deep_view() == self@.allowed_redirect_uris,
    {
        &self.allowed_redirect_uris
    }

    /// The stored form of a client, not yet stored (without revision).
    pub fn from_client(client: &Client) -> (r: ClientEntity)
        ensures
            r@ == client_entity_of(client@),
    {
        ClientEntity {
            id: ClientEntity::build_guid(client.client_id()),
            rev: None,
            allowed_scopes: client.allowed_scopes().clone(),
            allowed_redirect_uris: copy_texts(client.allowed_redirect_uris()),
        }
    }

    /// The public client that the stored form stands for: the id of its
    /// guid, its scopes, and its redirect URIs parsed, which all must be
    /// URLs.
    pub fn into_client(self) -> (r: Client)
        requires
            all_urls(self@.allowed_redirect_uris),
        ensures
            r@ == stored_client(self@),
    {
        match self.to_client() {
            Some(c) => c,
            None => Client::public(String::new(), Scope::empty(), Vec::new()),
        }
    }

    /// The public client that the stored form stands for, or `None` when
    /// one of its redirect URIs is no URL.
    pub fn to_client(self) -> (r: Option<Client>)
        ensures
            all_urls(self@.allowed_redirect_uris) <==> r is Some,
            r matches Some(c) ==> c@ == stored_client(self@),
    {
        match parse_all(&self.allowed_redirect_uris) {
            Ok(uris) => Some(Client::public(String::from_str(self.id.id()), self.allowed_scopes, uris)),
            Err(_) => None,
        }
    }
}

impl From<Client> for ClientEntity {
    fn from(client: Client) -> (r: ClientEntity)
        ensures
            r@ == client_entity_of(client@),
    {
        ClientEntity::from_client(&client)
    }
}

impl vstd::std_specs::convert::FromSpecImpl<Client> for ClientEntity {
    open spec fn obeys_from_spec() -> bool {
        false
    }

    open spec fn from_spec(v: Client) -> ClientEntity {
        arbitrary()
    }
}

/// The guid of a stored client is in the `client` partition and keeps the
/// client's id whole, whatever it holds.
pub proof fn lemma_client_guid_keeps_id(client_id: Seq<char>)
    ensures
        client_guid(client_id).partition == Some("client"@),
        client_guid(client_id).id == client_id,
{
    reveal_strlit("client:");
    reveal_strlit("client");
    let s = "client:"@ + client_id;
    assert(s[6] == ':');
    assert forall|j: int| 0 <= j < 6 implies s[j] != ':' by {}
    assert(is_first_index(s, ':', 6));
    lemma_first_index_unique(s, ':', 6);
    assert(s.contains(':'));
    assert(s.subrange(0, 6) =~= "client"@);
    assert(s.subrange(7, s.len() as int) =~= client_id);
}

/// A client stored and read back is the same client, made public (its
/// secret is not stored), with its redirect URIs as the URL parser writes
/// them.
pub proof fn lemma_stored_client_reads_back(c: ClientView)
    ensures
        stored_client(client_entity_of(c)) == (ClientView {
            client_id: c.client_id,
            client_secret: None,
            allowed_scopes: c.allowed_scopes,
            allowed_redirect_uris: parsed_urls(c.allowed_redirect_uris),
        }),
{
    lemma_client_guid_keeps_id(c.client_id);
}

} // verus!
