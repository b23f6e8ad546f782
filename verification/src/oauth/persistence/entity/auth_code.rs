//! An authorization code as it is stored: under the guid `code:<signature>`,
//! with its session and expiration, and without its secret text.

use vstd::prelude::*;
use vstd::string::*;

use crate::guid::{guid_parse, Guid, GuidView};
use crate::oauth::code::{AuthorizationCode, AuthorizationCodeView};
use crate::oauth::session::{Session, SessionView};
use crate::text::{is_first_index, join2, lemma_first_index_unique};

verus! {

/// A stored authorization code.
#[derive(Debug)]
pub struct AuthorizationCodeEntity {
    id: Guid,
    rev: Option<String>,
    session: Session,
    expiration: i128,
}

/// The abstract value of an [`AuthorizationCodeEntity`].
pub struct AuthorizationCodeEntityView {
    pub id: GuidView,
    pub rev: Option<Seq<char>>,
    pub session: SessionView,
    pub expiration: i128,
}

impl View for AuthorizationCodeEntity {
    type V = AuthorizationCodeEntityView;

    closed spec fn view(&self) -> AuthorizationCodeEntityView {
        AuthorizationCodeEntityView {
            id: self.id@,
            rev: self.rev.deep_view(),
            session: self.session@,
            expiration: self.expiration,
        }
    }
}

/// The guid under which a code is stored: `code:<signature>` read as a
/// guid.
pub open spec fn code_guid(sig: Seq<char>) -> GuidView {
    guid_parse("code:"@ + sig)
}

/// The code that a stored form stands for: its session and expiration,
/// with an empty secret text.
pub open spec fn stored_code(e: AuthorizationCodeEntityView) -> AuthorizationCodeView {
    AuthorizationCodeView { code: Seq::empty(), session: e.session, expiration: e.expiration }
}

impl AuthorizationCodeEntity {
    /// The guid under which the code with the given signature is stored.
    pub fn build_guid(id: &str) -> (r: Guid)
        ensures
            r@ == code_guid(id@),
    {
        proof {
            reveal_strlit("code:");
        }
        let text = join2("code:", id);
        Guid::parse(text.as_str())
    }

    /// The stored form of a code with the given signature, session and
    /// expiration, not yet stored (without revision).
    pub fn new(sig: String, session: Session, expiration: i128) -> (r: AuthorizationCodeEntity)
        ensures
            r@.id == code_guid(sig@),
            r@.rev is None,
            r@.session == session@,
            r@.expiration == expiration,
    {
        let id = AuthorizationCodeEntity::build_guid(sig.as_str());
        AuthorizationCodeEntity { id, rev: None, session, expiration }
    }

    /// A stored code, as read back from the store.
    pub fn from_parts(id: Guid, rev: Option<String>, session: Session, expiration: i128) -> (r: AuthorizationCodeEntity)
        ensures
            r@ == (AuthorizationCodeEntityView { id: id@, rev: rev.deep_view(), session: session@, expiration }),
    {
        AuthorizationCodeEntity { id, rev, session, expiration }
    }

    /// When the stored code expires.
    pub fn expiration(&self) -> (r: i128)
        ensures
            r == self@.expiration,
    {
        self.expiration
    }

    /// The guid of the stored code.
    pub fn id(&self) -> (r: &Guid)
        ensures
            r@ == self@.id,
    {
        &self.id
    }

    /// The revision of the stored code.
    pub fn rev(&self) -> (r: Option<String>)
        ensures
            r.deep_view() == self@.rev,
    {
        match &self.rev {
            Some(v) => Some(v.clone()),
            None => None,
        }
    }

    /// The session that the code grants.
    pub fn session(&self) -> (r: &Session)
        ensures
            r@ == self@.session,
    {
        &self.session
    }

    /// The code read back: its session and expiration, with an empty
    /// secret text (only its signature is stored).
    pub fn to_empty_code(&self) -> (r: AuthorizationCode)
        ensures
            r@ == stored_code(self@),
    {
        AuthorizationCode::with_expiration(String::new(), self.session.clone(), self.expiration)
    }
}

/// The guid of a stored code is in the `code` partition and keeps the
/// code's signature whole, whatever it holds.
pub proof fn lemma_code_guid_keeps_signature(sig: Seq<char>)
    ensures
        code_guid(sig).partition == Some("code"@),
        code_guid(sig).id == sig,
{
    reveal_strlit("code:");
    reveal_strlit("code");
    let s = "code:"@ + sig;
    assert(s[4] == ':');
    assert forall|j: int| 0 <= j < 4 implies s[j] != ':' by {}
    assert(is_first_index(s, ':', 4));
    lemma_first_index_unique(s, ':', 4);
    assert(s.contains(':'));
    assert(s.subrange(0, 4) =~= "code"@);
    assert(s.subrange(5, s.len() as int) =~= sig);
}

/// A code stored under its signature and read back grants the same
/// session until the same time; only its secret text is not kept.
pub proof fn lemma_stored_code_reads_back(sig: Seq<char>, session: SessionView, expiration: i128)
    ensures
        stored_code(
            AuthorizationCodeEntityView { id: code_guid(sig), rev: None, session, expiration },
        ) == (AuthorizationCodeView { code: Seq::empty(), session, expiration }),
        code_guid(sig).id == sig,
{
    lemma_code_guid_keeps_signature(sig);
}

} // verus!
