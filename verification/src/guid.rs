//! Global identifiers of stored documents: an id, optionally prefixed by a
//! partition (`partition:id`).

use vstd::prelude::*;
use vstd::string::*;

use crate::text::{find_char, first_index, is_first_index, join3, lemma_first_index_exists,
    lemma_first_index_unique, substring};

verus! {

/// An identifier, optionally inside a partition.
#[derive(Debug)]
pub struct Guid {
    partition: Option<String>,
    id: String,
}

/// The abstract value of a [`Guid`].
pub struct GuidView {
    pub partition: Option<Seq<char>>,
    pub id: Seq<char>,
}

impl View for Guid {
    type V = GuidView;

    closed spec fn view(&self) -> GuidView {
        GuidView { partition: self.partition.deep_view(), id: self.id@ }
    }
}

/// The text form of a guid: `partition:id`, or just `id` without a partition.
pub open spec fn guid_text(g: GuidView) -> Seq<char> {
    match g.partition {
        Some(p) => p + seq![':'] + g.id,
        None => g.id,
    }
}

/// The guid that a text stands for: what precedes the first `:` is the
/// partition and the rest is the id; a text without `:` is a bare id.
pub open spec fn guid_parse(s: Seq<char>) -> GuidView {
    if s.contains(':') {
        let k = first_index(s, ':');
        GuidView { partition: Some(s.subrange(0, k)), id: s.subrange(k + 1, s.len() as int) }
    } else {
        GuidView { partition: None, id: s }
    }
}

/// A guid whose text form reads back as itself: its partition, or without
/// one its id, holds no `:`.
pub open spec fn guid_is_canonical(g: GuidView) -> bool {
    match g.partition {
        Some(p) => !p.contains(':'),
        None => !g.id.contains(':'),
    }
}

impl Guid {
    /// A guid without a partition.
    pub fn simple(id: &str) -> (r: Guid)
        ensures
            r@.partition == None::<Seq<char>>,
            r@.id == id@,
    {
        Guid { partition: None, id: String::from_str(id) }
    }

    /// A guid inside a partition.
    pub fn partitioned(partition: &str, id: &str) -> (r: Guid)
        ensures
            r@.partition == Some(partition@),
            r@.id == id@,
    {
        Guid { partition: Some(String::from_str(partition)), id: String::from_str(id) }
    }

    /// The partition, if any.
    pub fn partition(&self) -> (r: Option<String>)
        ensures
            r.deep_view() == self@.partition,
    {
        match &self.partition {
            Some(p) => Some(p.clone()),
            None => None,
        }
    }

    /// The id inside the partition.
    pub fn id(&self) -> (r: &str)
        ensures
            r@ == self@.id,
    {
        self.id.as_str()
    }

    /// The text form `partition:id`, or `id` without a partition.
    pub fn to_string(&self) -> (r: String)
        ensures
            r@ == guid_text(self@),
    {
        match &self.partition {
            Some(p) => {
                proof {
                    reveal_strlit(":");
                }
                join3(p.as_str(), ":", self.id.as_str())
            },
            None => self.id.clone(),
        }
    }

    /// Reads a guid from its text form, splitting at the first `:`.
    pub fn parse(s: &str) -> (r: Guid)
        ensures
            r@ == guid_parse(s@),
    {
        match find_char(s, ':') {
            Some(k) => {
                proof {
                    lemma_first_index_unique(s@, ':', k as int);
                }
                let n = s.unicode_len();
                let partition = substring(s, 0, k);
                let id = substring(s, k + 1, n);
                Guid { partition: Some(partition), id }
            },
            None => Guid { partition: None, id: String::from_str(s) },
        }
    }
}

impl Clone for Guid {
    fn clone(&self) -> (r: Guid)
        ensures
            r@ == self@,
    {
        let partition = match &self.partition {
            Some(p) => Some(p.clone()),
            None => None,
        };
        Guid { partition, id: self.id.clone() }
    }
}

impl From<&str> for Guid {
    fn from(s: &str) -> (r: Guid)
        ensures
            r@ == guid_parse(s@),
    {
        Guid::parse(s)
    }
}

impl vstd::std_specs::convert::FromSpecImpl<&str> for Guid {
    open spec fn obeys_from_spec() -> bool {
        false
    }

    open spec fn from_spec(v: &str) -> Guid {
        arbitrary()
    }
}

impl From<String> for Guid {
    fn from(s: String) -> (r: Guid)
        ensures
            r@ == guid_parse(s@),
    {
        Guid::parse(s.as_str())
    }
}

impl vstd::std_specs::convert::FromSpecImpl<String> for Guid {
    open spec fn obeys_from_spec() -> bool {
        false
    }

    open spec fn from_spec(v: String) -> Guid {
        arbitrary()
    }
}

/// Reading a text as a guid and writing the guid back gives the same text.
pub proof fn lemma_guid_text_of_parse(s: Seq<char>)
    ensures
        guid_text(guid_parse(s)) == s,
{
    if s.contains(':') {
        lemma_first_index_exists(s, ':');
        let k = first_index(s, ':');
        assert(s.subrange(0, k) + seq![':'] + s.subrange(k + 1, s.len() as int) =~= s);
    }
}

/// A canonical guid, written as text and read back, is the same guid.
pub proof fn lemma_guid_parse_of_text(g: GuidView)
    requires
        guid_is_canonical(g),
    ensures
        guid_parse(guid_text(g)) == g,
{
    match g.partition {
        Some(p) => {
            let s = p + seq![':'] + g.id;
            let k = p.len() as int;
            assert(s[k] == ':');
            assert forall|j: int| 0 <= j < k implies s[j] != ':' by {
                assert(s[j] == p[j]);
            }
            assert(is_first_index(s, ':', k));
            lemma_first_index_unique(s, ':', k);
            assert(s.subrange(0, k) =~= p);
            assert(s.subrange(k + 1, s.len() as int) =~= g.id);
        },
        None => {},
    }
}

/// Whether `c` is a character of a hyphenated lowercase UUID.
pub open spec fn is_uuid_char(c: char) -> bool {
    ('0' <= c <= '9') || ('a' <= c <= 'f') || c == '-'
}

/// Calls `uuid::Uuid::new_v4` and writes the id in its hyphenated form.
/// Claimed of every outcome: 36 characters, each a lowercase hex digit or
/// a hyphen; nothing is claimed of which id it is (it is random).
#[verifier::external_body]
pub(crate) fn random_uuid() -> (r: String)
    ensures
        r@.len() == 36,
        forall|i: int| 0 <= i < r@.len() ==> is_uuid_char(#[trigger] r@[i]),
{
    uuid::Uuid::new_v4().to_string()
}

} // verus!
