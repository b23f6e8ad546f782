//! Image names: a group and a name, written `group/name`.

use vstd::prelude::*;
use vstd::string::*;

use crate::pattern::{regex_compiles, regex_finds, Pattern};
use crate::text::{find_char, first_index, is_first_index, is_last_index, join3, last_index,
    lemma_first_index_unique, lemma_last_index_unique, rfind_char, substring};

verus! {

/// The regular expression that a valid group and a valid name match.
pub const NAME_PATTERN: &'static str = "[a-z0-9]+(?:[._-][a-z0-9]+)*";

/// Whether a group and a name are valid: the name pattern matches somewhere
/// in each (the match is not anchored).
pub open spec fn valid_name(group: Seq<char>, name: Seq<char>) -> bool {
    regex_compiles(NAME_PATTERN@) && regex_finds(NAME_PATTERN@, group) && regex_finds(
        NAME_PATTERN@,
        name,
    )
}

/// Whether a group and a name are valid image coordinates.
pub fn is_valid_name(group: &str, name: &str) -> (r: bool)
    ensures
        r == valid_name(group@, name@),
{
    match Pattern::new(NAME_PATTERN) {
        Ok(p) => p.is_match(group) && p.is_match(name),
        Err(_) => false,
    }
}

/// The coordinates of an image.
#[derive(Debug)]
pub struct Name {
    group: String,
    name: String,
}

/// The abstract value of a [`Name`].
pub struct NameView {
    pub group: Seq<char>,
    pub name: Seq<char>,
}

impl View for Name {
    type V = NameView;

    closed spec fn view(&self) -> NameView {
        NameView { group: self.group@, name: self.name@ }
    }
}

/// The text form `group/name`.
pub open spec fn name_text(n: NameView) -> Seq<char> {
    n.group + seq!['/'] + n.name
}

/// The name that a text stands for: the group is what precedes the first
/// `/`, the name what follows the last `/`; without `/` both are the text.
pub open spec fn name_parse(s: Seq<char>) -> NameView {
    if s.contains('/') {
        NameView {
            group: s.subrange(0, first_index(s, '/')),
            name: s.subrange(last_index(s, '/') + 1, s.len() as int),
        }
    } else {
        NameView { group: s, name: s }
    }
}

impl Name {
    /// The name with the given group and name.
    pub fn new(group: String, name: String) -> (r: Name)
        ensures
            r@.group == group@,
            r@.name == name@,
    {
        Name { group, name }
    }

    /// The group.
    pub fn group(&self) -> (r: &str)
        ensures
            r@ == self@.group,
    {
        self.group.as_str()
    }

    /// The name inside the group.
    pub fn name(&self) -> (r: &str)
        ensures
            r@ == self@.name,
    {
        self.name.as_str()
    }

    /// The text form `group/name`.
    pub fn to_string(&self) -> (r: String)
        ensures
            r@ == name_text(self@),
    {
        proof {
            reveal_strlit("/");
        }
        join3(self.group.as_str(), "/", self.name.as_str())
    }

    /// Reads a name from its text form.
    pub fn parse(s: &str) -> (r: Name)
        ensures
            r@ == name_parse(s@),
    {
        match find_char(s, '/') {
            Some(first) => {
                let last = match rfind_char(s, '/') {
                    Some(k) => k,
                    None => first,
                };
                proof {
                    lemma_first_index_unique(s@, '/', first as int);
                    lemma_last_index_unique(s@, '/', last as int);
                }
                let n = s.unicode_len();
                Name { group: substring(s, 0, first), name: substring(s, last + 1, n) }
            },
            None => Name { group: String::from_str(s), name: String::from_str(s) },
        }
    }
}

impl Clone for Name {
    fn clone(&self) -> (r: Name)
        ensures
            r@ == self@,
    {
        Name { group: self.group.clone(), name: self.name.clone() }
    }
}

/// A name whose group and name hold no `/`, written as text and read back,
/// is the same name.
pub proof fn lemma_name_parse_of_text(n: NameView)
    requires
        !n.group.contains('/'),
        !n.name.contains('/'),
    ensures
        name_parse(name_text(n)) == n,
{
    let s = name_text(n);
    let k = n.group.len() as int;
    assert(s[k] == '/');
    assert forall|j: int| 0 <= j < k implies s[j] != '/' by {
        assert(s[j] == n.group[j]);
    }
    assert forall|j: int| k < j < s.len() implies s[j] != '/' by {
        assert(s[j] == n.name[j - k - 1]);
    }
    assert(is_first_index(s, '/', k));
    assert(is_last_index(s, '/', k));
    lemma_first_index_unique(s, '/', k);
    lemma_last_index_unique(s, '/', k);
    assert(s.subrange(0, k) =~= n.group);
    assert(s.subrange(k + 1, s.len() as int) =~= n.name);
}

} // verus!
