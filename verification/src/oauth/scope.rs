//! OAuth scopes: sets of space-separated words.

use vstd::prelude::*;
use vstd::string::*;

use crate::oauth::error::{Error, ErrorKind};
use crate::text::{contains_string, dedup, dedup_strings, join_strings, join_with,
    lemma_dedup_contains, lemma_dedup_no_duplicates, lemma_dedup_of_distinct, lemma_split_join,
    split_char, split_on};

verus! {

/// A scope: a set of words. The words are kept without repetition, in the
/// order in which they were first given.
#[derive(Debug)]
pub struct Scope(Vec<String>);

impl View for Scope {
    type V = Seq<Seq<char>>;

    closed spec fn view(&self) -> Seq<Seq<char>> {
        self.0.deep_view()
    }
}

/// The words that a scope text stands for: the pieces between spaces,
/// without repetition.
pub open spec fn scope_words(s: Seq<char>) -> Seq<Seq<char>> {
    dedup(split_on(s, ' '))
}

/// The words of `b` that are also in `a`, in the order of `b`.
pub open spec fn scope_intersection(a: Seq<Seq<char>>, b: Seq<Seq<char>>) -> Seq<Seq<char>> {
    b.filter(|w: Seq<char>| a.contains(w))
}

/// Every word of `b` is in `a`.
pub open spec fn scope_covers(a: Seq<Seq<char>>, b: Seq<Seq<char>>) -> bool {
    forall|w: Seq<char>| b.contains(w) ==> a.contains(w)
}

impl Scope {
    #[verifier::type_invariant]
    closed spec fn distinct(self) -> bool {
        self.0.deep_view().no_duplicates()
    }

    /// The scope without words.
    pub fn empty() -> (r: Scope)
        ensures
            r@ == Seq::<Seq<char>>::empty(),
    {
        let r = Scope(Vec::new());
        assert(r@ =~= Seq::<Seq<char>>::empty());
        r
    }

    /// The scope of the given words, each kept once at its first occurrence.
    pub fn from_words(words: Vec<String>) -> (r: Scope)
        ensures
            r@ == dedup(words.deep_view()),
    {
        let ghost given = words.deep_view();
        let d = dedup_strings(words);
        proof {
            lemma_dedup_no_duplicates(given);
        }
        Scope(d)
    }

    /// The scope of the given words, each kept once at its first occurrence.
    pub fn from_strs(words: Vec<&str>) -> (r: Scope)
        ensures
            r@ == dedup(words@.map_values(|w: &str| w@)),
    {
        let mut owned: Vec<String> = Vec::new();
        let n = words.len();
        let mut i: usize = 0;
        while i < n
            invariant
                n == words.len(),
                i <= n,
                owned.deep_view() =~= words@.take(i as int).map_values(|w: &str| w@),
            decreases n - i,
        {
            let ghost before = owned.deep_view();
            owned.push(String::from_str(words[i]));
            assert(words@.take(i + 1) =~= words@.take(i as int).push(words@[i as int]));
            assert(owned.deep_view() =~= before.push(words@[i as int]@));
            i = i + 1;
        }
        assert(words@.take(n as int) =~= words@);
        Scope::from_words(owned)
    }

    /// Reads a scope from its text form: the words between single spaces.
    pub fn parse(s: &str) -> (r: Scope)
        ensures
            r@ == scope_words(s@),
    {
        Scope::from_words(split_char(s, ' '))
    }

    /// Whether the scope holds the word `w`.
    pub fn contains(&self, w: &str) -> (r: bool)
        ensures
            r == self@.contains(w@),
    {
        contains_string(&self.0, w)
    }

    /// The text form: the words separated by single spaces.
    pub fn to_string(&self) -> (r: String)
        ensures
            r@ == join_with(self@, " "@),
    {
        join_strings(&self.0, " ")
    }

    /// Whether this scope holds every word of `other`.
    pub fn is_superset(&self, other: &Scope) -> (r: bool)
        ensures
            r == scope_covers(self@, other@),
    {
        let n = other.0.len();
        let mut i: usize = 0;
        while i < n
            invariant
                n == other@.len(),
                i <= n,
                forall|j: int| 0 <= j < i ==> self@.contains(#[trigger] other@[j]),
            decreases n - i,
        {
            if !self.contains(other.0[i].as_str()) {
                assert(other@.contains(other@[i as int]));
                return false;
            }
            i = i + 1;
        }
        assert forall|w: Seq<char>| other@.contains(w) implies self@.contains(w) by {
            let j = choose|j: int| 0 <= j < other@.len() && other@[j] == w;
            assert(self@.contains(other@[j]));
        }
        true
    }

    /// The words that both scopes hold, or an `InvalidScope` error when they
    /// have none in common.
    pub fn matches(&self, other: &Scope) -> (r: Result<Scope, Error>)
        ensures
            match r {
                Ok(s) => s@ == scope_intersection(self@, other@) && s@.len() > 0,
                Err(e) => scope_intersection(self@, other@).len() == 0 && e@.kind
                    == ErrorKind::InvalidScope && e@.description == "invalid scopes"@,
            },
    {
        proof {
            use_type_invariant(other);
        }
        let ghost pred = |w: Seq<char>| self@.contains(w);
        let n = other.0.len();
        let mut common: Vec<String> = Vec::new();
        let mut i: usize = 0;
        assert(other@.take(0).filter(pred) =~= Seq::<Seq<char>>::empty()) by {
            reveal(Seq::filter);
        }
        while i < n
            invariant
                n == other@.len(),
                i <= n,
                pred == (|w: Seq<char>| self@.contains(w)),
                common.deep_view() == other@.take(i as int).filter(pred),
            decreases n - i,
        {
            let w = &other.0[i];
            let keep = self.contains(w.as_str());
            proof {
                reveal(Seq::filter);
                assert(other@.take(i + 1).drop_last() =~= other@.take(i as int));
                assert(other@.take(i + 1).last() == w@);
            }
            if keep {
                let ghost before = common.deep_view();
                common.push(w.clone());
                assert(common.deep_view() =~= before.push(w@));
            }
            i = i + 1;
        }
        assert(other@.take(n as int) =~= other@);
        if common.len() == 0 {
            Err(Error::new(ErrorKind::InvalidScope, String::from_str("invalid scopes")))
        } else {
            proof {
                lemma_filter_distinct(other@, pred);
            }
            Ok(Scope(common))
        }
    }

    /// The words of the scope.
    pub fn words(&self) -> (r: Vec<String>)
        ensures
            r.deep_view() == self@,
    {
        let n = self.0.len();
        let mut r: Vec<String> = Vec::new();
        let mut i: usize = 0;
        while i < n
            invariant
                n == self@.len(),
                i <= n,
                r.deep_view() =~= self@.take(i as int),
            decreases n - i,
        {
            let ghost before = r.deep_view();
            r.push(self.0[i].clone());
            assert(r.deep_view() =~= before.push(self@[i as int]));
            assert(self@.take(i + 1) =~= self@.take(i as int).push(self@[i as int]));
            i = i + 1;
        }
        assert(self@.take(n as int) =~= self@);
        r
    }
}

/// Filtering a sequence without repetitions leaves none.
pub proof fn lemma_filter_distinct(s: Seq<Seq<char>>, pred: spec_fn(Seq<char>) -> bool)
    requires
        s.no_duplicates(),
    ensures
        s.filter(pred).no_duplicates(),
        forall|w: Seq<char>| s.filter(pred).contains(w) <==> (s.contains(w) && pred(w)),
    decreases s.len(),
{
    reveal(Seq::filter);
    if s.len() > 0 {
        let t = s.drop_last();
        assert(t.no_duplicates());
        lemma_filter_distinct(t, pred);
        let f = t.filter(pred);
        assert forall|w: Seq<char>| s.contains(w) <==> (t.contains(w) || w == s.last()) by {
            if s.contains(w) {
                let i = choose|i: int| 0 <= i < s.len() && s[i] == w;
                if i < s.len() - 1 {
                    assert(t[i] == w);
                }
            }
            if t.contains(w) {
                let i = choose|i: int| 0 <= i < t.len() && t[i] == w;
                assert(s[i] == w);
            }
        }
        if pred(s.last()) {
            let e = f.push(s.last());
            assert(!t.contains(s.last())) by {
                if t.contains(s.last()) {
                    let i = choose|i: int| 0 <= i < t.len() && t[i] == s.last();
                    assert(s[i] == s[s.len() - 1]);
                }
            }
            assert forall|w: Seq<char>| e.contains(w) <==> (f.contains(w) || w == s.last()) by {
                if e.contains(w) {
                    let i = choose|i: int| 0 <= i < e.len() && e[i] == w;
                    if i < f.len() {
                        assert(f[i] == w);
                    }
                }
                if f.contains(w) {
                    let i = choose|i: int| 0 <= i < f.len() && f[i] == w;
                    assert(e[i] == w);
                }
                assert(e[f.len() as int] == s.last());
            }
            assert forall|i: int, j: int| 0 <= i < e.len() && 0 <= j < e.len() && i != j implies e[i]
                != e[j] by {
                if i < f.len() && j < f.len() {
                    assert(e[i] == f[i] && e[j] == f[j]);
                } else if i < f.len() {
                    assert(e[i] == f[i]);
                    assert(f.contains(f[i]));
                } else {
                    assert(e[j] == f[j]);
                    assert(f.contains(f[j]));
                }
            }
        }
    }
}

impl Clone for Scope {
    fn clone(&self) -> (r: Scope)
        ensures
            r@ == self@,
    {
        proof {
            use_type_invariant(self);
        }
        Scope(self.words())
    }
}

impl Default for Scope {
    fn default() -> (r: Scope)
        ensures
            r@ == Seq::<Seq<char>>::empty(),
    {
        Scope::empty()
    }
}

impl From<Vec<String>> for Scope {
    fn from(words: Vec<String>) -> (r: Scope)
        ensures
            r@ == dedup(words.deep_view()),
    {
        Scope::from_words(words)
    }
}

impl vstd::std_specs::convert::FromSpecImpl<Vec<String>> for Scope {
    open spec fn obeys_from_spec() -> bool {
        false
    }

    open spec fn from_spec(v: Vec<String>) -> Scope {
        arbitrary()
    }
}

impl<'a> From<Vec<&'a str>> for Scope {
    fn from(words: Vec<&'a str>) -> (r: Scope)
        ensures
            r@ == dedup(words@.map_values(|w: &str| w@)),
    {
        Scope::from_strs(words)
    }
}

impl<'a> vstd::std_specs::convert::FromSpecImpl<Vec<&'a str>> for Scope {
    open spec fn obeys_from_spec() -> bool {
        false
    }

    open spec fn from_spec(v: Vec<&'a str>) -> Scope {
        arbitrary()
    }
}

impl From<String> for Scope {
    fn from(s: String) -> (r: Scope)
        ensures
            r@ == scope_words(s@),
    {
        Scope::parse(s.as_str())
    }
}

impl vstd::std_specs::convert::FromSpecImpl<String> for Scope {
    open spec fn obeys_from_spec() -> bool {
        false
    }

    open spec fn from_spec(v: String) -> Scope {
        arbitrary()
    }
}

impl<'a> From<&'a str> for Scope {
    fn from(s: &'a str) -> (r: Scope)
        ensures
            r@ == scope_words(s@),
    {
        Scope::parse(s)
    }
}

impl<'a> vstd::std_specs::convert::FromSpecImpl<&'a str> for Scope {
    open spec fn obeys_from_spec() -> bool {
        false
    }

    open spec fn from_spec(v: &'a str) -> Scope {
        arbitrary()
    }
}

/// The words common to two scopes are in both; a word in both is among them.
pub proof fn lemma_intersection_is_common(a: Seq<Seq<char>>, b: Seq<Seq<char>>)
    requires
        b.no_duplicates(),
    ensures
        scope_covers(a, scope_intersection(a, b)),
        scope_covers(b, scope_intersection(a, b)),
        forall|w: Seq<char>| a.contains(w) && b.contains(w) ==> scope_intersection(a, b).contains(w),
        scope_intersection(a, b).no_duplicates(),
{
    lemma_filter_distinct(b, |w: Seq<char>| a.contains(w));
}

/// Finding the common words does not depend on which scope asks: both
/// orders give the same set of words.
pub proof fn lemma_intersection_symmetric(a: Seq<Seq<char>>, b: Seq<Seq<char>>, w: Seq<char>)
    requires
        a.no_duplicates(),
        b.no_duplicates(),
    ensures
        scope_intersection(a, b).contains(w) == scope_intersection(b, a).contains(w),
{
    lemma_filter_distinct(b, |x: Seq<char>| a.contains(x));
    lemma_filter_distinct(a, |x: Seq<char>| b.contains(x));
}

/// Every scope covers itself, and covering is transitive.
pub proof fn lemma_covers_preorder(a: Seq<Seq<char>>, b: Seq<Seq<char>>, c: Seq<Seq<char>>)
    ensures
        scope_covers(a, a),
        scope_covers(a, b) && scope_covers(b, c) ==> scope_covers(a, c),
{
}

/// A scope written as text and read back holds the same words in the same
/// order, when it has at least one word and no word holds a space.
pub proof fn lemma_scope_text_roundtrip(ws: Seq<Seq<char>>)
    requires
        ws.len() > 0,
        ws.no_duplicates(),
        forall|i: int| 0 <= i < ws.len() ==> !(#[trigger] ws[i]).contains(' '),
    ensures
        scope_words(join_with(ws, " "@)) == ws,
{
    reveal_strlit(" ");
    assert(" "@ =~= seq![' ']);
    lemma_split_join(ws, ' ');
    lemma_dedup_of_distinct(ws);
}

/// The words of a scope read from text are exactly the pieces between spaces.
pub proof fn lemma_scope_words_contains(s: Seq<char>, w: Seq<char>)
    ensures
        scope_words(s).contains(w) == split_on(s, ' ').contains(w),
        scope_words(s).no_duplicates(),
{
    lemma_dedup_contains(split_on(s, ' '), w);
    lemma_dedup_no_duplicates(split_on(s, ' '));
}

} // verus!
