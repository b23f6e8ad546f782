//! Character-level helpers on strings, with their specifications.

use vstd::prelude::*;
use vstd::string::*;

verus! {

/// `k` is the position of the first occurrence of `c` in `s`.
pub open spec fn is_first_index(s: Seq<char>, c: char, k: int) -> bool {
    &&& 0 <= k < s.len()
    &&& s[k] == c
    &&& forall|j: int| 0 <= j < k ==> s[j] != c
}

/// `k` is the position of the last occurrence of `c` in `s`.
pub open spec fn is_last_index(s: Seq<char>, c: char, k: int) -> bool {
    &&& 0 <= k < s.len()
    &&& s[k] == c
    &&& forall|j: int| k < j < s.len() ==> s[j] != c
}

/// The position of the first occurrence of `c` in `s` (meaningful when `s` holds `c`).
pub open spec fn first_index(s: Seq<char>, c: char) -> int {
    choose|k: int| is_first_index(s, c, k)
}

/// The position of the last occurrence of `c` in `s` (meaningful when `s` holds `c`).
pub open spec fn last_index(s: Seq<char>, c: char) -> int {
    choose|k: int| is_last_index(s, c, k)
}

/// The first occurrence of a character is unique.
pub proof fn lemma_first_index_unique(s: Seq<char>, c: char, k: int)
    requires
        is_first_index(s, c, k),
    ensures
        first_index(s, c) == k,
{
    let f = first_index(s, c);
    assert(is_first_index(s, c, f));
    if f < k {
        assert(s[f] != c);
    } else if k < f {
        assert(s[k] != c);
    }
}

/// The last occurrence of a character is unique.
pub proof fn lemma_last_index_unique(s: Seq<char>, c: char, k: int)
    requires
        is_last_index(s, c, k),
    ensures
        last_index(s, c) == k,
{
    let f = last_index(s, c);
    assert(is_last_index(s, c, f));
    if f < k {
        assert(s[k] != c);
    } else if k < f {
        assert(s[f] != c);
    }
}

/// A sequence that holds `c` has a first occurrence of it.
pub proof fn lemma_first_index_exists(s: Seq<char>, c: char)
    requires
        s.contains(c),
    ensures
        is_first_index(s, c, first_index(s, c)),
    decreases s.len(),
{
    if s[0] == c {
        assert(is_first_index(s, c, 0));
    } else {
        let t = s.drop_first();
        let i = choose|i: int| 0 <= i < s.len() && s[i] == c;
        assert(t[i - 1] == c);
        lemma_first_index_exists(t, c);
        let k = first_index(t, c);
        assert forall|j: int| 0 <= j < k + 1 implies s[j] != c by {
            if j > 0 {
                assert(s[j] == t[j - 1]);
            }
        }
        assert(is_first_index(s, c, k + 1));
    }
}

/// Finds the first occurrence of `c` in `s`.
pub fn find_char(s: &str, c: char) -> (r: Option<usize>)
    ensures
        match r {
            Some(k) => is_first_index(s@, c, k as int),
            None => !s@.contains(c),
        },
{
    let n = s.unicode_len();
    let mut i: usize = 0;
    while i < n
        invariant
            n == s@.len(),
            i <= n,
            forall|j: int| 0 <= j < i ==> s@[j] != c,
        decreases n - i,
    {
        if s.get_char(i) == c {
            return Some(i);
        }
        i = i + 1;
    }
    None
}

/// Finds the last occurrence of `c` in `s`.
pub fn rfind_char(s: &str, c: char) -> (r: Option<usize>)
    ensures
        match r {
            Some(k) => is_last_index(s@, c, k as int),
            None => !s@.contains(c),
        },
{
    let n = s.unicode_len();
    let mut i: usize = n;
    while i > 0
        invariant
            n == s@.len(),
            i <= n,
            forall|j: int| i <= j < n ==> s@[j] != c,
        decreases i,
    {
        if s.get_char(i - 1) == c {
            return Some(i - 1);
        }
        i = i - 1;
    }
    None
}

/// Copies the characters `from..to` of `s` into a new string.
pub fn substring(s: &str, from: usize, to: usize) -> (r: String)
    requires
        from <= to <= s@.len(),
    ensures
        r@ == s@.subrange(from as int, to as int),
{
    String::from_str(s.substring_char(from, to))
}

/// Concatenates two strings.
pub fn join2(a: &str, b: &str) -> (r: String)
    ensures
        r@ == a@ + b@,
{
    String::from_str(a).concat(b)
}

/// Concatenates three strings.
pub fn join3(a: &str, b: &str, c: &str) -> (r: String)
    ensures
        r@ == a@ + b@ + c@,
{
    String::from_str(a).concat(b).concat(c)
}

/// Whether `s` begins with `prefix`.
pub fn starts_with(s: &str, prefix: &str) -> (r: bool)
    ensures
        r == (prefix@.len() <= s@.len() && s@.subrange(0, prefix@.len() as int) == prefix@),
{
    let n = s.unicode_len();
    let m = prefix.unicode_len();
    if m > n {
        return false;
    }
    let mut i: usize = 0;
    while i < m
        invariant
            n == s@.len(),
            m == prefix@.len(),
            m <= n,
            i <= m,
            forall|j: int| 0 <= j < i ==> s@[j] == prefix@[j],
        decreases m - i,
    {
        if s.get_char(i) != prefix.get_char(i) {
            assert(s@.subrange(0, m as int)[i as int] != prefix@[i as int]);
            return false;
        }
        i = i + 1;
    }
    assert(s@.subrange(0, m as int) =~= prefix@);
    true
}

/// Whether `s` ends with the character `c`.
pub fn ends_with_char(s: &str, c: char) -> (r: bool)
    ensures
        r == (s@.len() > 0 && s@.last() == c),
{
    let n = s.unicode_len();
    if n == 0 {
        false
    } else {
        s.get_char(n - 1) == c
    }
}

/// Whether two strings hold the same characters.
pub fn str_eq(a: &str, b: &str) -> (r: bool)
    ensures
        r == (a@ == b@),
{
    let n = a.unicode_len();
    let m = b.unicode_len();
    if n != m {
        return false;
    }
    let mut i: usize = 0;
    while i < n
        invariant
            n == a@.len(),
            m == b@.len(),
            n == m,
            i <= n,
            forall|j: int| 0 <= j < i ==> a@[j] == b@[j],
        decreases n - i,
    {
        if a.get_char(i) != b.get_char(i) {
            return false;
        }
        i = i + 1;
    }
    assert(a@ =~= b@);
    true
}


/// The pieces of `s` between occurrences of `c`, like `str::split`.
pub open spec fn split_on(s: Seq<char>, c: char) -> Seq<Seq<char>>
    decreases s.len(),
{
    if s.contains(c) {
        let k = first_index(s, c);
        proof {
            lemma_first_index_exists(s, c);
        }
        seq![s.subrange(0, k)] + split_on(s.subrange(k + 1, s.len() as int), c)
    } else {
        seq![s]
    }
}

/// The pieces of `ws` with `sep` between each two, like `[String]::join`.
pub open spec fn join_with(ws: Seq<Seq<char>>, sep: Seq<char>) -> Seq<char>
    decreases ws.len(),
{
    if ws.len() == 0 {
        Seq::empty()
    } else if ws.len() == 1 {
        ws[0]
    } else {
        ws[0] + sep + join_with(ws.drop_first(), sep)
    }
}

/// `ws` without repetitions: each word at its first occurrence.
pub open spec fn dedup(ws: Seq<Seq<char>>) -> Seq<Seq<char>>
    decreases ws.len(),
{
    if ws.len() == 0 {
        ws
    } else {
        let d = dedup(ws.drop_last());
        if d.contains(ws.last()) {
            d
        } else {
            d.push(ws.last())
        }
    }
}

/// Splitting `s` where it holds `c`, when the part of `s` from `start` holds
/// no `c` before `i` and a `c` at `i`.
pub proof fn lemma_split_step(s: Seq<char>, c: char, start: int, i: int)
    requires
        0 <= start <= i < s.len(),
        s[i] == c,
        forall|j: int| start <= j < i ==> s[j] != c,
    ensures
        split_on(s.subrange(start, s.len() as int), c) == seq![s.subrange(start, i)] + split_on(
            s.subrange(i + 1, s.len() as int),
            c,
        ),
{
    let t = s.subrange(start, s.len() as int);
    let k = i - start;
    assert(t[k] == c);
    assert forall|j: int| 0 <= j < k implies t[j] != c by {
        assert(t[j] == s[start + j]);
    }
    assert(is_first_index(t, c, k));
    lemma_first_index_unique(t, c, k);
    assert(t.contains(c));
    assert(t.subrange(0, k) =~= s.subrange(start, i));
    assert(t.subrange(k + 1, t.len() as int) =~= s.subrange(i + 1, s.len() as int));
}

/// No piece of a split holds the character it was split at.
pub proof fn lemma_split_pieces_lack_separator(s: Seq<char>, c: char)
    ensures
        forall|i: int| 0 <= i < split_on(s, c).len() ==> !(#[trigger] split_on(s, c)[i]).contains(c),
    decreases s.len(),
{
    if s.contains(c) {
        lemma_first_index_exists(s, c);
        let k = first_index(s, c);
        let rest = s.subrange(k + 1, s.len() as int);
        lemma_split_pieces_lack_separator(rest, c);
        let head = s.subrange(0, k);
        assert(!head.contains(c)) by {
            if head.contains(c) {
                let j = choose|j: int| 0 <= j < head.len() && head[j] == c;
                assert(s[j] == c);
            }
        }
        let pieces = split_on(s, c);
        assert(pieces == seq![head] + split_on(rest, c));
        assert forall|i: int| 0 <= i < pieces.len() implies !(#[trigger] pieces[i]).contains(c) by {
            if i > 0 {
                assert(pieces[i] == split_on(rest, c)[i - 1]);
            }
        }
    }
}

/// Splits `s` at every occurrence of `c`.
pub fn split_char(s: &str, c: char) -> (r: Vec<String>)
    ensures
        r.deep_view() == split_on(s@, c),
{
    let n = s.unicode_len();
    let mut words: Vec<String> = Vec::new();
    let mut start: usize = 0;
    let mut i: usize = 0;
    assert(s@.subrange(0, n as int) =~= s@);
    while i < n
        invariant
            n == s@.len(),
            start <= i <= n,
            forall|j: int| start <= j < i ==> s@[j] != c,
            words.deep_view() + split_on(s@.subrange(start as int, n as int), c) == split_on(s@, c),
        decreases n - i,
    {
        if s.get_char(i) == c {
            proof {
                lemma_split_step(s@, c, start as int, i as int);
            }
            let w = substring(s, start, i);
            let ghost before = words.deep_view();
            words.push(w);
            assert(words.deep_view() =~= before.push(w@));
            assert(words.deep_view() + split_on(s@.subrange(i + 1, n as int), c) =~= before + (
            seq![s@.subrange(start as int, i as int)] + split_on(s@.subrange(i + 1, n as int), c)));
            start = i + 1;
        }
        i = i + 1;
    }
    let last = substring(s, start, n);
    let ghost before = words.deep_view();
    assert(!s@.subrange(start as int, n as int).contains(c)) by {
        if s@.subrange(start as int, n as int).contains(c) {
            let j = choose|j: int| 0 <= j < n - start && s@.subrange(start as int, n as int)[j] == c;
            assert(s@[start + j] == c);
        }
    }
    words.push(last);
    assert(words.deep_view() =~= before + seq![last@]);
    words
}

/// Joining one more word at the end.
pub proof fn lemma_join_push(ws: Seq<Seq<char>>, sep: Seq<char>, w: Seq<char>)
    requires
        ws.len() > 0,
    ensures
        join_with(ws.push(w), sep) == join_with(ws, sep) + sep + w,
    decreases ws.len(),
{
    let v = ws.push(w);
    assert(v.len() >= 2);
    assert(v[0] == ws[0]);
    assert(join_with(v, sep) == v[0] + sep + join_with(v.drop_first(), sep));
    if ws.len() == 1 {
        assert(v.drop_first() =~= seq![w]);
        assert(join_with(seq![w], sep) == w);
        assert(join_with(ws, sep) == ws[0]);
    } else {
        lemma_join_push(ws.drop_first(), sep, w);
        assert(v.drop_first() =~= ws.drop_first().push(w));
        let j = join_with(ws.drop_first(), sep);
        assert(join_with(ws, sep) == ws[0] + sep + j);
        assert(ws[0] + sep + (j + sep + w) =~= ws[0] + sep + j + sep + w);
    }
}

/// Joins the strings with `sep` between each two.
pub fn join_strings(ws: &Vec<String>, sep: &str) -> (r: String)
    ensures
        r@ == join_with(ws.deep_view(), sep@),
{
    let n = ws.len();
    if n == 0 {
        return String::new();
    }
    let mut r = ws[0].clone();
    let mut i: usize = 1;
    assert(ws.deep_view().take(1) =~= seq![ws[0]@]);
    while i < n
        invariant
            n == ws.len(),
            1 <= i <= n,
            r@ == join_with(ws.deep_view().take(i as int), sep@),
        decreases n - i,
    {
        proof {
            lemma_join_push(ws.deep_view().take(i as int), sep@, ws[i as int]@);
            assert(ws.deep_view().take(i as int).push(ws[i as int]@) =~= ws.deep_view().take(
                i + 1,
            ));
        }
        r = r.concat(sep).concat(ws[i].as_str());
        i = i + 1;
    }
    assert(ws.deep_view().take(n as int) =~= ws.deep_view());
    r
}

/// Splitting a join gives the words back when none holds the separator.
pub proof fn lemma_split_join(ws: Seq<Seq<char>>, c: char)
    requires
        ws.len() > 0,
        forall|i: int| 0 <= i < ws.len() ==> !(#[trigger] ws[i]).contains(c),
    ensures
        split_on(join_with(ws, seq![c]), c) == ws,
    decreases ws.len(),
{
    if ws.len() == 1 {
        assert(!ws[0].contains(c));
        assert(seq![ws[0]] =~= ws);
    } else {
        let rest = ws.drop_first();
        assert forall|i: int| 0 <= i < rest.len() implies !(#[trigger] rest[i]).contains(c) by {
            assert(rest[i] == ws[i + 1]);
        }
        lemma_split_join(rest, c);
        let s = join_with(ws, seq![c]);
        let w0 = ws[0];
        let k = w0.len() as int;
        assert(s == w0 + seq![c] + join_with(rest, seq![c]));
        assert(s[k] == c);
        assert forall|j: int| 0 <= j < k implies s[j] != c by {
            assert(s[j] == w0[j]);
            assert(!w0.contains(c));
        }
        lemma_split_step(s, c, 0, k);
        assert(s.subrange(0, s.len() as int) =~= s);
        assert(s.subrange(0, k) =~= w0);
        assert(s.subrange(k + 1, s.len() as int) =~= join_with(rest, seq![c]));
        assert(seq![w0] + rest =~= ws);
    }
}

/// A word is in the deduplicated sequence exactly when it is in the sequence it came from.
pub proof fn lemma_dedup_contains(ws: Seq<Seq<char>>, w: Seq<char>)
    ensures
        dedup(ws).contains(w) == ws.contains(w),
    decreases ws.len(),
{
    if ws.len() > 0 {
        let d = dedup(ws.drop_last());
        lemma_dedup_contains(ws.drop_last(), w);
        lemma_dedup_contains(ws.drop_last(), ws.last());
        if ws.contains(w) {
            let i = choose|i: int| 0 <= i < ws.len() && ws[i] == w;
            if i < ws.len() - 1 {
                assert(ws.drop_last()[i] == w);
            }
        }
        if ws.drop_last().contains(w) {
            let i = choose|i: int| 0 <= i < ws.len() - 1 && ws.drop_last()[i] == w;
            assert(ws[i] == w);
        }
        if !d.contains(ws.last()) {
            assert(d.push(ws.last()).contains(w) == (d.contains(w) || w == ws.last())) by {
                if d.push(ws.last()).contains(w) {
                    let i = choose|i: int| 0 <= i < d.len() + 1 && d.push(ws.last())[i] == w;
                    if i < d.len() {
                        assert(d[i] == w);
                    }
                }
                if d.contains(w) {
                    let i = choose|i: int| 0 <= i < d.len() && d[i] == w;
                    assert(d.push(ws.last())[i] == w);
                }
                assert(d.push(ws.last())[d.len() as int] == ws.last());
            }
        }
    }
}

/// The deduplicated sequence has no repetitions.
pub proof fn lemma_dedup_no_duplicates(ws: Seq<Seq<char>>)
    ensures
        dedup(ws).no_duplicates(),
    decreases ws.len(),
{
    if ws.len() > 0 {
        lemma_dedup_no_duplicates(ws.drop_last());
        let d = dedup(ws.drop_last());
        if !d.contains(ws.last()) {
            let e = d.push(ws.last());
            assert forall|i: int, j: int| 0 <= i < e.len() && 0 <= j < e.len() && i != j implies e[i]
                != e[j] by {
                if i < d.len() && j < d.len() {
                    assert(e[i] == d[i] && e[j] == d[j]);
                } else if i < d.len() {
                    assert(e[i] == d[i]);
                } else {
                    assert(e[j] == d[j]);
                }
            }
        }
    }
}

/// A sequence without repetitions is its own deduplication.
pub proof fn lemma_dedup_of_distinct(ws: Seq<Seq<char>>)
    requires
        ws.no_duplicates(),
    ensures
        dedup(ws) == ws,
    decreases ws.len(),
{
    if ws.len() > 0 {
        let t = ws.drop_last();
        assert(t.no_duplicates());
        lemma_dedup_of_distinct(t);
        if t.contains(ws.last()) {
            let i = choose|i: int| 0 <= i < t.len() && t[i] == ws.last();
            assert(ws[i] == ws[ws.len() - 1]);
        }
        assert(t.push(ws.last()) =~= ws);
    }
}

/// Removes repeated strings, keeping each at its first occurrence.
pub fn dedup_strings(ws: Vec<String>) -> (r: Vec<String>)
    ensures
        r.deep_view() == dedup(ws.deep_view()),
{
    let n = ws.len();
    let mut r: Vec<String> = Vec::new();
    let mut i: usize = 0;
    assert(ws.deep_view().take(0) =~= Seq::<Seq<char>>::empty());
    while i < n
        invariant
            n == ws.len(),
            i <= n,
            r.deep_view() == dedup(ws.deep_view().take(i as int)),
        decreases n - i,
    {
        let w = &ws[i];
        let present = contains_string(&r, w.as_str());
        assert(ws.deep_view().take(i + 1).drop_last() =~= ws.deep_view().take(i as int));
        assert(ws.deep_view().take(i + 1).last() == w@);
        if !present {
            let ghost before = r.deep_view();
            r.push(w.clone());
            assert(r.deep_view() =~= before.push(w@));
        }
        i = i + 1;
    }
    assert(ws.deep_view().take(n as int) =~= ws.deep_view());
    r
}

/// Whether `ws` holds the string `w`.
pub fn contains_string(ws: &Vec<String>, w: &str) -> (r: bool)
    ensures
        r == ws.deep_view().contains(w@),
{
    let n = ws.len();
    let mut i: usize = 0;
    while i < n
        invariant
            n == ws.len(),
            i <= n,
            forall|j: int| 0 <= j < i ==> ws.deep_view()[j] != w@,
        decreases n - i,
    {
        if str_eq(ws[i].as_str(), w) {
            assert(ws.deep_view()[i as int] == w@);
            return true;
        }
        i = i + 1;
    }
    false
}


/// The decimal digit character of `d < 10`.
pub open spec fn digit_char(d: nat) -> char {
    if d == 0 {
        '0'
    } else if d == 1 {
        '1'
    } else if d == 2 {
        '2'
    } else if d == 3 {
        '3'
    } else if d == 4 {
        '4'
    } else if d == 5 {
        '5'
    } else if d == 6 {
        '6'
    } else if d == 7 {
        '7'
    } else if d == 8 {
        '8'
    } else {
        '9'
    }
}

/// Whether `c` is an ASCII decimal digit.
pub open spec fn is_digit(c: char) -> bool {
    '0' <= c <= '9'
}

/// The value of an ASCII decimal digit.
pub open spec fn digit_value(c: char) -> nat {
    (c as int - '0' as int) as nat
}

/// The decimal form of `n`, without leading zeros.
pub open spec fn decimal(n: nat) -> Seq<char>
    decreases n,
{
    if n < 10 {
        seq![digit_char(n)]
    } else {
        decimal(n / 10).push(digit_char(n % 10))
    }
}

/// The number that a sequence of decimal digits stands for.
pub open spec fn digits_value(s: Seq<char>) -> nat
    decreases s.len(),
{
    if s.len() == 0 {
        0
    } else {
        digits_value(s.drop_last()) * 10 + digit_value(s.last())
    }
}

/// Every character of `s` is a decimal digit.
pub open spec fn all_digits(s: Seq<char>) -> bool {
    forall|i: int| 0 <= i < s.len() ==> is_digit(#[trigger] s[i])
}

/// The `usize` that `s` stands for, as `str::parse::<usize>` reads it: an
/// optional `+`, then at least one decimal digit, and a value that fits.
pub open spec fn usize_text(s: Seq<char>) -> Option<usize> {
    let d = usize_digits(s);
    if d.len() > 0 && all_digits(d) && digits_value(d) <= usize::MAX {
        Some(digits_value(d) as usize)
    } else {
        None
    }
}

/// The one-character text of a decimal digit.
fn digit_str(d: usize) -> (r: &'static str)
    requires
        d < 10,
    ensures
        r@ == seq![digit_char(d as nat)],
{
    proof {
        reveal_strlit("0");
        reveal_strlit("1");
        reveal_strlit("2");
        reveal_strlit("3");
        reveal_strlit("4");
        reveal_strlit("5");
        reveal_strlit("6");
        reveal_strlit("7");
        reveal_strlit("8");
        reveal_strlit("9");
    }
    if d == 0 {
        "0"
    } else if d == 1 {
        "1"
    } else if d == 2 {
        "2"
    } else if d == 3 {
        "3"
    } else if d == 4 {
        "4"
    } else if d == 5 {
        "5"
    } else if d == 6 {
        "6"
    } else if d == 7 {
        "7"
    } else if d == 8 {
        "8"
    } else {
        "9"
    }
}

/// Writes `n` in decimal.
pub fn usize_to_decimal(n: usize) -> (r: String)
    ensures
        r@ == decimal(n as nat),
    decreases n,
{
    if n < 10 {
        String::from_str(digit_str(n))
    } else {
        let head = usize_to_decimal(n / 10);
        head.concat(digit_str(n % 10))
    }
}

/// A digit character is a digit, of its value.
pub proof fn lemma_digit_char(d: nat)
    requires
        d < 10,
    ensures
        is_digit(digit_char(d)),
        digit_value(digit_char(d)) == d,
{
}

/// The decimal form of `n` is made of digits and stands for `n`.
pub proof fn lemma_decimal_value(n: nat)
    ensures
        decimal(n).len() > 0,
        all_digits(decimal(n)),
        digits_value(decimal(n)) == n,
    decreases n,
{
    if n < 10 {
        lemma_digit_char(n);
        assert(seq![digit_char(n)].drop_last() =~= Seq::<char>::empty());
        assert(digits_value(Seq::<char>::empty()) == 0);
        assert(digits_value(seq![digit_char(n)]) == digit_value(digit_char(n)));
    } else {
        lemma_decimal_value(n / 10);
        lemma_digit_char(n % 10);
        let s = decimal(n / 10).push(digit_char(n % 10));
        assert(s.drop_last() =~= decimal(n / 10));
        assert(s.last() == digit_char(n % 10));
        assert(decimal(n) == s);
        assert((n / 10) * 10 + n % 10 == n);
        assert(digits_value(s) == digits_value(decimal(n / 10)) * 10 + digit_value(s.last()));
        assert forall|i: int| 0 <= i < s.len() implies is_digit(#[trigger] s[i]) by {
            if i < s.len() - 1 {
                assert(s[i] == decimal(n / 10)[i]);
            }
        }
    }
}

/// A number written in decimal reads back as itself.
pub proof fn lemma_usize_text_of_decimal(n: usize)
    ensures
        usize_text(decimal(n as nat)) == Some(n),
{
    lemma_decimal_value(n as nat);
    let s = decimal(n as nat);
    assert(is_digit(s[0]));
}

/// A longer digit sequence stands for at least as much as its prefixes.
pub proof fn lemma_digits_value_prefix(s: Seq<char>, i: int)
    requires
        0 <= i <= s.len(),
        all_digits(s),
    ensures
        digits_value(s.take(i)) <= digits_value(s),
    decreases s.len() - i,
{
    if i < s.len() {
        lemma_digits_value_prefix(s, i + 1);
        assert(s.take(i + 1).drop_last() =~= s.take(i));
    } else {
        assert(s.take(i) =~= s);
    }
}

/// One more digit read.
proof fn lemma_digits_step(d: Seq<char>, k: int)
    requires
        0 <= k < d.len(),
        all_digits(d.take(k)),
        is_digit(d[k]),
    ensures
        all_digits(d.take(k + 1)),
        digits_value(d.take(k + 1)) == digits_value(d.take(k)) * 10 + digit_value(d[k]),
{
    assert(d.take(k + 1).drop_last() =~= d.take(k));
    assert(d.take(k + 1).last() == d[k]);
    assert forall|j: int| 0 <= j < k + 1 implies is_digit(#[trigger] d.take(k + 1)[j]) by {
        if j < k {
            assert(d.take(k + 1)[j] == d.take(k)[j]);
        }
    }
}

/// The text that `str::parse::<usize>` reads digits from.
pub open spec fn usize_digits(s: Seq<char>) -> Seq<char> {
    if s.len() > 1 && s[0] == '+' {
        s.drop_first()
    } else {
        s
    }
}

/// Reads a `usize` as `str::parse::<usize>` does.
pub fn parse_usize(s: &str) -> (r: Option<usize>)
    ensures
        r == usize_text(s@),
{
    let n = s.unicode_len();
    let start: usize = if n > 1 && s.get_char(0) == '+' {
        1
    } else {
        0
    };
    let ghost d = usize_digits(s@);
    assert(d =~= s@.subrange(start as int, n as int));
    assert(usize_text(s@) == (if d.len() > 0 && all_digits(d) && digits_value(d) <= usize::MAX {
        Some(digits_value(d) as usize)
    } else {
        None
    }));
    if start == n {
        return None;
    }
    let mut value: usize = 0;
    let mut i: usize = start;
    assert(d.take(0) =~= Seq::<char>::empty());
    while i < n
        invariant
            n == s@.len(),
            start <= i <= n,
            d == usize_digits(s@),
            d.len() == n - start,
            forall|j: int| 0 <= j < d.len() ==> d[j] == s@[start + j],
            all_digits(d.take(i - start)),
            value == digits_value(d.take(i - start)),
        decreases n - i,
    {
        let c = s.get_char(i);
        let ghost k = i - start;
        assert(d[k] == c);
        if !('0' <= c && c <= '9') {
            assert(!all_digits(d));
            return None;
        }
        let v = (c as u32 - '0' as u32) as usize;
        proof {
            lemma_digits_step(d, k);
        }
        if value > (usize::MAX - v) / 10 {
            proof {
                assert(value * 10 + v > usize::MAX) by (nonlinear_arith)
                    requires
                        value > (usize::MAX - v) / 10,
                        v <= 9,
                ;
                if all_digits(d) {
                    lemma_digits_value_prefix(d, k + 1);
                }
            }
            return None;
        }
        assert(value * 10 + v <= usize::MAX) by (nonlinear_arith)
            requires
                value <= (usize::MAX - v) / 10,
                v <= 9,
        ;
        value = value * 10 + v;
        i = i + 1;
    }
    assert(d.take(n - start) =~= d);
    Some(value)
}

/// Whether `needle` occurs in `s` at position `i`.
pub open spec fn occurs_at(s: Seq<char>, needle: Seq<char>, i: int) -> bool {
    0 <= i && i + needle.len() <= s.len() && s.subrange(i, i + needle.len()) == needle
}

/// Whether `needle` occurs somewhere in `s`, like `str::contains`.
pub open spec fn has_infix(s: Seq<char>, needle: Seq<char>) -> bool {
    exists|i: int| #[trigger] occurs_at(s, needle, i)
}

/// Whether `needle` occurs in `s` at position `i`.
fn matches_at(s: &str, needle: &str, i: usize) -> (r: bool)
    requires
        i + needle@.len() <= s@.len(),
    ensures
        r == occurs_at(s@, needle@, i as int),
{
    let n = s.unicode_len();
    let m = needle.unicode_len();
    let mut k: usize = 0;
    while k < m
        invariant
            n == s@.len(),
            m == needle@.len(),
            i + m <= s@.len(),
            k <= m,
            forall|j: int| 0 <= j < k ==> s@[i + j] == needle@[j],
        decreases m - k,
    {
        if s.get_char(i + k) != needle.get_char(k) {
            assert(s@.subrange(i as int, i + m)[k as int] != needle@[k as int]);
            return false;
        }
        k = k + 1;
    }
    assert(s@.subrange(i as int, i + m) =~= needle@);
    true
}

/// Whether `needle` occurs somewhere in `s`.
pub fn contains_text(s: &str, needle: &str) -> (r: bool)
    ensures
        r == has_infix(s@, needle@),
{
    let n = s.unicode_len();
    let m = needle.unicode_len();
    if m > n {
        assert forall|i: int| !occurs_at(s@, needle@, i) by {}
        return false;
    }
    if m == 0 {
        assert(s@.subrange(0, 0) =~= needle@);
        assert(occurs_at(s@, needle@, 0));
        return true;
    }
    let mut i: usize = 0;
    while i <= n - m
        invariant
            n == s@.len(),
            m == needle@.len(),
            1 <= m <= n,
            i <= n - m + 1,
            forall|j: int| 0 <= j < i ==> !occurs_at(s@, needle@, j),
        decreases n - m + 1 - i,
    {
        if matches_at(s, needle, i) {
            return true;
        }
        i = i + 1;
    }
    assert forall|j: int| !occurs_at(s@, needle@, j) by {
        if 0 <= j < i {
        } else {
        }
    }
    false
}

} // verus!
