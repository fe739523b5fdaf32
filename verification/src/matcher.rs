//! The launcher's text matcher.
//!
//! A query matches a text when the text, reduced to the characters that occur
//! in the query, holds the query as a contiguous run. The reduction keeps the
//! order and the multiplicity of the characters that stay. No case folding
//! takes place.

use vstd::prelude::*;
use crate::text::{contains_substring, find_substring, occurs_at, to_chars};

verus! {

/// The predicate "occurs in `query`".
pub open spec fn in_query(query: Seq<char>) -> spec_fn(char) -> bool {
    |c: char| query.contains(c)
}

/// `haystack` reduced to the characters that occur in `query`.
pub open spec fn retain_chars(haystack: Seq<char>, query: Seq<char>) -> Seq<char> {
    haystack.filter(in_query(query))
}

/// Whether `query` matches `haystack`.
pub open spec fn fuzzy_match_spec(haystack: Seq<char>, query: Seq<char>) -> bool {
    contains_substring(retain_chars(haystack, query), query)
}

/// Whether `c` is an element of `v`.
fn contains_char(v: &Vec<char>, c: char) -> (r: bool)
    ensures
        r == v@.contains(c),
{
    let mut i: usize = 0;
    while i < v.len()
        invariant
            i <= v.len(),
            forall|k: int| 0 <= k < i ==> v@[k] != c,
        decreases v.len() - i,
    {
        if v[i] == c {
            return true;
        }
        i += 1;
    }
    false
}

/// Reduces `haystack` to the characters of `query`.
fn retain(haystack: &Vec<char>, query: &Vec<char>) -> (out: Vec<char>)
    ensures
        out@ == retain_chars(haystack@, query@),
{
    let mut out: Vec<char> = Vec::new();
    let mut i: usize = 0;
    while i < haystack.len()
        invariant
            i <= haystack.len(),
            out@ == retain_chars(haystack@.take(i as int), query@),
        decreases haystack.len() - i,
    {
        let c = haystack[i];
        proof {
            haystack@.take(i as int).lemma_filter_push(c, in_query(query@));
            assert(haystack@.take(i as int).push(c) =~= haystack@.take(i as int + 1));
        }
        if contains_char(query, c) {
            out.push(c);
        }
        i += 1;
    }
    assert(haystack@.take(haystack.len() as int) =~= haystack@);
    out
}

/// Whether `query` matches `haystack`. An empty query matches every text.
pub fn is_match(haystack: &str, query: &str) -> (r: bool)
    ensures
        r == fuzzy_match_spec(haystack@, query@),
        query@.len() == 0 ==> r,
{
    let h = to_chars(haystack);
    let q = to_chars(query);
    let reduced = retain(&h, &q);
    proof {
        if query@.len() == 0 {
            assert(query@ =~= Seq::<char>::empty());
            lemma_empty_query_matches(haystack@);
        }
    }
    find_substring(&reduced, &q)
}

/// The empty query matches every text, the empty text included.
pub proof fn lemma_empty_query_matches(haystack: Seq<char>)
    ensures
        fuzzy_match_spec(haystack, Seq::<char>::empty()),
{
    let reduced = retain_chars(haystack, Seq::<char>::empty());
    assert(reduced.subrange(0, 0) =~= Seq::<char>::empty());
    assert(occurs_at(reduced, Seq::<char>::empty(), 0));
}

/// A query that matches consists of characters of the text alone, each
/// compared as it stands: a query with a character that the text lacks, be it
/// the other case of one that the text has, does not match.
pub proof fn lemma_match_needs_every_char(haystack: Seq<char>, query: Seq<char>, c: char)
    requires
        query.contains(c),
        !haystack.contains(c),
    ensures
        !fuzzy_match_spec(haystack, query),
{
    let reduced = retain_chars(haystack, query);
    if contains_substring(reduced, query) {
        haystack.lemma_filter_contains_rev(in_query(query), c);
    }
}

/// A text that holds the query as a contiguous run is matched by it.
pub proof fn lemma_substring_matches(haystack: Seq<char>, query: Seq<char>)
    requires
        contains_substring(haystack, query),
    ensures
        fuzzy_match_spec(haystack, query),
{
    let i = choose|i: int| occurs_at(haystack, query, i);
    let n = query.len() as int;
    let p = in_query(query);
    let a = haystack.subrange(0, i);
    let b = haystack.subrange(i, i + n);
    let c = haystack.subrange(i + n, haystack.len() as int);
    assert(haystack =~= (a + b) + c);
    lemma_filter_all(query, p);
    let fa = a.filter(p);
    let reduced = retain_chars(haystack, query);
    assert(reduced.subrange(fa.len() as int, fa.len() + n) =~= query);
    assert(occurs_at(reduced, query, fa.len() as int));
}

/// Filtering keeps a sequence as it is when every element passes.
proof fn lemma_filter_all(s: Seq<char>, p: spec_fn(char) -> bool)
    requires
        forall|i: int| 0 <= i < s.len() ==> p(#[trigger] s[i]),
    ensures
        s.filter(p) == s,
    decreases s.len(),
{
    reveal(Seq::filter);
    if s.len() > 0 {
        lemma_filter_all(s.drop_last(), p);
    }
}

/// One record of piped-in input: what a row made from it is titled and
/// described.
pub struct PipeData {
    pub title: Option<String>,
    pub description: Option<String>,
}

/// Values that a query can be matched against.
pub trait SherlockSearch {
    /// The text that a query is matched against, where the value has one.
    spec fn search_text(&self) -> Option<Seq<char>>;

    /// Whether `substring` matches this value's text. A value without text
    /// is matched by nothing.
    fn fuzzy_match(&self, substring: &str) -> (r: bool)
        ensures
            r == match self.search_text() {
                Some(t) => fuzzy_match_spec(t, substring@),
                None => false,
            },
    ;
}

impl SherlockSearch for String {
    open spec fn search_text(&self) -> Option<Seq<char>> {
        Some(self@)
    }

    fn fuzzy_match(&self, substring: &str) -> (r: bool) {
        is_match(self.as_str(), substring)
    }
}

impl SherlockSearch for PipeData {
    /// The title where there is one, the description otherwise.
    open spec fn search_text(&self) -> Option<Seq<char>> {
        match self.title {
            Some(t) => Some(t@),
            None => match self.description {
                Some(d) => Some(d@),
                None => None,
            },
        }
    }

    fn fuzzy_match(&self, substring: &str) -> (r: bool) {
        let search_in = match &self.title {
            Some(_) => &self.title,
            None => &self.description,
        };
        match search_in {
            Some(text) => is_match(text.as_str(), substring),
            None => false,
        }
    }
}

} // verus!
