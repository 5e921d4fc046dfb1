use vstd::prelude::*;
use vstd::string::*;
use crate::text::{lowercase, to_lowercase};

verus! {

/// What searching `text` for the regular expression `pattern` gives:
/// whether there is a match anywhere in the text, or `None` where the
/// pattern is refused as a regular expression.
pub uninterp spec fn regex_match(pattern: Seq<char>, text: Seq<char>) -> Option<bool>;

/// Compiles `pattern` with `regex::Regex::new` and searches `text` with
/// `Regex::is_match`. The contract only names the outcome: `None` stands
/// for a pattern that `Regex::new` refuses, `Some` holds what `is_match`
/// returned. Nothing is proved of either.
#[verifier::external_body]
fn match_pattern(pattern: &str, text: &str) -> (r: Option<bool>)
    ensures
        r == regex_match(pattern@, text@),
{
    match regex::Regex::new(pattern) {
        Ok(compiled) => Some(compiled.is_match(text)),
        Err(_) => None,
    }
}

/// A named regular expression of the masking configuration.
#[derive(Debug, Clone, PartialEq, Eq)]
pub struct MaskingRegex {
    pub name: Option<String>,
    pub regex: String,
}

/// Which columns are to be masked: those listed by name, letter case
/// aside, and those whose name one of the patterns matches.
#[derive(Debug, Clone, PartialEq, Eq)]
pub struct MaskingConfig {
    pub columns: Vec<String>,
    pub patterns: Vec<MaskingRegex>,
}

impl MaskingConfig {
    /// The names listed, in lower case.
    pub open spec fn listed_names(&self) -> Seq<Seq<char>> {
        Seq::new(self.columns@.len(), |i: int| lowercase(self.columns@[i]@))
    }

    /// Whether `column` is listed by name, letter case aside.
    pub open spec fn lists(&self, column: Seq<char>) -> bool {
        self.listed_names().contains(lowercase(column))
    }

    /// Whether every pattern is accepted as a regular expression.
    pub open spec fn patterns_compile(&self, column: Seq<char>) -> bool {
        forall|i: int|
            0 <= i < self.patterns@.len() ==> (#[trigger] regex_match(
                self.patterns@[i].regex@,
                column,
            )) is Some
    }

    /// Whether one of the patterns matches `column`.
    pub open spec fn pattern_hits(&self, column: Seq<char>) -> bool {
        exists|i: int|
            0 <= i < self.patterns@.len() && #[trigger] regex_match(
                self.patterns@[i].regex@,
                column,
            ) == Some(true)
    }

    /// Whether `column` is listed by name, letter case aside.
    pub fn is_listed(&self, column: &str) -> (b: bool)
        ensures
            b == self.lists(column@),
    {
        let wanted = to_lowercase(column);
        let n: usize = self.columns.len();
        let mut i: usize = 0;
        while i < n
            invariant
                i <= n,
                n == self.columns@.len(),
                wanted@ == lowercase(column@),
                forall|j: int| 0 <= j < i ==> self.listed_names()[j] != wanted@,
            decreases n - i,
        {
            let name = to_lowercase(self.columns[i].as_str());
            if name == wanted {
                assert(self.listed_names()[i as int] == wanted@);
                return true;
            }
            i += 1;
        }
        false
    }

    /// Index of the first pattern that is refused as a regular expression,
    /// if there is one.
    pub fn first_invalid_pattern(&self, column: &str) -> (r: Option<usize>)
        ensures
            r is None == self.patterns_compile(column@),
            r matches Some(i) ==> i < self.patterns@.len() && regex_match(
                self.patterns@[i as int].regex@,
                column@,
            ) is None,
    {
        let n: usize = self.patterns.len();
        let mut i: usize = 0;
        while i < n
            invariant
                i <= n,
                n == self.patterns@.len(),
                forall|j: int|
                    0 <= j < i ==> (#[trigger] regex_match(
                        self.patterns@[j].regex@,
                        column@,
                    )) is Some,
            decreases n - i,
        {
            if match_pattern(self.patterns[i].regex.as_str(), column).is_none() {
                return Some(i);
            }
            i += 1;
        }
        None
    }

    /// Whether `column` is to be masked: it is listed by name, letter case
    /// aside, or one of the patterns matches it. The patterns are looked
    /// at only for a column that is not listed, and then each of them has
    /// to be a regular expression.
    pub fn filter_column(&self, column: &str) -> (b: bool)
        requires
            self.lists(column@) || self.patterns_compile(column@),
        ensures
            b == (self.lists(column@) || self.pattern_hits(column@)),
    {
        if self.is_listed(column) {
            return true;
        }
        let n: usize = self.patterns.len();
        let mut i: usize = 0;
        while i < n
            invariant
                i <= n,
                n == self.patterns@.len(),
                self.patterns_compile(column@),
                forall|j: int|
                    0 <= j < i ==> (#[trigger] regex_match(
                        self.patterns@[j].regex@,
                        column@,
                    )) != Some(true),
            decreases n - i,
        {
            match match_pattern(self.patterns[i].regex.as_str(), column) {
                Some(true) => {
                    return true;
                },
                _ => {},
            }
            i += 1;
        }
        false
    }

    /// Whether `column` is to be masked, for any configuration: `None`
    /// where the column is not listed and one of the patterns is refused
    /// as a regular expression.
    pub fn try_filter_column(&self, column: &str) -> (r: Option<bool>)
        ensures
            r is Some == (self.lists(column@) || self.patterns_compile(column@)),
            r matches Some(b) ==> b == (self.lists(column@) || self.pattern_hits(column@)),
    {
        if self.is_listed(column) {
            return Some(true);
        }
        match self.first_invalid_pattern(column) {
            Some(_) => None,
            None => Some(self.filter_column(column)),
        }
    }
}

} // verus!
