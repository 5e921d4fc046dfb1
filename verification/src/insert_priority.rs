use vstd::prelude::*;
use vstd::string::*;
use crate::lex::{accept_keyword, after_word, sees_keyword};

verus! {

/// The priority modifier of an `INSERT` statement.
#[derive(Debug, Clone, Copy, PartialEq, Eq, Structural)]
pub enum InsertPriority {
    Low,
    Delayed,
    High,
}

/// The priority modifier of a statement.
pub type Priority = InsertPriority;

impl DeepView for InsertPriority {
    type V = InsertPriority;

    open spec fn deep_view(&self) -> InsertPriority {
        *self
    }
}

/// The keyword of a priority.
pub open spec fn render_priority(v: InsertPriority) -> Seq<char> {
    match v {
        InsertPriority::Low => "LOW_PRIORITY"@,
        InsertPriority::Delayed => "DELAYED"@,
        InsertPriority::High => "HIGH_PRIORITY"@,
    }
}

/// The priority that the word after the white space at `pos` names, and
/// the position after it; `None` where that word names none.
pub open spec fn spec_parse_priority(s: Seq<char>, pos: int) -> Option<(InsertPriority, int)> {
    if sees_keyword(s, pos, "LOW_PRIORITY"@) {
        Some((InsertPriority::Low, after_word(s, pos)))
    } else if sees_keyword(s, pos, "DELAYED"@) {
        Some((InsertPriority::Delayed, after_word(s, pos)))
    } else if sees_keyword(s, pos, "HIGH_PRIORITY"@) {
        Some((InsertPriority::High, after_word(s, pos)))
    } else {
        None
    }
}

/// The priority that the word after the white space at `pos` names, if it
/// names one.
pub fn parse_priority(s: &Vec<char>, pos: usize) -> (r: Option<(InsertPriority, usize)>)
    requires
        pos <= s@.len(),
    ensures
        match (r, spec_parse_priority(s@, pos as int)) {
            (Some((v, p)), Some((ev, ep))) => v == ev && p as int == ep && pos < p <= s@.len(),
            (None, None) => true,
            _ => false,
        },
{
    if let Some(p) = accept_keyword(s, pos, "LOW_PRIORITY") {
        Some((InsertPriority::Low, p))
    } else if let Some(p) = accept_keyword(s, pos, "DELAYED") {
        Some((InsertPriority::Delayed, p))
    } else if let Some(p) = accept_keyword(s, pos, "HIGH_PRIORITY") {
        Some((InsertPriority::High, p))
    } else {
        None
    }
}

impl InsertPriority {
    /// Appends the keyword of this priority.
    pub fn write(&self, out: &mut String)
        ensures
            final(out)@ == old(out)@ + render_priority(*self),
    {
        match self {
            InsertPriority::Low => out.append("LOW_PRIORITY"),
            InsertPriority::Delayed => out.append("DELAYED"),
            InsertPriority::High => out.append("HIGH_PRIORITY"),
        }
    }

    /// The keyword of this priority.
    pub fn to_string(&self) -> (r: String)
        ensures
            r@ == render_priority(*self),
    {
        let mut out = String::new();
        self.write(&mut out);
        assert(out@ =~= render_priority(*self));
        out
    }

    /// The keyword of this priority.
    pub fn as_sql(&self) -> (r: String)
        ensures
            r@ == render_priority(*self),
    {
        self.to_string()
    }
}

} // verus!
