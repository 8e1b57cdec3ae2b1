//! Qualified-name parsing: distinguishing explicit namespace prefixes from
//! inherited ones in a single flat name string.
//!
//! A name splits at the first `':'` only: everything before it is the
//! explicit prefix, everything after it is the local name, kept verbatim
//! even if it holds further separators.

use vstd::prelude::*;

verus! {

/// The name holds a separator somewhere.
pub open spec fn has_sep(s: Seq<char>) -> bool {
    exists|i: int| 0 <= i < s.len() && s[i] == ':'
}

/// Position `i` holds the first separator of the name.
pub open spec fn sep_at(s: Seq<char>, i: int) -> bool {
    &&& 0 <= i < s.len()
    &&& s[i] == ':'
    &&& forall|j: int| 0 <= j < i ==> s[j] != ':'
}

/// The position of the first separator; meaningful only when `has_sep`
/// holds.
pub open spec fn sep_index(s: Seq<char>) -> int {
    choose|i: int| sep_at(s, i)
}

/// The explicit prefix of a name: what stands before the first separator,
/// or nothing when the name is unqualified.
pub open spec fn qname_prefix(s: Seq<char>) -> Option<Seq<char>> {
    if has_sep(s) {
        Some(s.subrange(0, sep_index(s)))
    } else {
        None
    }
}

/// The local part of a name: what stands after the first separator, or the
/// whole name when it is unqualified.
pub open spec fn qname_local(s: Seq<char>) -> Seq<char> {
    if has_sep(s) {
        s.subrange(sep_index(s) + 1, s.len() as int)
    } else {
        s
    }
}

/// At most one position holds the first separator.
pub proof fn lemma_sep_at_unique(s: Seq<char>, i: int, j: int)
    requires
        sep_at(s, i),
        sep_at(s, j),
    ensures
        i == j,
{
    if i < j {
        assert(s[i] != ':');
    }
    if j < i {
        assert(s[j] != ':');
    }
}

/// A name known to have its first separator at `i` splits there.
pub proof fn lemma_split_at_first_sep(s: Seq<char>, i: int)
    requires
        sep_at(s, i),
    ensures
        qname_prefix(s) == Some(s.subrange(0, i)),
        qname_local(s) == s.subrange(i + 1, s.len() as int),
{
    assert(has_sep(s));
    assert(sep_at(s, sep_index(s)));
    lemma_sep_at_unique(s, i, sep_index(s));
}

/// A name without any separator is unqualified.
pub proof fn lemma_no_sep(s: Seq<char>)
    requires
        forall|j: int| 0 <= j < s.len() ==> s[j] != ':',
    ensures
        qname_prefix(s) is None,
        qname_local(s) == s,
{
}

/// The parsed form of a possibly qualified name.
pub enum QName {
    Unqualified { local: String },
    Qualified { prefix: String, local: String },
}

impl QName {
    /// The prefix this parse found, if any.
    pub open spec fn prefix_model(self) -> Option<Seq<char>> {
        match self {
            QName::Qualified { prefix, local: _ } => Some(prefix@),
            QName::Unqualified { local: _ } => None,
        }
    }

    /// The local name this parse found.
    pub open spec fn local_model(self) -> Seq<char> {
        match self {
            QName::Qualified { prefix: _, local } => local@,
            QName::Unqualified { local } => local@,
        }
    }
}

/// The position of the first separator in `name`, if it has one.
pub fn find_separator(name: &str) -> (r: Option<usize>)
    ensures
        match r {
            Some(i) => sep_at(name@, i as int),
            None => !has_sep(name@),
        },
{
    let n = name.unicode_len();
    let mut i: usize = 0;
    while i < n
        invariant
            i <= n,
            n == name@.len(),
            forall|j: int| 0 <= j < i ==> name@[j] != ':',
        decreases n - i,
    {
        if name.get_char(i) == ':' {
            return Some(i);
        }
        i = i + 1;
    }
    None
}

/// Parses a possibly qualified name, splitting at the first separator only.
pub fn parse_qname(name: &str) -> (q: QName)
    ensures
        q.prefix_model() == qname_prefix(name@),
        q.local_model() == qname_local(name@),
{
    let n = name.unicode_len();
    match find_separator(name) {
        Some(i) => {
            let prefix = name.substring_char(0, i);
            let local = name.substring_char(i + 1, n);
            proof {
                lemma_split_at_first_sep(name@, i as int);
            }
            QName::Qualified { prefix: prefix.to_owned(), local: local.to_owned() }
        },
        None => {
            proof {
                lemma_no_sep(name@);
            }
            QName::Unqualified { local: name.to_owned() }
        },
    }
}

} // verus!
