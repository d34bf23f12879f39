//! Table names that may be written into a statement as they are.

use crate::text::to_chars;
use vstd::prelude::*;

verus! {

/// Why a table name is refused.
#[derive(Debug, Clone, Copy, PartialEq, Eq, Structural)]
pub enum IdentifierError {
    /// The name has no characters.
    Empty,
    /// The name starts with a digit or holds a character that is neither an
    /// ASCII letter, a digit nor an underscore.
    Invalid,
}

impl IdentifierError {
    /// The text of the error.
    pub open spec fn text(self) -> Seq<char> {
        match self {
            IdentifierError::Empty => "table name is empty"@,
            IdentifierError::Invalid =>
                "table name must be alphanumeric or underscore and start with a letter or underscore"@,
        }
    }

    /// The text of the error.
    pub fn message(&self) -> (r: String)
        ensures
            r@ == self.text(),
    {
        match self {
            IdentifierError::Empty => "table name is empty".to_owned(),
            IdentifierError::Invalid =>
                "table name must be alphanumeric or underscore and start with a letter or underscore".to_owned(),
        }
    }
}

/// Whether a name may start with `c`: an underscore or an ASCII letter.
pub open spec fn ident_start(c: char) -> bool {
    c == '_' || ('a' <= c && c <= 'z') || ('A' <= c && c <= 'Z')
}

/// Whether a name may go on with `c`: an underscore, an ASCII letter or a
/// decimal digit.
pub open spec fn ident_continue(c: char) -> bool {
    ident_start(c) || ('0' <= c && c <= '9')
}

/// Whether `name` is a table name: not empty, started and continued as
/// names are.
pub open spec fn valid_table_name(name: Seq<char>) -> bool {
    &&& name.len() > 0
    &&& ident_start(name[0])
    &&& forall|i: int| 1 <= i < name.len() ==> ident_continue(#[trigger] name[i])
}

/// Whether a name may start with `value`.
pub fn is_ident_start(value: char) -> (r: bool)
    ensures
        r == ident_start(value),
{
    value == '_' || (value >= 'a' && value <= 'z') || (value >= 'A' && value <= 'Z')
}

/// Whether a name may go on with `value`.
pub fn is_ident_continue(value: char) -> (r: bool)
    ensures
        r == ident_continue(value),
{
    is_ident_start(value) || (value >= '0' && value <= '9')
}

/// Accepts a table name and refuses anything else, saying why.
pub fn validate_table_name(table_name: &str) -> (r: Result<(), IdentifierError>)
    ensures
        r is Ok <==> valid_table_name(table_name@),
        r == Err::<(), IdentifierError>(IdentifierError::Empty) <==> table_name@.len() == 0,
{
    let v = to_chars(table_name);
    if v.len() == 0 {
        return Err(IdentifierError::Empty);
    }
    if !is_ident_start(v[0]) {
        return Err(IdentifierError::Invalid);
    }
    let mut i: usize = 1;
    while i < v.len()
        invariant
            1 <= i <= v.len(),
            v@ == table_name@,
            forall|k: int| 1 <= k < i ==> ident_continue(#[trigger] v@[k]),
        decreases v.len() - i,
    {
        if !is_ident_continue(v[i]) {
            assert(!ident_continue(table_name@[i as int]));
            return Err(IdentifierError::Invalid);
        }
        i += 1;
    }
    Ok(())
}

} // verus!
