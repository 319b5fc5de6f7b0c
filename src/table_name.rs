use vstd::prelude::*;

verus! {

/// A character that may appear in a table name: an ASCII letter or digit,
/// a hyphen or an underscore.
pub open spec fn is_table_name_char(c: char) -> bool {
    ('a' <= c && c <= 'z') || ('A' <= c && c <= 'Z') || ('0' <= c && c <= '9') || c == '-' || c
        == '_'
}

/// Table names are spliced into SQL text, so only non-empty names made of
/// harmless characters are accepted.
pub open spec fn valid_table_name(s: Seq<char>) -> bool {
    s.len() > 0 && forall|i: int| 0 <= i < s.len() ==> is_table_name_char(#[trigger] s[i])
}

/// A valid table name holds no double quote, nor any other character that
/// could end a quoted identifier or start another statement.
pub proof fn lemma_valid_name_stays_quoted(s: Seq<char>)
    requires
        valid_table_name(s),
    ensures
        forall|i: int| 0 <= i < s.len() ==> s[i] != '"' && s[i] != ';' && s[i] != ' ',
{
}

fn table_name_char(c: char) -> (r: bool)
    ensures
        r == is_table_name_char(c),
{
    ('a' <= c && c <= 'z') || ('A' <= c && c <= 'Z') || ('0' <= c && c <= '9') || c == '-' || c
        == '_'
}

/// Whether `name` may be used as the session table's name.
pub fn is_valid_table_name(name: &str) -> (r: bool)
    ensures
        r == valid_table_name(name@),
{
    let n = name.unicode_len();
    if n == 0 {
        return false;
    }
    let mut i: usize = 0;
    while i < n
        invariant
            n == name@.len(),
            i <= n,
            forall|j: int| 0 <= j < i ==> is_table_name_char(#[trigger] name@[j]),
        decreases n - i,
    {
        if !table_name_char(name.get_char(i)) {
            return false;
        }
        i += 1;
    }
    true
}

} // verus!
