//! Identifiers: what counts as one, and how a name is assembled from fragments.

use crate::error::{text_of, CompileError};
use vstd::prelude::*;

verus! {

/// Whether a character has the Unicode property XID_Start.
pub uninterp spec fn xid_start(c: char) -> bool;

/// Whether a character has the Unicode property XID_Continue.
pub uninterp spec fn xid_continue(c: char) -> bool;

/// `unicode_ident::is_xid_start` looks the character up in the crate's table
/// of the XID_Start property; its answer depends on the character alone.
pub assume_specification[ unicode_ident::is_xid_start ](ch: char) -> (r: bool)
    ensures
        r == xid_start(ch),
;

/// `unicode_ident::is_xid_continue` looks the character up in the crate's
/// table of the XID_Continue property; its answer depends on the character
/// alone.
pub assume_specification[ unicode_ident::is_xid_continue ](ch: char) -> (r: bool)
    ensures
        r == xid_continue(ch),
;

/// A character that may open an identifier.
pub open spec fn ident_start(c: char) -> bool {
    c == '_' || xid_start(c)
}

/// Every character from position `from` on may continue an identifier.
pub open spec fn all_continue(s: Seq<char>, from: int) -> bool {
    forall|i: int| from <= i < s.len() ==> xid_continue(#[trigger] s[i])
}

/// Every character is an ASCII digit.
pub open spec fn all_digits(s: Seq<char>) -> bool {
    forall|i: int| 0 <= i < s.len() ==> '0' <= #[trigger] s[i] <= '9'
}

/// A plain identifier: not empty, not a number, an opening character followed
/// by continuing ones.
pub open spec fn is_ident(s: Seq<char>) -> bool {
    &&& s.len() > 0
    &&& !all_digits(s)
    &&& ident_start(s[0])
    &&& all_continue(s, 1)
}

/// Decides whether `s` is a plain identifier.
pub fn check_ident(s: &str) -> (r: bool)
    ensures
        r == is_ident(s@),
{
    let n = s.unicode_len();
    if n == 0 {
        return false;
    }
    let first = s.get_char(0);
    if !(first == '_' || unicode_ident::is_xid_start(first)) {
        return false;
    }
    let mut digits = '0' <= first && first <= '9';
    let mut i: usize = 1;
    while i < n
        invariant
            1 <= i <= n,
            n == s@.len(),
            digits == (forall|j: int| 0 <= j < i ==> '0' <= #[trigger] s@[j] <= '9'),
            forall|j: int| 1 <= j < i ==> xid_continue(#[trigger] s@[j]),
        decreases n - i,
    {
        let c = s.get_char(i);
        if !unicode_ident::is_xid_continue(c) {
            return false;
        }
        digits = digits && '0' <= c && c <= '9';
        i = i + 1;
    }
    !digits
}

/// The text opens with the raw-identifier prefix `r#`.
pub open spec fn is_raw(s: Seq<char>) -> bool {
    s.len() >= 2 && s[0] == 'r' && s[1] == '#'
}

/// The text without its raw-identifier prefix, if it has one.
pub open spec fn unraw(s: Seq<char>) -> Seq<char> {
    if is_raw(s) {
        s.subrange(2, s.len() as int)
    } else {
        s
    }
}

/// Names that cannot be written as raw identifiers.
pub open spec fn reserved(s: Seq<char>) -> bool {
    s == "_"@ || s == "super"@ || s == "self"@ || s == "Self"@ || s == "crate"@
}

/// The text names an identifier, plain or raw.
pub open spec fn names_ident(s: Seq<char>) -> bool {
    if is_raw(s) {
        is_ident(unraw(s)) && !reserved(unraw(s))
    } else {
        is_ident(s)
    }
}

/// Decides whether the text opens with `r#`.
pub fn check_raw(s: &str) -> (r: bool)
    ensures
        r == is_raw(s@),
{
    let n = s.unicode_len();
    n >= 2 && s.get_char(0) == 'r' && s.get_char(1) == '#'
}

/// Strips the raw-identifier prefix, as an identifier is written when it
/// becomes part of a longer name.
pub fn strip_raw(s: &str) -> (r: String)
    ensures
        r@ == unraw(s@),
{
    if check_raw(s) {
        let n = s.unicode_len();
        s.substring_char(2, n).to_owned()
    } else {
        s.to_owned()
    }
}

/// Decides whether a name cannot be written as a raw identifier.
pub fn check_reserved(s: &str) -> (r: bool)
    ensures
        r == reserved(s@),
{
    let t = s.to_owned();
    t == "_".to_owned() || t == "super".to_owned() || t == "self".to_owned() || t
        == "Self".to_owned() || t == "crate".to_owned()
}

/// Turns assembled text into an identifier, or rejects it.
pub fn mk_ident(name: String) -> (r: Result<String, CompileError>)
    ensures
        match r {
            Ok(s) => names_ident(name@) && s@ == name@,
            Err(e) => !names_ident(name@) && e == CompileError::InvalidIdent,
        },
{
    let ok = if check_raw(name.as_str()) {
        let rest = strip_raw(name.as_str());
        check_ident(rest.as_str()) && !check_reserved(rest.as_str())
    } else {
        check_ident(name.as_str())
    };
    if ok {
        Ok(name)
    } else {
        Err(CompileError::InvalidIdent)
    }
}

/// The text of a provider's name: the target's name, the mangled generic
/// arguments, and the word `Provider`.
pub open spec fn provider_name_text(target: Seq<char>, params: Seq<char>) -> Seq<char> {
    unraw(target) + params + "Provider"@
}

/// The name of the provider of a target, if that text is an identifier.
pub open spec fn provider_name_spec(target: Seq<char>, params: Seq<char>) -> Result<
    Seq<char>,
    CompileError,
> {
    if names_ident(provider_name_text(target, params)) {
        Ok(provider_name_text(target, params))
    } else {
        Err(CompileError::InvalidIdent)
    }
}

/// `pre` followed by the first `n` of `parts`, one after the other.
pub open spec fn joined(pre: Seq<char>, parts: Seq<Seq<char>>, n: nat) -> Seq<char>
    decreases n,
{
    if n == 0 {
        pre
    } else {
        joined(pre, parts, (n - 1) as nat) + parts[n - 1]
    }
}

/// `text` opens with `head`.
pub open spec fn starts_with(text: Seq<char>, head: Seq<char>) -> bool {
    head.len() <= text.len() && forall|i: int| 0 <= i < head.len() ==> text[i] == head[i]
}

/// Derives the name of the provider of `target` with mangled generic
/// arguments `params`.
pub fn provider_name(target: &str, params: &str) -> (r: Result<String, CompileError>)
    ensures
        text_of(r) == provider_name_spec(target@, params@),
{
    let mut name = strip_raw(target);
    name.append(params);
    name.append("Provider");
    mk_ident(name)
}

} // verus!
