//! Small verified string utilities shared by the configuration parser and the
//! per-container refresh logic.

use vstd::prelude::*;
use vstd::string::StrSliceExecFns;
use vstd::string::StringExecFns;

verus! {

/// Exact character-for-character equality of two string slices.
pub fn str_eq(a: &str, b: &str) -> (r: bool)
    ensures
        r == (a@ == b@),
{
    let alen = a.unicode_len();
    let blen = b.unicode_len();
    if alen != blen {
        assert(a@ != b@) by {
            assert(a@.len() != b@.len());
        }
        return false;
    }
    let mut i: usize = 0;
    while i < alen
        invariant
            alen == a@.len(),
            alen == b@.len(),
            0 <= i <= alen,
            forall|j: int| 0 <= j < i ==> a@[j] == b@[j],
        decreases alen - i,
    {
        if a.get_char(i) != b.get_char(i) {
            return false;
        }
        i = i + 1;
    }
    proof {
        assert(a@ =~= b@);
    }
    true
}

/// `a` matches `b` when they are the same character, or `a` is an ASCII
/// capital letter whose lowercase form is `b`.
pub open spec fn ci_char_eq(a: char, b: char) -> bool {
    a == b || (65 <= a as int <= 90 && a as int + 32 == b as int)
}

/// Case-insensitive match of `s` against an ASCII lowercase keyword `kw`,
/// folding only the ASCII capital letters of `s`.
pub open spec fn ci_match(s: Seq<char>, kw: Seq<char>) -> bool {
    s.len() == kw.len() && (forall|i: int| 0 <= i < s.len() ==> ci_char_eq(s[i], kw[i]))
}

/// Does `s` equal the keyword `kw` up to ASCII case?
pub fn matches_keyword(s: &str, kw: &str) -> (r: bool)
    ensures
        r == ci_match(s@, kw@),
{
    let slen = s.unicode_len();
    let klen = kw.unicode_len();
    if slen != klen {
        return false;
    }
    let mut i: usize = 0;
    while i < slen
        invariant
            slen == s@.len(),
            slen == kw@.len(),
            0 <= i <= slen,
            forall|j: int| 0 <= j < i ==> ci_char_eq(s@[j], kw@[j]),
        decreases slen - i,
    {
        let sc = s.get_char(i) as u32;
        let kc = kw.get_char(i) as u32;
        if !(sc == kc || (65 <= sc && sc <= 90 && sc + 32 == kc)) {
            return false;
        }
        i = i + 1;
    }
    true
}

/// `p` is a prefix of `s`.
pub open spec fn is_prefix_of(p: Seq<char>, s: Seq<char>) -> bool {
    p.len() <= s.len() && (forall|i: int| 0 <= i < p.len() ==> p[i] == s[i])
}

/// Does `s` start with the prefix `p`?
pub fn starts_with_prefix(s: &str, p: &str) -> (r: bool)
    ensures
        r == is_prefix_of(p@, s@),
{
    let slen = s.unicode_len();
    let plen = p.unicode_len();
    if plen > slen {
        return false;
    }
    let mut i: usize = 0;
    while i < plen
        invariant
            slen == s@.len(),
            plen == p@.len(),
            plen <= slen,
            0 <= i <= plen,
            forall|j: int| 0 <= j < i ==> p@[j] == s@[j],
        decreases plen - i,
    {
        if s.get_char(i) != p.get_char(i) {
            return false;
        }
        i = i + 1;
    }
    true
}

/// The sequence holds a `:` separator somewhere.
pub open spec fn has_colon(s: Seq<char>) -> bool {
    exists|i: int| 0 <= i < s.len() && s[i] == ':'
}

/// An image reference with an explicit tag is kept as written; one without a
/// tag resolves to the registry default tag.
pub open spec fn spec_normalize_reference(s: Seq<char>) -> Seq<char> {
    if has_colon(s) {
        s
    } else {
        s + ":latest"@
    }
}

/// Normalize an image reference: append the default `:latest` tag when the
/// reference carries no explicit tag.
pub fn normalize_reference(s: &str) -> (r: String)
    ensures
        r@ == spec_normalize_reference(s@),
{
    let len = s.unicode_len();
    let mut i: usize = 0;
    let mut found = false;
    while i < len
        invariant
            len == s@.len(),
            0 <= i <= len,
            found == (exists|j: int| 0 <= j < i && s@[j] == ':'),
        decreases len - i,
    {
        if s.get_char(i) == ':' {
            found = true;
        }
        i = i + 1;
    }
    if found {
        s.to_owned()
    } else {
        let base = s.to_owned();
        base.concat(":latest")
    }
}

/// The display name of a container: all reported names joined in order.
pub fn join_names(names: &Vec<String>) -> (r: String)
    ensures
        r@ == names.deep_view().flatten(),
{
    let mut r = String::new();
    let mut i: usize = 0;
    while i < names.len()
        invariant
            0 <= i <= names.len(),
            names.deep_view().len() == names.len(),
            r@ == names.deep_view().take(i as int).flatten(),
        decreases names.len() - i,
    {
        proof {
            let dv = names.deep_view();
            dv.lemma_take_succ_push(i as int);
            dv.take(i as int).lemma_flatten_push(dv[i as int]);
            assert(dv.take(i as int).push(dv[i as int]).flatten() =~= dv.take(
                i as int,
            ).flatten() + dv[i as int]);
        }
        r.append(names[i].as_str());
        i = i + 1;
    }
    proof {
        assert(names.deep_view().take(names.len() as int) =~= names.deep_view());
    }
    r
}

} // verus!
