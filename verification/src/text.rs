//! Text as sequences of characters: joining, searching and cutting strings.

use vstd::prelude::*;
use vstd::string::StringExecFns;
use vstd::string::StrSliceExecFns;
use vstd::utf8::{decode_utf8, valid_utf8};

verus! {

/// The texts of `parts`, each as a sequence of characters.
pub open spec fn texts(parts: Seq<String>) -> Seq<Seq<char>> {
    Seq::new(parts.len(), |i: int| parts[i]@)
}

/// The texts of each list of `lists`.
pub open spec fn nested_texts(lists: Seq<Vec<String>>) -> Seq<Seq<Seq<char>>> {
    Seq::new(lists.len(), |i: int| texts(lists[i]@))
}

/// `parts` written one after another with `sep` between neighbours.
pub open spec fn joined(parts: Seq<Seq<char>>, sep: Seq<char>) -> Seq<char>
    decreases parts.len(),
{
    if parts.len() == 0 {
        Seq::empty()
    } else if parts.len() == 1 {
        parts[0]
    } else {
        joined(parts.drop_last(), sep) + sep + parts.last()
    }
}

/// Joins `parts` with `sep` between neighbours; nothing before the first or
/// after the last.
pub fn join(parts: &Vec<String>, sep: &str) -> (r: String)
    ensures
        r@ == joined(texts(parts@), sep@),
{
    let mut out = String::new();
    let mut i: usize = 0;
    while i < parts.len()
        invariant
            i <= parts.len(),
            out@ == joined(texts(parts@).take(i as int), sep@),
        decreases parts.len() - i,
    {
        let ghost before = texts(parts@).take(i as int);
        let ghost after = texts(parts@).take(i + 1);
        assert(after.drop_last() =~= before);
        assert(after.last() == parts@[i as int]@);
        if i > 0 {
            out.append(sep);
        }
        out.append(parts[i].as_str());
        assert(out@ =~= joined(after, sep@));
        i = i + 1;
    }
    assert(texts(parts@).take(parts.len() as int) =~= texts(parts@));
    out
}

/// The position of the first `c` in `s`, counted in characters.
pub fn find_first(s: &str, c: char) -> (r: Option<usize>)
    ensures
        match r {
            Some(i) => s@.index_of_first(c) == Some(i as int),
            None => s@.index_of_first(c) is None,
        },
{
    let total = s.unicode_len();
    let mut found: Option<usize> = None;
    let mut n: usize = 0;
    for ch in it: s.chars()
        invariant
            it.seq() == s@,
            n == it.index(),
            total == s@.len(),
            match found {
                Some(i) => i < n && s@[i as int] == c && forall|j: int| 0 <= j < i ==> s@[j] != c,
                None => forall|j: int| 0 <= j < n ==> s@[j] != c,
            },
    {
        if found.is_none() && ch == c {
            found = Some(n);
        }
        n = n + 1;
    }
    proof {
        s@.index_of_first_ensures(c);
    }
    found
}

/// The position of the last `c` in `s`, counted in characters.
pub fn find_last(s: &str, c: char) -> (r: Option<usize>)
    ensures
        match r {
            Some(i) => s@.index_of_last(c) == Some(i as int) && i < usize::MAX,
            None => s@.index_of_last(c) is None,
        },
{
    let total = s.unicode_len();
    let mut found: Option<usize> = None;
    let mut n: usize = 0;
    for ch in it: s.chars()
        invariant
            it.seq() == s@,
            n == it.index(),
            total == s@.len(),
            match found {
                Some(i) => i < n && s@[i as int] == c && forall|j: int| i < j < n ==> s@[j] != c,
                None => forall|j: int| 0 <= j < n ==> s@[j] != c,
            },
    {
        if ch == c {
            found = Some(n);
        }
        n = n + 1;
    }
    proof {
        s@.index_of_last_ensures(c);
    }
    found
}

/// The characters of `s` from position `from` up to, not including, `to`.
pub fn substring(s: &str, from: usize, to: usize) -> (r: String)
    requires
        from <= to <= s@.len(),
    ensures
        r@ == s@.subrange(from as int, to as int),
{
    String::from_str(s.substring_char(from, to))
}

/// Whether `name` is among `names`.
pub fn contains_text(names: &Vec<String>, name: &String) -> (r: bool)
    ensures
        r == texts(names@).contains(name@),
{
    let mut i: usize = 0;
    while i < names.len()
        invariant
            i <= names.len(),
            forall|j: int| 0 <= j < i ==> texts(names@)[j] != name@,
        decreases names.len() - i,
    {
        if names[i] == *name {
            assert(texts(names@)[i as int] == name@);
            return true;
        }
        i = i + 1;
    }
    false
}

/// Calls `String::from_utf8`. Trusted, as std documents it: bytes that are
/// valid UTF-8 give the text they encode, any others give nothing.
#[verifier::external_body]
pub(crate) fn text_of_bytes(bytes: Vec<u8>) -> (r: Option<String>)
    ensures
        match r {
            Some(s) => valid_utf8(bytes@) && s@ == decode_utf8(bytes@),
            None => !valid_utf8(bytes@),
        },
{
    String::from_utf8(bytes).ok()
}

} // verus!
