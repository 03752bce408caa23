//! Turning a user-assigned identifier into a PascalCase type-name fragment.
use vstd::prelude::*;
use vstd::string::*;

verus! {

/// What `char::to_uppercase` yields for `c`, collected into a string.
pub uninterp spec fn upper_of(c: char) -> Seq<char>;

/// Relies on `char::to_uppercase`: its characters depend on `c` alone, and an
/// ASCII character maps to its ASCII upper-case form.
#[verifier::external_body]
fn uppercase_char(c: char) -> (r: String)
    ensures
        r@ == upper_of(c),
        'a' <= c <= 'z' ==> r@.len() == 1 && r@[0] as u32 == c as u32 - 32,
        (c as u32) < 128 && !('a' <= c <= 'z') ==> r@ == seq![c],
{
    c.to_uppercase().collect()
}

/// The character at `i` is not an underscore and follows one, or starts `s`.
pub open spec fn starts_segment(s: Seq<char>, i: int) -> bool {
    s[i] != '_' && (i == 0 || s[i - 1] == '_')
}

/// What `upper_of` gives for an ASCII `c`: the upper-case letter for a
/// lower-case one, `c` itself otherwise.
pub open spec fn ascii_upper_known(c: char) -> bool {
    &&& 'a' <= c <= 'z' ==> upper_of(c).len() == 1 && upper_of(c)[0] as u32 == c as u32 - 32
    &&& (c as u32) < 128 && !('a' <= c <= 'z') ==> upper_of(c) == seq![c]
}

/// What the character at `i` contributes: nothing for an underscore, its
/// upper-case form where it starts a segment, and itself otherwise.
pub open spec fn piece(s: Seq<char>, i: int) -> Seq<char> {
    if s[i] == '_' {
        Seq::empty()
    } else if i == 0 || s[i - 1] == '_' {
        upper_of(s[i])
    } else {
        seq![s[i]]
    }
}

/// The pieces of the first `n` characters of `s`, in order.
pub open spec fn pascal_prefix(s: Seq<char>, n: int) -> Seq<char>
    decreases n,
{
    if n <= 0 {
        Seq::empty()
    } else {
        pascal_prefix(s, n - 1) + piece(s, n - 1)
    }
}

/// `s` split on `_`, each non-empty segment with its first character
/// upper-cased, the segments joined with no separator.
pub open spec fn pascal_case(s: Seq<char>) -> Seq<char> {
    pascal_prefix(s, s.len() as int)
}

/// A string made only of underscores normalises to nothing.
pub proof fn lemma_underscores_vanish(s: Seq<char>, n: int)
    requires
        0 <= n <= s.len(),
        forall|i: int| 0 <= i < n ==> s[i] == '_',
    ensures
        pascal_prefix(s, n) == Seq::<char>::empty(),
    decreases n,
{
    if n > 0 {
        lemma_underscores_vanish(s, n - 1);
        assert(pascal_prefix(s, n) =~= Seq::<char>::empty());
    }
}

/// The PascalCase type-name fragment of `raw`.
pub fn normalize(raw: &str) -> (r: String)
    ensures
        r@ == pascal_case(raw@),
        raw@.len() == 0 ==> r@.len() == 0,
        (forall|i: int| 0 <= i < raw@.len() ==> raw@[i] == '_') ==> r@.len() == 0,
        forall|i: int| 0 <= i < raw@.len() && starts_segment(raw@, i) ==> ascii_upper_known(#[trigger] raw@[i]),
{
    proof {
        if forall|i: int| 0 <= i < raw@.len() ==> raw@[i] == '_' {
            lemma_underscores_vanish(raw@, raw@.len() as int);
        }
    }
    let n = raw.unicode_len();
    let mut out = String::new();
    let mut i: usize = 0;
    while i < n
        invariant
            n == raw@.len(),
            i <= n,
            out@ == pascal_prefix(raw@, i as int),
            forall|j: int| 0 <= j < i && starts_segment(raw@, j) ==> ascii_upper_known(#[trigger] raw@[j]),
        decreases n - i,
    {
        let c = raw.get_char(i);
        if c != '_' {
            if i == 0 || raw.get_char(i - 1) == '_' {
                let up = uppercase_char(c);
                out.append(up.as_str());
            } else {
                out.append(raw.substring_char(i, i + 1));
                assert(raw@.subrange(i as int, i + 1) =~= seq![c]);
            }
        } else {
            assert(out@ + piece(raw@, i as int) =~= out@);
        }
        i = i + 1;
    }
    out
}

} // verus!
