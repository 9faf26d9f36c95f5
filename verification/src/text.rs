//! Verified string utilities: equality, pattern matching, literal
//! replacement, whitespace splitting, and character removal.
//!
//! Launch-argument assembly is defined over these: a template string is built
//! by concatenation, placeholders are replaced literally (leftmost first,
//! replaced text never rescanned), and the final string is split on runs of
//! whitespace.

use vstd::prelude::*;
use vstd::string::StrSliceExecFns;
use vstd::string::StringExecFns;

verus! {

/// Whether `pat` occurs in `s` at position `i`.
pub open spec fn match_at(s: Seq<char>, pat: Seq<char>, i: int) -> bool {
    &&& 0 <= i
    &&& i + pat.len() <= s.len()
    &&& s.subrange(i, i + pat.len() as int) == pat
}

/// `s` with every occurrence of `pat` replaced by `rep`: the leftmost
/// occurrence is replaced first and the replacement text is never rescanned.
pub open spec fn replace_all_spec(s: Seq<char>, pat: Seq<char>, rep: Seq<char>) -> Seq<char>
    decreases s.len(),
        when pat.len() >= 1
{
    if s.len() < pat.len() {
        s
    } else if s.subrange(0, pat.len() as int) == pat {
        rep + replace_all_spec(s.skip(pat.len() as int), pat, rep)
    } else {
        seq![s[0]] + replace_all_spec(s.skip(1), pat, rep)
    }
}

/// Whether `c` is one of the whitespace characters the argument splitter
/// recognises.
pub open spec fn is_space(c: char) -> bool {
    c == ' ' || c == '\t' || c == '\n' || c == '\r'
}

/// The length of the leading run of non-whitespace characters of `s`.
pub open spec fn token_len(s: Seq<char>) -> int
    decreases s.len(),
{
    if s.len() == 0 || is_space(s[0]) {
        0
    } else {
        1 + token_len(s.drop_first())
    }
}

pub proof fn lemma_token_len(s: Seq<char>)
    ensures
        0 <= token_len(s) <= s.len(),
        forall|i: int| 0 <= i < token_len(s) ==> !is_space(#[trigger] s[i]),
        token_len(s) < s.len() ==> is_space(s[token_len(s)]),
    decreases s.len(),
{
    if s.len() == 0 || is_space(s[0]) {
    } else {
        lemma_token_len(s.drop_first());
        assert forall|i: int| 0 <= i < token_len(s) implies !is_space(#[trigger] s[i]) by {
            if i >= 1 {
                assert(s.drop_first()[i - 1] == s[i]);
            }
        }
    }
}

/// The converse of `lemma_token_len`: a position bounded by non-whitespace
/// characters on the left and whitespace (or the end) on the right is the
/// token length.
pub proof fn lemma_token_len_unique(s: Seq<char>, m: int)
    requires
        0 <= m <= s.len(),
        forall|i: int| 0 <= i < m ==> !is_space(#[trigger] s[i]),
        m < s.len() ==> is_space(s[m]),
    ensures
        token_len(s) == m,
    decreases s.len(),
{
    if s.len() == 0 || is_space(s[0]) {
    } else {
        lemma_token_len_unique(s.drop_first(), m - 1);
    }
}

/// The whitespace-separated tokens of `s`, in order, with no empty tokens.
pub open spec fn split_spaces_spec(s: Seq<char>) -> Seq<Seq<char>>
    decreases s.len(),
{
    if s.len() == 0 {
        Seq::empty()
    } else if is_space(s[0]) {
        split_spaces_spec(s.drop_first())
    } else {
        let n = token_len(s);
        proof {
            lemma_token_len(s);
        }
        seq![s.subrange(0, n)] + split_spaces_spec(s.skip(n))
    }
}

/// `s` with every occurrence of the character `c` removed.
pub open spec fn remove_char_spec(s: Seq<char>, c: char) -> Seq<char>
    decreases s.len(),
{
    if s.len() == 0 {
        Seq::empty()
    } else if s[0] == c {
        remove_char_spec(s.drop_first(), c)
    } else {
        seq![s[0]] + remove_char_spec(s.drop_first(), c)
    }
}

/// Decides `match_at`.
pub fn matches_at(s: &str, pat: &str, i: usize) -> (r: bool)
    requires
        i + pat@.len() <= s@.len(),
    ensures
        r == match_at(s@, pat@, i as int),
{
    let s_len = s.unicode_len();
    let pat_len = pat.unicode_len();
    let mut j: usize = 0;
    while j < pat_len
        invariant
            j <= pat_len,
            pat_len == pat@.len(),
            s_len == s@.len(),
            i + pat@.len() <= s@.len(),
            forall|k: int| 0 <= k < j ==> s@[i + k] == pat@[k],
        decreases pat_len - j,
    {
        if s.get_char(i + j) != pat.get_char(j) {
            proof {
                assert(s@.subrange(i as int, i + pat@.len()) != pat@) by {
                    assert(s@.subrange(i as int, i + pat@.len())[j as int] == s@[i + j]);
                }
            }
            return false;
        }
        j += 1;
    }
    proof {
        assert(s@.subrange(i as int, i + pat@.len()) =~= pat@);
    }
    true
}

/// String equality over the character views.
pub fn str_eq(a: &str, b: &str) -> (r: bool)
    ensures
        r == (a@ == b@),
{
    let a_len = a.unicode_len();
    let b_len = b.unicode_len();
    if a_len != b_len {
        return false;
    }
    let m = matches_at(a, b, 0);
    proof {
        assert(a@.subrange(0, a@.len() as int) =~= a@);
    }
    m
}

/// Whether `pat` is a prefix of `s`.
pub fn starts_with_str(s: &str, pat: &str) -> (r: bool)
    ensures
        r == (pat@.len() <= s@.len() && s@.subrange(0, pat@.len() as int) == pat@),
{
    let s_len = s.unicode_len();
    let pat_len = pat.unicode_len();
    if pat_len > s_len {
        return false;
    }
    matches_at(s, pat, 0)
}

/// Replaces every occurrence of `pat` in `s` by `rep`, leftmost first,
/// without rescanning replaced text.
pub fn replace_all(s: &str, pat: &str, rep: &str) -> (r: String)
    requires
        pat@.len() >= 1,
    ensures
        r@ == replace_all_spec(s@, pat@, rep@),
{
    let s_len = s.unicode_len();
    let pat_len = pat.unicode_len();
    let mut r = String::new();
    if pat_len > s_len {
        r.append(s);
        return r;
    }
    let mut i: usize = 0;
    proof {
        assert(s@.skip(0) =~= s@);
    }
    while i <= s_len - pat_len
        invariant
            s_len == s@.len(),
            pat_len == pat@.len(),
            1 <= pat_len <= s_len,
            i <= s_len,
            replace_all_spec(s@, pat@, rep@) == r@ + replace_all_spec(s@.skip(i as int), pat@, rep@),
        decreases s_len - i,
    {
        if matches_at(s, pat, i) {
            proof {
                assert(s@.skip(i as int).subrange(0, pat@.len() as int) =~= s@.subrange(
                    i as int,
                    i + pat@.len(),
                ));
                assert(s@.skip(i as int).skip(pat@.len() as int) =~= s@.skip(i + pat@.len()));
            }
            r.append(rep);
            i = i + pat_len;
        } else {
            proof {
                assert(s@.skip(i as int).subrange(0, pat@.len() as int) =~= s@.subrange(
                    i as int,
                    i + pat@.len(),
                ));
                assert(s@.skip(i as int).skip(1) =~= s@.skip(i + 1));
                assert(seq![s@.skip(i as int)[0]] =~= s@.subrange(i as int, i + 1));
            }
            let one = s.substring_char(i, i + 1);
            r.append(one);
            i = i + 1;
        }
    }
    proof {
        assert(s@.skip(i as int).len() < pat@.len());
    }
    let tail = s.substring_char(i, s_len);
    proof {
        assert(s@.skip(i as int) =~= s@.subrange(i as int, s@.len() as int));
    }
    r.append(tail);
    r
}

/// Splits `s` on runs of whitespace into its non-empty tokens.
pub fn split_spaces(s: &str) -> (r: Vec<String>)
    ensures
        r@.map_values(|t: String| t@) == split_spaces_spec(s@),
{
    let len = s.unicode_len();
    let mut r: Vec<String> = Vec::new();
    let mut i: usize = 0;
    proof {
        assert(s@.skip(0) =~= s@);
    }
    while i < len
        invariant
            len == s@.len(),
            i <= len,
            split_spaces_spec(s@) == r@.map_values(|t: String| t@) + split_spaces_spec(
                s@.skip(i as int),
            ),
        decreases len - i,
    {
        let c = s.get_char(i);
        if c == ' ' || c == '\t' || c == '\n' || c == '\r' {
            proof {
                assert(s@.skip(i as int).drop_first() =~= s@.skip(i + 1));
            }
            i = i + 1;
        } else {
            let mut j: usize = i + 1;
            while j < len
                invariant
                    len == s@.len(),
                    i < j <= len,
                    forall|k: int| i <= k < j ==> !is_space(#[trigger] s@[k]),
                ensures
                    i < j <= len,
                    forall|k: int| i <= k < j ==> !is_space(#[trigger] s@[k]),
                    j < len ==> is_space(s@[j as int]),
                decreases len - j,
            {
                let d = s.get_char(j);
                if d == ' ' || d == '\t' || d == '\n' || d == '\r' {
                    break;
                }
                j = j + 1;
            }
            let token = String::from_str(s.substring_char(i, j));
            proof {
                let tail = s@.skip(i as int);
                assert(forall|k: int| 0 <= k < j - i ==> tail[k] == s@[i + k]);
                lemma_token_len_unique(tail, j - i);
                assert(tail.subrange(0, j - i) =~= s@.subrange(i as int, j as int));
                assert(tail.skip(j - i) =~= s@.skip(j as int));
                assert((r@ + seq![token]).map_values(|t: String| t@) =~= r@.map_values(
                    |t: String| t@,
                ) + seq![token@]);
                assert(r@.map_values(|t: String| t@) + (seq![tail.subrange(0, j - i)]
                    + split_spaces_spec(tail.skip(j - i))) =~= (r@.map_values(|t: String| t@)
                    + seq![token@]) + split_spaces_spec(s@.skip(j as int)));
            }
            r.push(token);
            proof {
                assert(r@.map_values(|t: String| t@) + split_spaces_spec(s@.skip(j as int))
                    =~= split_spaces_spec(s@));
            }
            i = j;
        }
    }
    proof {
        assert(s@.skip(i as int) =~= Seq::<char>::empty());
        assert(r@.map_values(|t: String| t@) + Seq::<Seq<char>>::empty() =~= r@.map_values(
            |t: String| t@,
        ));
    }
    r
}

/// Removes every occurrence of the character `c` from `s`.
pub fn remove_char(s: &str, c: char) -> (r: String)
    ensures
        r@ == remove_char_spec(s@, c),
{
    let len = s.unicode_len();
    let mut r = String::new();
    let mut i: usize = 0;
    proof {
        assert(s@.skip(0) =~= s@);
    }
    while i < len
        invariant
            len == s@.len(),
            i <= len,
            remove_char_spec(s@, c) == r@ + remove_char_spec(s@.skip(i as int), c),
        decreases len - i,
    {
        proof {
            assert(s@.skip(i as int).drop_first() =~= s@.skip(i + 1));
        }
        let d = s.get_char(i);
        if d != c {
            proof {
                assert(seq![s@.skip(i as int)[0]] =~= s@.subrange(i as int, i + 1));
            }
            let one = s.substring_char(i, i + 1);
            r.append(one);
        }
        i = i + 1;
    }
    r
}

} // verus!
