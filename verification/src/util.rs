//! Small helpers around launching: the stable player identifier and path
//! prefix stripping.

use vstd::prelude::*;
use vstd::string::StrSliceExecFns;
use vstd::string::StringExecFns;
use crate::text::{remove_char, remove_char_spec, starts_with_str};

verus! {

/// The name of what hyphenated name-based identifier generation returns for
/// an input: the result depends on the input characters alone.
pub uninterp spec fn uuid_v5_hyphenated_of(input: Seq<char>) -> Seq<char>;

/// Relies on uuid's `Uuid::new_v5` (a SHA-1 name-based identifier, a pure
/// function of namespace and name) with the OID namespace, formatted by
/// `Display`, which uuid documents as the hyphenated lowercase form: 36
/// characters with `-` exactly at positions 8, 13, 18 and 23.
#[verifier::external_body]
fn uuid_v5_hyphenated(input: &str) -> (r: String)
    ensures
        r@ == uuid_v5_hyphenated_of(input@),
        r@.len() == 36,
        forall|i: int|
            0 <= i < 36 ==> ((r@[i] == '-') <==> (i == 8 || i == 13 || i == 18 || i == 23)),
{
    uuid::Uuid::new_v5(&uuid::Uuid::NAMESPACE_OID, input.as_bytes()).to_string()
}

/// Removing a character distributes over concatenation.
proof fn lemma_remove_char_concat(a: Seq<char>, b: Seq<char>, c: char)
    ensures
        remove_char_spec(a + b, c) == remove_char_spec(a, c) + remove_char_spec(b, c),
    decreases a.len(),
{
    if a.len() == 0 {
        assert(a + b =~= b);
        assert(remove_char_spec(a, c) + remove_char_spec(b, c) =~= remove_char_spec(b, c));
    } else {
        assert((a + b).drop_first() =~= a.drop_first() + b);
        lemma_remove_char_concat(a.drop_first(), b, c);
        if a[0] == c {
        } else {
            assert(seq![a[0]] + (remove_char_spec(a.drop_first(), c) + remove_char_spec(b, c))
                =~= (seq![a[0]] + remove_char_spec(a.drop_first(), c)) + remove_char_spec(b, c));
        }
    }
}

/// A sequence free of `c` is unchanged by removing `c`.
proof fn lemma_remove_char_absent(s: Seq<char>, c: char)
    requires
        forall|i: int| 0 <= i < s.len() ==> s[i] != c,
    ensures
        remove_char_spec(s, c) == s,
    decreases s.len(),
{
    if s.len() == 0 {
        assert(remove_char_spec(s, c) =~= s);
    } else {
        lemma_remove_char_absent(s.drop_first(), c);
        assert(seq![s[0]] + s.drop_first() =~= s);
    }
}

/// Removing the four hyphens of a hyphenated identifier leaves its 32 digits.
proof fn lemma_remove_hyphens_len(s: Seq<char>)
    requires
        s.len() == 36,
        forall|i: int|
            0 <= i < 36 ==> ((s[i] == '-') <==> (i == 8 || i == 13 || i == 18 || i == 23)),
    ensures
        remove_char_spec(s, '-').len() == 32,
{
    let a = s.subrange(0, 8);
    let b = s.subrange(9, 13);
    let c = s.subrange(14, 18);
    let d = s.subrange(19, 23);
    let e = s.subrange(24, 36);
    let hy = seq!['-'];
    assert(s =~= a + hy + b + hy + c + hy + d + hy + e);
    lemma_remove_char_concat(a + hy + b + hy + c + hy + d + hy, e, '-');
    lemma_remove_char_concat(a + hy + b + hy + c + hy + d, hy, '-');
    lemma_remove_char_concat(a + hy + b + hy + c + hy, d, '-');
    lemma_remove_char_concat(a + hy + b + hy + c, hy, '-');
    lemma_remove_char_concat(a + hy + b + hy, c, '-');
    lemma_remove_char_concat(a + hy + b, hy, '-');
    lemma_remove_char_concat(a + hy, b, '-');
    lemma_remove_char_concat(a, hy, '-');
    lemma_remove_char_absent(a, '-');
    lemma_remove_char_absent(b, '-');
    lemma_remove_char_absent(c, '-');
    lemma_remove_char_absent(d, '-');
    lemma_remove_char_absent(e, '-');
    assert(hy.drop_first() =~= Seq::<char>::empty());
    assert(remove_char_spec(hy.drop_first(), '-') =~= Seq::<char>::empty());
    assert(remove_char_spec(hy, '-') =~= Seq::<char>::empty());
}

/// The stable player identifier derived from a player name: the hyphenated
/// name-based identifier of the name, with its hyphens removed — 32
/// hexadecimal digits.
pub fn generate_uuid_without_hyphens(input: &str) -> (r: String)
    ensures
        r@ == remove_char_spec(uuid_v5_hyphenated_of(input@), '-'),
        r@.len() == 32,
{
    let hyphenated = uuid_v5_hyphenated(input);
    let r = remove_char(hyphenated.as_str(), '-');
    proof {
        lemma_remove_hyphens_len(hyphenated@);
    }
    r
}

/// A verbatim path as some platforms canonicalize it: the extended-length
/// marker, two backslashes, a question mark and a backslash, may stand before
/// the drive.
pub open spec fn strip_long_prefix_spec(s: Seq<char>) -> Seq<char> {
    if s.len() >= 4 && s.subrange(0, 4) == "\\\\?\\"@ {
        s.skip(4)
    } else {
        s
    }
}

/// Strips the extended-length path marker from the front of a canonicalized
/// path, if present.
pub fn strip_long_path_prefix(path: &str) -> (r: String)
    ensures
        r@ == strip_long_prefix_spec(path@),
{
    proof {
        reveal_strlit("\\\\?\\");
    }
    let len = path.unicode_len();
    if starts_with_str(path, "\\\\?\\") {
        let stripped = path.substring_char(4, len);
        proof {
            assert(path@.skip(4) =~= path@.subrange(4, path@.len() as int));
        }
        String::from_str(stripped)
    } else {
        String::from_str(path)
    }
}

} // verus!
