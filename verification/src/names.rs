//! File-name classification: the canonical-name validator and the
//! convert / skip / delete decision made for every file in a subdirectory.

use vstd::prelude::*;

verus! {

/// The characters of the source extension, ".webp".
pub open spec fn webp_suffix() -> Seq<char> {
    seq!['.', 'w', 'e', 'b', 'p']
}

/// The characters of the target extension, ".png".
pub open spec fn png_suffix() -> Seq<char> {
    seq!['.', 'p', 'n', 'g']
}

/// An ASCII letter or digit.
pub open spec fn is_ascii_alnum(c: char) -> bool {
    ||| 'a' <= c && c <= 'z'
    ||| 'A' <= c && c <= 'Z'
    ||| '0' <= c && c <= '9'
}

/// A canonical source asset name: one or more ASCII letters or digits
/// followed by the literal extension ".webp", nothing before or after.
pub open spec fn is_canonical_name(n: Seq<char>) -> bool {
    &&& n.len() > 5
    &&& (forall|i: int| 0 <= i < n.len() - 5 ==> is_ascii_alnum(#[trigger] n[i]))
    &&& n.subrange(n.len() - 5, n.len() as int) == webp_suffix()
}

/// The name has extension "png": it ends in ".png" with at least one
/// character before the dot, which makes that dot the last one and leaves a
/// non-empty stem, exactly the condition under which a path's extension is
/// the portion after the final dot.
pub open spec fn has_png_extension(n: Seq<char>) -> bool {
    &&& n.len() >= 5
    &&& n.subrange(n.len() - 4, n.len() as int) == png_suffix()
}

/// What happens to one file found in a subdirectory.
#[derive(Debug, Clone, Copy, PartialEq, Eq, Structural)]
pub enum FileAction {
    /// A canonical source asset: convert it to the target format.
    Convert,
    /// A file already bearing the target extension: leave it untouched.
    Skip,
    /// Anything else: extraneous, delete it.
    Delete,
}

/// The classification rule applied to every file of a subdirectory.
pub open spec fn classify_name(n: Seq<char>) -> FileAction {
    if is_canonical_name(n) {
        FileAction::Convert
    } else if has_png_extension(n) {
        FileAction::Skip
    } else {
        FileAction::Delete
    }
}

/// True iff `name` is one or more ASCII letters or digits followed by the
/// literal ".webp". The single source of truth for keep-versus-delete
/// decisions everywhere in the pipeline.
pub fn is_canonical(name: &str) -> (r: bool)
    ensures
        r == is_canonical_name(name@),
{
    let len = name.unicode_len();
    if len < 6 {
        return false;
    }
    if !suffix_matches_webp(name, len) {
        return false;
    }
    let mut i: usize = 0;
    while i < len - 5
        invariant
            len == name@.len(),
            6 <= len,
            0 <= i <= len - 5,
            forall|j: int| 0 <= j < i ==> is_ascii_alnum(#[trigger] name@[j]),
        decreases len - 5 - i,
    {
        let c = name.get_char(i);
        if !char_is_ascii_alnum(c) {
            return false;
        }
        i += 1;
    }
    true
}

/// True iff the character is an ASCII letter or digit.
fn char_is_ascii_alnum(c: char) -> (r: bool)
    ensures
        r == is_ascii_alnum(c),
{
    ('a' <= c && c <= 'z') || ('A' <= c && c <= 'Z') || ('0' <= c && c <= '9')
}

/// True iff the last five characters of `name` are ".webp".
fn suffix_matches_webp(name: &str, len: usize) -> (r: bool)
    requires
        len == name@.len(),
        len >= 5,
    ensures
        r == (name@.subrange(len - 5, len as int) == webp_suffix()),
{
    let r = name.get_char(len - 5) == '.' && name.get_char(len - 4) == 'w'
        && name.get_char(len - 3) == 'e' && name.get_char(len - 2) == 'b'
        && name.get_char(len - 1) == 'p';
    proof {
        let s = name@.subrange(len - 5, len as int);
        assert(s.len() == 5);
        assert(s[0] == name@[len - 5]);
        assert(s[1] == name@[len - 4]);
        assert(s[2] == name@[len - 3]);
        assert(s[3] == name@[len - 2]);
        assert(s[4] == name@[len - 1]);
        if r {
            assert(s =~= webp_suffix());
        } else {
            assert(s != webp_suffix());
        }
    }
    r
}

/// True iff the last four characters of `name` are ".png", i.e. the file
/// bears the target extension.
fn suffix_matches_png(name: &str, len: usize) -> (r: bool)
    requires
        len == name@.len(),
        len >= 4,
    ensures
        r == (name@.subrange(len - 4, len as int) == png_suffix()),
{
    let r = name.get_char(len - 4) == '.' && name.get_char(len - 3) == 'p'
        && name.get_char(len - 2) == 'n' && name.get_char(len - 1) == 'g';
    proof {
        let s = name@.subrange(len - 4, len as int);
        assert(s.len() == 4);
        assert(s[0] == name@[len - 4]);
        assert(s[1] == name@[len - 3]);
        assert(s[2] == name@[len - 2]);
        assert(s[3] == name@[len - 1]);
        if r {
            assert(s =~= png_suffix());
        } else {
            assert(s != png_suffix());
        }
    }
    r
}

/// Classify one file name: canonical names are converted, names with the
/// target extension are skipped, everything else is extraneous and deleted.
pub fn classify(name: &str) -> (a: FileAction)
    ensures
        a == classify_name(name@),
{
    if is_canonical(name) {
        FileAction::Convert
    } else {
        let len = name.unicode_len();
        if len >= 5 && suffix_matches_png(name, len) {
            FileAction::Skip
        } else {
            FileAction::Delete
        }
    }
}

/// The name a converted file is written under: the stem of the canonical
/// source name with the target extension in place of the source extension.
pub open spec fn target_name_of(n: Seq<char>) -> Seq<char>
    recommends
        is_canonical_name(n),
{
    n.subrange(0, n.len() - 5) + png_suffix()
}

/// Compute the target file name of a canonical source name: same stem,
/// extension replaced by ".png".
pub fn target_name(name: &str) -> (r: String)
    requires
        is_canonical_name(name@),
    ensures
        r@ == target_name_of(name@),
{
    let len = name.unicode_len();
    let stem = name.substring_char(0, len - 5);
    let mut out = String::from_str(stem);
    out.append(".png");
    proof {
        reveal_strlit(".png");
        assert(".png"@ =~= png_suffix());
        assert(out@ =~= target_name_of(name@));
    }
    out
}

} // verus!
