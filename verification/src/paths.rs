//! Paths as texts, and what `std::path` makes of them.
//!
//! The three functions of `std::path` that the library calls read nothing
//! but the texts they are given: no environment, no disk, no clock. What
//! counts as a separator, a root or a prefix is settled by the platform that
//! the library is built for, so each result has a name that stands for what
//! that platform gives, and beside the name stands what std's documentation
//! says of the result on every platform.

use vstd::prelude::*;

verus! {

/// The characters that separate the components of a path on one platform
/// or another.
pub open spec fn is_separator(c: char) -> bool {
    c == '/' || c == '\\'
}

/// A leaf that is one plain component on every platform: not empty, not
/// `.` or `..`, and without a separator or a colon.
pub open spec fn is_plain_leaf(leaf: Seq<char>) -> bool {
    &&& leaf.len() > 0
    &&& leaf != seq!['.']
    &&& leaf != seq!['.', '.']
    &&& forall|i: int| 0 <= i < leaf.len() ==> !is_separator(#[trigger] leaf[i]) && leaf[i] != ':'
}

/// A base that begins as a verbatim path of Windows does: two separators,
/// a question mark and a separator.
pub open spec fn is_verbatim(base: Seq<char>) -> bool {
    &&& base.len() >= 4
    &&& is_separator(base[0])
    &&& is_separator(base[1])
    &&& base[2] == '?'
    &&& is_separator(base[3])
}

/// Whether `text` ends with `end`.
pub open spec fn ends_with(text: Seq<char>, end: Seq<char>) -> bool {
    end.len() <= text.len() && text.skip(text.len() - end.len()) == end
}

/// Whether `part` is what is left of `path` once something is taken from
/// its end.
pub open spec fn is_leading_part(part: Seq<char>, path: Seq<char>) -> bool {
    part.len() < path.len() && part == path.take(part.len() as int)
}

/// Whether `path` is `base`, at most one separator, and `leaf`.
pub open spec fn is_adjoined(path: Seq<char>, base: Seq<char>, leaf: Seq<char>) -> bool {
    path == base + leaf || path == base.push('/') + leaf || path == base.push('\\') + leaf
}

/// What holds on every platform of a plain leaf joined to a base: the path
/// ends with the leaf; it is the leaf alone where the base is empty; and it
/// is the base, at most one separator and the leaf, unless the base is a
/// verbatim path, which is written anew from its components.
pub open spec fn is_joined(path: Seq<char>, base: Seq<char>, leaf: Seq<char>) -> bool {
    &&& ends_with(path, leaf)
    &&& base.len() == 0 ==> path == leaf
    &&& !is_verbatim(base) ==> is_adjoined(path, base, leaf)
}

/// What `Path::join` makes of a base and a path.
pub uninterp spec fn path_joined(base: Seq<char>, leaf: Seq<char>) -> Seq<char>;

/// What `Path::parent` makes of a path.
pub uninterp spec fn path_parent(path: Seq<char>) -> Option<Seq<char>>;

/// Whether `Path::is_absolute` holds of a path.
pub uninterp spec fn path_is_absolute(path: Seq<char>) -> bool;

/// `std::path::Path::join`, on paths given and handed back as text. The
/// result is a function of the two texts. A path that is absolute replaces
/// the base; a plain leaf is adjoined to it as `is_joined` says.
#[verifier::external_body]
pub(crate) fn join_path(base: &str, leaf: &str) -> (r: String)
    ensures
        r@ == path_joined(base@, leaf@),
        path_is_absolute(leaf@) ==> r@ == leaf@,
        is_plain_leaf(leaf@) ==> is_joined(r@, base@, leaf@),
{
    std::path::Path::new(base).join(leaf).to_string_lossy().into_owned()
}

/// `std::path::Path::parent`, on a path given and handed back as text. The
/// result is a function of the text. The parent, where there is one, is the
/// path without its final component, so a leading part of it; the empty
/// path has none.
#[verifier::external_body]
pub(crate) fn parent_directory(path: &str) -> (r: Option<String>)
    ensures
        crate::text::text_of(r) == path_parent(path@),
        r matches Some(directory) ==> is_leading_part(directory@, path@),
{
    std::path::Path::new(path).parent().map(|dir| dir.to_string_lossy().into_owned())
}

/// `std::path::Path::is_absolute`, on a path given as text. The result is a
/// function of the text.
#[verifier::external_body]
pub(crate) fn is_absolute_path(path: &str) -> (r: bool)
    ensures
        r == path_is_absolute(path@),
{
    std::path::Path::new(path).is_absolute()
}

/// `.mawaku` and `config.toml` are plain leaves.
pub proof fn lemma_configuration_leaves_are_plain()
    ensures
        is_plain_leaf(".mawaku"@),
        is_plain_leaf("config.toml"@),
{
    reveal_strlit(".mawaku");
    reveal_strlit("config.toml");
    let a = ".mawaku"@;
    let b = "config.toml"@;
    assert(a.len() == 7);
    assert(b.len() == 11);
    assert(seq!['.'].len() == 1);
    assert(seq!['.', '.'].len() == 2);
    assert forall|i: int| 0 <= i < a.len() implies !is_separator(#[trigger] a[i]) && a[i] != ':' by {
        assert(a[0] == '.' && a[1] == 'm' && a[2] == 'a' && a[3] == 'w' && a[4] == 'a' && a[5]
            == 'k' && a[6] == 'u');
    }
    assert forall|i: int| 0 <= i < b.len() implies !is_separator(#[trigger] b[i]) && b[i] != ':' by {
        assert(b[0] == 'c' && b[1] == 'o' && b[2] == 'n' && b[3] == 'f' && b[4] == 'i' && b[5]
            == 'g' && b[6] == '.' && b[7] == 't' && b[8] == 'o' && b[9] == 'm' && b[10] == 'l');
    }
}

} // verus!
