//! Paths as text. A path is a `String` of `/`-separated components; the
//! library composes them itself and leaves every access to the file system to
//! its caller.

use vstd::prelude::*;
use vstd::string::*;

verus! {

/// Whether the path starts at the root directory.
pub open spec fn is_absolute(path: Seq<char>) -> bool {
    path.len() > 0 && path[0] == '/'
}

/// Whether a separator has to be put between `base` and what is appended.
pub open spec fn needs_separator(base: Seq<char>) -> bool {
    base.len() > 0 && base[base.len() - 1] != '/'
}

/// `part` adjoined to `base`: an absolute `part` replaces `base`; otherwise a
/// single `/` separates the two unless `base` is empty or already ends in one.
pub open spec fn joined(base: Seq<char>, part: Seq<char>) -> Seq<char> {
    if is_absolute(part) {
        part
    } else if needs_separator(base) {
        base + seq!['/'] + part
    } else {
        base + part
    }
}

/// Adjoins `part` to `base`.
pub fn join(base: &str, part: &str) -> (r: String)
    ensures
        r@ == joined(base@, part@),
{
    let part_len = part.unicode_len();
    if part_len > 0 && part.get_char(0) == '/' {
        return String::from_str(part);
    }
    let base_len = base.unicode_len();
    let mut r = String::from_str(base);
    if base_len > 0 && base.get_char(base_len - 1) != '/' {
        proof {
            reveal_strlit("/");
            assert("/"@ =~= seq!['/']);
        }
        r.append("/");
    }
    r.append(part);
    r
}

/// The last component of a path as text: what follows its last `/`, the
/// whole text where it has none, nothing where it ends in one.
pub open spec fn base_name(path: Seq<char>) -> Seq<char>
    decreases path.len(),
{
    if path.len() == 0 || path.last() == '/' {
        Seq::empty()
    } else {
        base_name(path.drop_last()).push(path.last())
    }
}

/// The last component of a path as text.
pub fn base_name_of(path: &str) -> (r: &str)
    ensures
        r@ == base_name(path@),
{
    let n = path.unicode_len();
    let mut i: usize = n;
    proof {
        assert(path@.take(n as int) =~= path@);
        assert(path@.subrange(n as int, n as int) =~= Seq::<char>::empty());
        assert(base_name(path@) =~= base_name(path@.take(n as int)) + path@.subrange(
            n as int,
            n as int,
        ));
    }
    while i > 0 && path.get_char(i - 1) != '/'
        invariant
            n == path@.len(),
            i <= n,
            base_name(path@) == base_name(path@.take(i as int)) + path@.subrange(
                i as int,
                n as int,
            ),
        decreases i,
    {
        proof {
            let front = path@.take(i as int);
            assert(front.last() == path@[i - 1]);
            assert(front.drop_last() =~= path@.take(i - 1));
            assert(base_name(front) == base_name(path@.take(i - 1)).push(path@[i - 1]));
            assert(base_name(path@.take(i - 1)).push(path@[i - 1]) + path@.subrange(
                i as int,
                n as int,
            ) =~= base_name(path@.take(i - 1)) + path@.subrange(i - 1, n as int));
        }
        i -= 1;
    }
    proof {
        let front = path@.take(i as int);
        if i > 0 {
            assert(front.last() == path@[i - 1]);
        }
        assert(base_name(front) =~= Seq::<char>::empty());
        assert(base_name(path@) =~= path@.subrange(i as int, n as int));
    }
    path.substring_char(i, n)
}

/// The path with its extension replaced, as `Path::with_extension` computes it.
pub uninterp spec fn extension_replaced(path: Seq<char>, extension: Seq<char>) -> Seq<char>;

/// Calls `std::path::Path::with_extension`, which panics on an extension
/// that holds a path separator; such an extension is not admitted. The
/// result is a function of the two texts alone; a path made from a `String`
/// stays valid UTF-8.
#[verifier::external_body]
pub(crate) fn with_extension(path: &str, extension: &str) -> (r: String)
    requires
        !extension@.contains('/'),
    ensures
        r@ == extension_replaced(path@, extension@),
{
    std::path::Path::new(path).with_extension(extension).to_string_lossy().into_owned()
}

/// What is left of `path` once the leading components `prefix` are taken off,
/// as `Path::strip_prefix` computes it; `None` where `path` does not start
/// with those components.
pub uninterp spec fn prefix_stripped(path: Seq<char>, prefix: Seq<char>) -> Option<Seq<char>>;

/// Calls `std::path::Path::strip_prefix`, which compares whole components.
#[verifier::external_body]
pub(crate) fn strip_prefix(path: &str, prefix: &str) -> (r: Option<String>)
    ensures
        r.deep_view() == prefix_stripped(path@, prefix@),
{
    match std::path::Path::new(path).strip_prefix(prefix) {
        Ok(rest) => Some(rest.to_string_lossy().into_owned()),
        Err(_) => None,
    }
}

} // verus!
