//! Names of the compressed variants of the files that the server offers.

use vstd::prelude::*;

verus! {

/// The extension of the path `path`, as `std::path::Path::extension` finds
/// it.
pub uninterp spec fn extension_of(path: Seq<char>) -> Option<Seq<char>>;

/// The path `path` with `extension` in place of its extension, as
/// `std::path::Path::with_extension` builds it.
pub uninterp spec fn with_extension_of(path: Seq<char>, extension: Seq<char>) -> Seq<char>;

/// `std::path::Path::extension`: the part of the file name after its last
/// dot, if it has one. The contract claims that the result is a function of
/// the path, and that it holds no `/`: it is part of a file name, which is
/// one component of the path.
#[verifier::external_body]
fn path_extension(path: &str) -> (extension: Option<String>)
    ensures
        extension.deep_view() == extension_of(path@),
        extension matches Some(ext) ==> !ext@.contains('/'),
{
    std::path::Path::new(path).extension().map(|ext| ext.to_string_lossy().into_owned())
}

/// `std::path::Path::with_extension`: the path with its extension replaced.
/// The call panics on an extension that holds a path separator, so such an
/// extension is left out. The contract claims only that the result is a
/// function of the path and the extension.
#[verifier::external_body]
fn path_with_extension(path: &str, extension: &str) -> (replaced: String)
    requires
        !extension@.contains('/'),
    ensures
        replaced@ == with_extension_of(path@, extension@),
{
    std::path::Path::new(path).with_extension(extension).to_string_lossy().into_owned()
}

/// The extension that `path` has once `extension` is added to it: the one
/// it has, a dot and the new one; or the new one alone.
pub open spec fn extended(present: Option<Seq<char>>, extension: Seq<char>) -> Seq<char> {
    match present {
        Some(ext) => ext + "."@ + extension,
        None => extension,
    }
}

/// An extension that is put together from parts without a `/` holds none.
pub proof fn extended_holds_no_slash(present: Option<Seq<char>>, extension: Seq<char>)
    requires
        present matches Some(ext) ==> !ext.contains('/'),
        !extension.contains('/'),
    ensures
        !extended(present, extension).contains('/'),
{
    reveal_strlit(".");
    let whole = extended(present, extension);
    if whole.contains('/') {
        let k = choose|k: int| 0 <= k < whole.len() && whole[k] == '/';
        match present {
            Some(ext) => {
                if k < ext.len() {
                    assert(ext[k] == '/');
                } else if k > ext.len() {
                    assert(extension[k - ext.len() - 1] == '/');
                }
            },
            None => {},
        }
    }
}

/// The extension under which `path` gets `extension` added, given the
/// extension that it has.
pub fn extend(present: Option<String>, extension: &str) -> (r: String)
    ensures
        r@ == extended(present.deep_view(), extension@),
{
    match present {
        Some(ext) => {
            let mut ext = ext;
            ext.append(".");
            ext.append(extension);
            ext
        },
        None => extension.to_owned(),
    }
}

/// The path `path` with `extension` added after the extension that it has:
/// `index.html` with `gz` is `index.html.gz`. The extension names no
/// directory: it holds no `/`.
pub fn add_extension(path: &str, extension: &str) -> (r: String)
    requires
        !extension@.contains('/'),
    ensures
        r@ == with_extension_of(path@, extended(extension_of(path@), extension@)),
{
    let present = path_extension(path);
    proof {
        extended_holds_no_slash(present.deep_view(), extension@);
    }
    let full = extend(present, extension);
    path_with_extension(path, full.as_str())
}

} // verus!
