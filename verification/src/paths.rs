//! Paths as text: which input paths name a GLB file, where the helper script
//! lies among the resources, and where the optimised asset is written.
//!
//! Paths are taken apart and put together by `std::path`, so that they follow
//! the conventions of the platform the library is built for.

use vstd::prelude::*;
use vstd::string::*;

verus! {

/// The extension of `path` as `std::path::Path::extension` sees it, `None`
/// where the path has none.
pub uninterp spec fn path_extension(path: Seq<char>) -> Option<Seq<char>>;

/// The path that `std::path::Path::join` makes of `base` and `part`.
pub uninterp spec fn joined_path(base: Seq<char>, part: Seq<char>) -> Seq<char>;

/// Asks `std::path::Path::extension` for the extension of `path` and hands
/// it back as text.
///
/// Trusted: the answer is [`path_extension`] of the path, that is, it depends
/// on the path's text alone.
#[verifier::external_body]
fn extension_of(path: &str) -> (extension: Option<String>)
    ensures
        extension.deep_view() == path_extension(path@),
{
    match std::path::Path::new(path).extension() {
        Some(extension) => Some(extension.to_string_lossy().into_owned()),
        None => None,
    }
}

/// Adjoins `part` to `base` with `std::path::Path::join` and hands the
/// result back as text.
///
/// Trusted: the answer is [`joined_path`] of the two texts, that is, it
/// depends on them alone.
#[verifier::external_body]
fn join(base: &str, part: &str) -> (joined: String)
    ensures
        joined@ == joined_path(base@, part@),
{
    std::path::Path::new(base).join(part).to_string_lossy().into_owned()
}

/// Whether `text` ends with `ending`.
pub fn ends_with(text: &str, ending: &str) -> (yes: bool)
    ensures
        yes == ending@.is_suffix_of(text@),
{
    let text_len = text.unicode_len();
    let ending_len = ending.unicode_len();
    if ending_len > text_len {
        return false;
    }
    let start = text_len - ending_len;
    let mut i: usize = 0;
    while i < ending_len
        invariant
            text_len == text@.len(),
            ending_len == ending@.len(),
            start + ending_len == text_len,
            i <= ending_len,
            forall|k: int| 0 <= k < i ==> text@[start + k] == ending@[k],
        decreases ending_len - i,
    {
        if text.get_char(start + i) != ending.get_char(i) {
            assert(text@.subrange(start as int, text_len as int)[i as int] != ending@[i as int]);
            return false;
        }
        i += 1;
    }
    assert(ending@ =~= text@.subrange(start as int, text_len as int));
    true
}

/// Whether a path with this text and this extension names a GLB file: the
/// text ends in `.glb` and the extension is `glb`, in lower case both.
///
/// The extension alone would let through a path that goes on after the file
/// name, such as `model.glb/`.
pub open spec fn names_glb_file(path: Seq<char>, extension: Option<Seq<char>>) -> bool {
    ".glb"@.is_suffix_of(path) && extension == Some("glb"@)
}

/// Whether `path` names a GLB file.
pub open spec fn is_glb_path(path: Seq<char>) -> bool {
    names_glb_file(path, path_extension(path))
}

/// Decides [`names_glb_file`] for a path and the extension found in it.
pub fn judge_extension(path: &str, extension: &Option<String>) -> (yes: bool)
    ensures
        yes == names_glb_file(path@, extension.deep_view()),
{
    if !ends_with(path, ".glb") {
        return false;
    }
    match extension {
        Some(found) => {
            let wanted = String::from_str("glb");
            *found == wanted
        },
        None => false,
    }
}

/// Decides whether `path` names a GLB file.
pub fn has_glb_extension(path: &str) -> (yes: bool)
    ensures
        yes == is_glb_path(path@),
{
    let extension = extension_of(path);
    judge_extension(path, &extension)
}

/// Where the helper script lies, given the resource directory: the file
/// `optimize-glb.js` in its subdirectory `sidecar`.
pub open spec fn script_location(resources: Seq<char>) -> Seq<char> {
    joined_path(joined_path(resources, "sidecar"@), "optimize-glb.js"@)
}

/// Where the optimised asset is written, given the temporary directory: the
/// file `glb_optimized_output.glb` in it, the same for every run.
pub open spec fn output_location(scratch: Seq<char>) -> Seq<char> {
    joined_path(scratch, "glb_optimized_output.glb"@)
}

/// The path of the helper script under the resource directory `resources`.
pub fn locate_script(resources: &str) -> (path: String)
    ensures
        path@ == script_location(resources@),
{
    let directory = join(resources, "sidecar");
    join(directory.as_str(), "optimize-glb.js")
}

/// The path of the output file under the temporary directory `scratch`.
pub fn locate_output(scratch: &str) -> (path: String)
    ensures
        path@ == output_location(scratch@),
{
    join(scratch, "glb_optimized_output.glb")
}

} // verus!
