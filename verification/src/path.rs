//! What the converter reads from an input path, and where its output goes.
//!
//! Paths are taken apart and put together by `std::path`, by the rules of the
//! platform the library is built for. The verifier does not look into those
//! functions: each result is known to it by a name only, and the functions
//! here say how the converter's values are made of those results.

use crate::format::OutputFormat;
use std::path::Path;
use vstd::prelude::*;

verus! {

/// What `Path::extension` gives for `path`: the part of the final component
/// after its last dot, if it has one.
pub uninterp spec fn path_extension(path: Seq<char>) -> Option<Seq<char>>;

/// What `Path::file_stem` gives for `path`: the final component without its
/// extension, if there is a final component.
pub uninterp spec fn path_file_stem(path: Seq<char>) -> Option<Seq<char>>;

/// What `Path::parent` gives for `path`: the path without its final
/// component, if there is one.
pub uninterp spec fn path_parent(path: Seq<char>) -> Option<Seq<char>>;

/// What `Path::join` gives for `dir` and `name`: the path of `name` inside `dir`.
pub uninterp spec fn path_join(dir: Seq<char>, name: Seq<char>) -> Seq<char>;

/// What `str::to_lowercase` gives for `text`.
pub uninterp spec fn lowercase(text: Seq<char>) -> Seq<char>;

/// The characters of an optional string slice.
pub open spec fn chars_of(text: Option<&str>) -> Option<Seq<char>> {
    match text {
        Some(t) => Some(t@),
        None => None,
    }
}

/// Calls `Path::extension`. Trusted: the result is `path_extension` of the
/// path, which says no more than that equal paths give equal results.
#[verifier::external_body]
fn extension_of(path: &str) -> (ext: Option<&str>)
    ensures
        chars_of(ext) == path_extension(path@),
{
    match Path::new(path).extension() {
        Some(ext) => ext.to_str(),
        None => None,
    }
}

/// Calls `Path::file_stem`. Trusted: the result is `path_file_stem` of the path.
#[verifier::external_body]
fn file_stem_of(path: &str) -> (stem: Option<&str>)
    ensures
        chars_of(stem) == path_file_stem(path@),
{
    match Path::new(path).file_stem() {
        Some(stem) => stem.to_str(),
        None => None,
    }
}

/// Calls `Path::parent`. Trusted: the result is `path_parent` of the path.
#[verifier::external_body]
fn parent_of(path: &str) -> (parent: Option<&str>)
    ensures
        chars_of(parent) == path_parent(path@),
{
    match Path::new(path).parent() {
        Some(parent) => parent.to_str(),
        None => None,
    }
}

/// Calls `Path::join`. Trusted: the result is `path_join` of the two parts.
#[verifier::external_body]
fn join(dir: &str, name: &str) -> (joined: String)
    ensures
        joined@ == path_join(dir@, name@),
{
    Path::new(dir).join(name).to_string_lossy().into_owned()
}

/// Calls `str::to_lowercase`. Trusted: the result is `lowercase` of the text.
#[verifier::external_body]
fn to_lowercase(text: &str) -> (lowered: String)
    ensures
        lowered@ == lowercase(text@),
{
    text.to_lowercase()
}

/// The extension by which an input is judged: the path's extension in lower
/// case, empty where the path has none.
pub open spec fn spec_input_extension(path: Seq<char>) -> Seq<char> {
    match path_extension(path) {
        Some(ext) => lowercase(ext),
        None => Seq::empty(),
    }
}

/// The stem the output is named after: the input's, or `output` where the
/// path has no final component.
pub open spec fn spec_output_stem(path: Seq<char>) -> Seq<char> {
    match path_file_stem(path) {
        Some(stem) => stem,
        None => "output"@,
    }
}

/// The directory the output is written to: the input's parent, or `.` where
/// the path has none.
pub open spec fn spec_output_directory(path: Seq<char>) -> Seq<char> {
    match path_parent(path) {
        Some(parent) => parent,
        None => "."@,
    }
}

/// The name of the output file for an input with stem `stem`.
pub open spec fn spec_output_file_name(stem: Seq<char>, extension: Seq<char>) -> Seq<char> {
    stem + "_converted."@ + extension
}

/// The path of the output: beside the input, named after its stem.
pub open spec fn spec_output_path(path: Seq<char>, extension: Seq<char>) -> Seq<char> {
    path_join(
        spec_output_directory(path),
        spec_output_file_name(spec_output_stem(path), extension),
    )
}

/// The extension by which the input at `path` is judged.
pub fn input_extension(path: &str) -> (ext: String)
    ensures
        ext@ == spec_input_extension(path@),
{
    match extension_of(path) {
        Some(ext) => to_lowercase(ext),
        None => String::new(),
    }
}

/// The stem after which the output for the input at `path` is named.
pub fn output_stem(path: &str) -> (stem: &str)
    ensures
        stem@ == spec_output_stem(path@),
{
    match file_stem_of(path) {
        Some(stem) => stem,
        None => "output",
    }
}

/// The directory to which the output for the input at `path` is written.
pub fn output_directory(path: &str) -> (dir: &str)
    ensures
        dir@ == spec_output_directory(path@),
{
    match parent_of(path) {
        Some(parent) => parent,
        None => ".",
    }
}

/// The name of the output file for an input with stem `stem`.
pub fn output_file_name(stem: &str, extension: &str) -> (name: String)
    ensures
        name@ == spec_output_file_name(stem@, extension@),
{
    let mut name = stem.to_owned();
    name.append("_converted.");
    name.append(extension);
    name
}

/// The path of the output of converting the input at `path` to `format`.
pub fn output_path(path: &str, format: OutputFormat) -> (output: String)
    ensures
        output@ == spec_output_path(path@, format.spec_extension()),
{
    let name = output_file_name(output_stem(path), format.extension());
    join(output_directory(path), name.as_str())
}

} // verus!
