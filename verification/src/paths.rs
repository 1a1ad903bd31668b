//! Path policy: where the crop of an input file is written.
//!
//! Paths are held as text. How a path divides into directory and file name
//! is left to `std::path`, whose answers are named here and not spelled
//! out; what is made of a file name is this module's own.

use crate::extensions::{is_supported_extension, supported_extension};
use crate::names::{cropped_file_name, cropped_name, extension_of, split_file_name};
use vstd::prelude::*;
use vstd::string::*;

verus! {

/// The final component of `path` as `std::path::Path::file_name` gives it
/// on the platform the library is built for, or `None` where the path has
/// none (it is empty, is a root, or ends in `..`).
pub uninterp spec fn path_file_name(path: Seq<char>) -> Option<Seq<char>>;

/// `path` with its final component replaced by `name`, as
/// `std::path::Path::with_file_name` gives it.
pub uninterp spec fn path_with_file_name(path: Seq<char>, name: Seq<char>) -> Seq<char>;

/// `name` adjoined to the directory `dir`, as `std::path::Path::join`
/// gives it.
pub uninterp spec fn path_join(dir: Seq<char>, name: Seq<char>) -> Seq<char>;

/// Why no output path could be derived.
#[derive(Clone, Copy, Debug, PartialEq, Eq, Structural)]
pub enum PathError {
    /// The input path has no file name, and so no stem to build on.
    NoFileName,
}

/// An input file and the place where its crop is written.
#[derive(Clone, Debug)]
pub struct PathPlan {
    pub input: String,
    pub output: String,
}

impl PathPlan {
    /// The plan as a pair of texts: input path, output path.
    pub open spec fn view(&self) -> (Seq<char>, Seq<char>) {
        (self.input@, self.output@)
    }
}

/// The file name of the crop of the file at `path`, where `path` has a file
/// name.
pub open spec fn cropped_filename_of(path: Seq<char>) -> Option<Seq<char>> {
    match path_file_name(path) {
        Some(name) => Some(cropped_name(name)),
        None => None,
    }
}

/// The crop's path beside the input: the input path with its file name
/// replaced by the crop's file name.
pub open spec fn sibling_output_path(path: Seq<char>) -> Option<Seq<char>> {
    match path_file_name(path) {
        Some(name) => Some(path_with_file_name(path, cropped_name(name))),
        None => None,
    }
}

/// The crop's path when a whole directory is processed: inside `out_dir`
/// where one is given, else beside the input.
pub open spec fn batch_output_path(path: Seq<char>, out_dir: Option<Seq<char>>) -> Option<
    Seq<char>,
> {
    match out_dir {
        Some(dir) => match path_file_name(path) {
            Some(name) => Some(path_join(dir, cropped_name(name))),
            None => None,
        },
        None => sibling_output_path(path),
    }
}

/// The crop's path when a single file is processed: the path asked for
/// where one is given, else beside the input.
pub open spec fn single_output_path(path: Seq<char>, output: Option<Seq<char>>) -> Option<
    Seq<char>,
> {
    match output {
        Some(given) => Some(given),
        None => sibling_output_path(path),
    }
}

/// A derived path is the text owed, and the derivation fails with
/// `NoFileName` exactly where none is owed.
pub open spec fn derives(outcome: Result<String, PathError>, owed: Option<Seq<char>>) -> bool {
    match outcome {
        Ok(text) => owed == Some(text@),
        Err(e) => owed is None && e == PathError::NoFileName,
    }
}

/// The path at `path` names an image: it has a file name, the file name has
/// an extension, and the extension is a supported one.
pub open spec fn is_image_path(path: Seq<char>) -> bool {
    match path_file_name(path) {
        Some(name) => match extension_of(name) {
            Some(ext) => supported_extension(ext),
            None => false,
        },
        None => false,
    }
}

/// Calls `std::path::Path::file_name` on `path`. The contract claims that
/// the answer depends on the text of the path alone, and gives it its name.
#[verifier::external_body]
fn file_name_of(path: &str) -> (name: Option<String>)
    ensures
        match name {
            Some(text) => path_file_name(path@) == Some(text@),
            None => path_file_name(path@) is None,
        },
{
    std::path::Path::new(path).file_name().map(|name| name.to_string_lossy().into_owned())
}

/// Calls `std::path::Path::with_file_name` on `path` with `name`. The
/// contract claims that the answer depends on the two texts alone, and
/// gives it its name.
#[verifier::external_body]
fn with_file_name(path: &str, name: &str) -> (out: String)
    ensures
        out@ == path_with_file_name(path@, name@),
{
    std::path::Path::new(path).with_file_name(name).to_string_lossy().into_owned()
}

/// Calls `std::path::Path::join` on `dir` with `name`. The contract claims
/// that the answer depends on the two texts alone, and gives it its name.
#[verifier::external_body]
fn join(dir: &str, name: &str) -> (out: String)
    ensures
        out@ == path_join(dir@, name@),
{
    std::path::Path::new(dir).join(name).to_string_lossy().into_owned()
}

/// Derives the bare file name of the crop of the file at `input_path`: the
/// file name of the input with `_cropped` behind its stem. Fails where the
/// input path has no file name.
pub fn generate_cropped_filename(input_path: &str) -> (outcome: Result<String, PathError>)
    ensures
        derives(outcome, cropped_filename_of(input_path@)),
        outcome is Ok <==> path_file_name(input_path@) is Some,
{
    match file_name_of(input_path) {
        Some(name) => Ok(cropped_file_name(name.as_str())),
        None => Err(PathError::NoFileName),
    }
}

/// Derives the path of the crop where none was asked for: beside the input
/// file, under the input's file name with `_cropped` behind its stem. Fails
/// where the input path has no file name.
pub fn generate_default_output_path(input_path: &str) -> (outcome: Result<String, PathError>)
    ensures
        derives(outcome, sibling_output_path(input_path@)),
        outcome is Ok <==> path_file_name(input_path@) is Some,
{
    match file_name_of(input_path) {
        Some(name) => {
            let cropped = cropped_file_name(name.as_str());
            Ok(with_file_name(input_path, cropped.as_str()))
        },
        None => Err(PathError::NoFileName),
    }
}

/// Says whether the file at `path` is taken for an image, going by the
/// extension of its file name and not by its contents.
pub fn is_image_extension(path: &str) -> (image: bool)
    ensures
        image == is_image_path(path@),
{
    match file_name_of(path) {
        Some(name) => {
            let (_, extension) = split_file_name(name.as_str());
            match extension {
                Some(ext) => is_supported_extension(ext),
                None => false,
            }
        },
        None => false,
    }
}

/// Resolves the output path of a file that is processed alone: `output`
/// itself where it is given, else the path beside the input.
pub fn resolve_single_output(input_path: &str, output: Option<&str>) -> (outcome: Result<
    String,
    PathError,
>)
    ensures
        derives(
            outcome,
            single_output_path(
                input_path@,
                match output {
                    Some(given) => Some(given@),
                    None => None,
                },
            ),
        ),
        outcome is Err <==> output is None && path_file_name(input_path@) is None,
{
    match output {
        Some(given) => Ok(String::from_str(given)),
        None => generate_default_output_path(input_path),
    }
}

/// Resolves the output path of a file that is processed as one of a
/// directory: inside `out_dir` where it is given, else beside the input.
pub fn resolve_batch_output(input_path: &str, out_dir: Option<&str>) -> (outcome: Result<
    String,
    PathError,
>)
    ensures
        derives(
            outcome,
            batch_output_path(
                input_path@,
                match out_dir {
                    Some(dir) => Some(dir@),
                    None => None,
                },
            ),
        ),
        outcome is Ok <==> path_file_name(input_path@) is Some,
{
    match out_dir {
        Some(dir) => match generate_cropped_filename(input_path) {
            Ok(name) => Ok(join(dir, name.as_str())),
            Err(e) => Err(e),
        },
        None => generate_default_output_path(input_path),
    }
}

} // verus!
