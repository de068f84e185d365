//! File names and paths: where a frame is written before it is read, and
//! where an excluded file goes.
//!
//! Paths are taken apart and put together by the standard library, so that
//! they follow the rules of the platform that the library is built for. What
//! it answers is named here and not reasoned about further.

use vstd::prelude::*;
use crate::error::{CommandError, CommandErrorView, ErrorKind};
use crate::text::{
    append_decimal,
    decimal,
    is_digit,
    lemma_decimal_digits,
    lemma_decimal_distinct,
};

verus! {

/// The path without its final component, as `Path::parent` gives it; none
/// where the path ends in a root or is empty.
pub uninterp spec fn path_parent(path: Seq<char>) -> Option<Seq<char>>;

/// The final component of the path, as `Path::file_name` gives it; none
/// where the path ends in `..` or has no component.
pub uninterp spec fn path_file_name(path: Seq<char>) -> Option<Seq<char>>;

/// `tail` adjoined to `base`, as `Path::join` gives it.
pub uninterp spec fn path_join(base: Seq<char>, tail: Seq<char>) -> Seq<char>;

/// Calls `Path::parent` and hands the answer back as text. The result is
/// taken to depend on the path alone.
#[verifier::external_body]
fn parent_of(path: &str) -> (parent: Option<String>)
    ensures
        match parent {
            Some(p) => path_parent(path@) == Some(p@),
            None => path_parent(path@) is None,
        },
{
    match std::path::Path::new(path).parent() {
        Some(p) => Some(p.to_string_lossy().into_owned()),
        None => None,
    }
}

/// Calls `Path::file_name` and hands the answer back as text. The result is
/// taken to depend on the path alone.
#[verifier::external_body]
fn file_name_of(path: &str) -> (name: Option<String>)
    ensures
        match name {
            Some(n) => path_file_name(path@) == Some(n@),
            None => path_file_name(path@) is None,
        },
{
    match std::path::Path::new(path).file_name() {
        Some(n) => Some(n.to_string_lossy().into_owned()),
        None => None,
    }
}

/// Calls `Path::join` and hands the joined path back as text. The result is
/// taken to depend on the two paths alone.
#[verifier::external_body]
fn join(base: &str, tail: &str) -> (joined: String)
    ensures
        joined@ == path_join(base@, tail@),
{
    std::path::Path::new(base).join(tail).to_string_lossy().into_owned()
}

/// The name of the file that holds frame `index` of a timeline made at
/// `stamp`: distinct for every stamp and index.
pub open spec fn timeline_name(stamp: nat, index: nat) -> Seq<char> {
    "timeline_thumb_"@ + decimal(stamp) + "_"@ + decimal(index) + ".jpg"@
}

/// The name of the file that holds the preview frame made at `stamp`:
/// distinct for every stamp.
pub open spec fn preview_name(stamp: nat) -> Seq<char> {
    "thumb_"@ + decimal(stamp) + ".jpg"@
}

/// The path of the temporary file for frame `index` of a timeline.
pub open spec fn timeline_path(directory: Seq<char>, stamp: nat, index: nat) -> Seq<char> {
    path_join(directory, timeline_name(stamp, index))
}

/// The path of the temporary file for a preview frame.
pub open spec fn preview_path(directory: Seq<char>, stamp: nat) -> Seq<char> {
    path_join(directory, preview_name(stamp))
}

/// Where an excluded file goes: a folder named `Excluded` beside it, and in
/// that folder the file under its own name.
#[derive(Debug, PartialEq, Eq)]
pub struct Exclusion {
    /// The folder, which is created if it is not there.
    pub folder: String,
    /// The path to which the file moves.
    pub destination: String,
}

/// The mathematical content of an [`Exclusion`].
pub struct ExclusionView {
    pub folder: Seq<char>,
    pub destination: Seq<char>,
}

impl View for Exclusion {
    type V = ExclusionView;

    open spec fn view(&self) -> ExclusionView {
        ExclusionView { folder: self.folder@, destination: self.destination@ }
    }
}

/// The error for a path that names no file in a directory.
pub open spec fn no_component(message: Seq<char>) -> CommandErrorView {
    CommandErrorView { kind: ErrorKind::InvalidArgument, message }
}

/// The directory and the file name between which the `Excluded` folder is
/// put; a path without a parent, or else without a file name, is refused.
pub open spec fn exclusion_parts_of(
    parent: Option<Seq<char>>,
    file_name: Option<Seq<char>>,
) -> Result<(Seq<char>, Seq<char>), CommandErrorView> {
    match parent {
        None => Err(no_component("No parent directory"@)),
        Some(directory) => match file_name {
            None => Err(no_component("No filename"@)),
            Some(name) => Ok((directory, name)),
        },
    }
}

/// The plan for excluding the file at `path`.
pub open spec fn exclusion_of(path: Seq<char>) -> Result<ExclusionView, CommandErrorView> {
    match exclusion_parts_of(path_parent(path), path_file_name(path)) {
        Err(error) => Err(error),
        Ok((directory, name)) => Ok(
            ExclusionView {
                folder: path_join(directory, "Excluded"@),
                destination: path_join(path_join(directory, "Excluded"@), name),
            },
        ),
    }
}

/// Two numerals, each followed by the same text that starts with something
/// other than a digit, are the same where the whole texts are.
proof fn lemma_numeral_ends(a: nat, b: nat, rest_a: Seq<char>, rest_b: Seq<char>)
    requires
        decimal(a) + rest_a == decimal(b) + rest_b,
        rest_a.len() > 0 && !is_digit(rest_a[0]),
        rest_b.len() > 0 && !is_digit(rest_b[0]),
    ensures
        a == b,
        rest_a == rest_b,
{
    let left = decimal(a) + rest_a;
    let right = decimal(b) + rest_b;
    let la = decimal(a).len() as int;
    let lb = decimal(b).len() as int;
    lemma_decimal_digits(a);
    lemma_decimal_digits(b);
    if la < lb {
        assert(left[la] == rest_a[0]);
        assert(right[la] == decimal(b)[la]);
    }
    if lb < la {
        assert(right[lb] == rest_b[0]);
        assert(left[lb] == decimal(a)[lb]);
    }
    assert(decimal(a) =~= left.take(la));
    assert(decimal(b) =~= right.take(lb));
    assert(rest_a =~= left.skip(la));
    assert(rest_b =~= right.skip(lb));
    lemma_decimal_distinct(a, b);
}

/// The files of a timeline have names of their own: two names are the same
/// only where both the stamp and the index are.
pub proof fn lemma_timeline_names_distinct(
    stamp_a: nat,
    index_a: nat,
    stamp_b: nat,
    index_b: nat,
)
    requires
        timeline_name(stamp_a, index_a) == timeline_name(stamp_b, index_b),
    ensures
        stamp_a == stamp_b,
        index_a == index_b,
{
    reveal_strlit("_");
    reveal_strlit(".jpg");
    let head = "timeline_thumb_"@;
    let name_a = timeline_name(stamp_a, index_a);
    let name_b = timeline_name(stamp_b, index_b);
    let tail_a = decimal(index_a) + ".jpg"@;
    let tail_b = decimal(index_b) + ".jpg"@;
    let rest_a = "_"@ + tail_a;
    let rest_b = "_"@ + tail_b;
    assert(name_a =~= head + (decimal(stamp_a) + rest_a));
    assert(name_b =~= head + (decimal(stamp_b) + rest_b));
    assert(decimal(stamp_a) + rest_a =~= name_a.skip(head.len() as int));
    assert(decimal(stamp_b) + rest_b =~= name_b.skip(head.len() as int));
    lemma_numeral_ends(stamp_a, stamp_b, rest_a, rest_b);
    assert(tail_a =~= rest_a.skip(1));
    assert(tail_b =~= rest_b.skip(1));
    lemma_numeral_ends(index_a, index_b, ".jpg"@, ".jpg"@);
}

/// The files of previews have names of their own: two names are the same
/// only where the stamps are.
pub proof fn lemma_preview_names_distinct(stamp_a: nat, stamp_b: nat)
    requires
        preview_name(stamp_a) == preview_name(stamp_b),
    ensures
        stamp_a == stamp_b,
{
    reveal_strlit(".jpg");
    let head = "thumb_"@;
    let name_a = preview_name(stamp_a);
    let name_b = preview_name(stamp_b);
    assert(name_a =~= head + (decimal(stamp_a) + ".jpg"@));
    assert(name_b =~= head + (decimal(stamp_b) + ".jpg"@));
    assert(decimal(stamp_a) + ".jpg"@ =~= name_a.skip(head.len() as int));
    assert(decimal(stamp_b) + ".jpg"@ =~= name_b.skip(head.len() as int));
    lemma_numeral_ends(stamp_a, stamp_b, ".jpg"@, ".jpg"@);
}

/// The file name for frame `index` of a timeline made at `stamp`.
pub fn timeline_temp_name(stamp: u64, index: u32) -> (name: String)
    ensures
        name@ == timeline_name(stamp as nat, index as nat),
{
    let mut name = String::from_str("timeline_thumb_");
    append_decimal(&mut name, stamp);
    name.append("_");
    append_decimal(&mut name, index as u64);
    name.append(".jpg");
    name
}

/// The file name for the preview frame made at `stamp`.
pub fn preview_temp_name(stamp: u64) -> (name: String)
    ensures
        name@ == preview_name(stamp as nat),
{
    let mut name = String::from_str("thumb_");
    append_decimal(&mut name, stamp);
    name.append(".jpg");
    name
}

/// The path of the temporary file for frame `index` of a timeline made at
/// `stamp`, in `directory`.
pub fn timeline_temp_path(directory: &str, stamp: u64, index: u32) -> (path: String)
    ensures
        path@ == timeline_path(directory@, stamp as nat, index as nat),
{
    let name = timeline_temp_name(stamp, index);
    join(directory, name.as_str())
}

/// The path of the temporary file for the preview frame made at `stamp`, in
/// `directory`.
pub fn preview_temp_path(directory: &str, stamp: u64) -> (path: String)
    ensures
        path@ == preview_path(directory@, stamp as nat),
{
    let name = preview_temp_name(stamp);
    join(directory, name.as_str())
}

/// Decides between which directory and file name the `Excluded` folder is
/// put, given the parent and the final component of the file's path.
pub fn exclusion_parts(parent: Option<String>, file_name: Option<String>) -> (r: Result<
    (String, String),
    CommandError,
>)
    ensures
        match exclusion_parts_of(
            match parent {
                Some(p) => Some(p@),
                None => None,
            },
            match file_name {
                Some(n) => Some(n@),
                None => None,
            },
        ) {
            Ok(parts) => r matches Ok(found) && found.0@ == parts.0 && found.1@ == parts.1,
            Err(error) => r matches Err(e) && e@ == error,
        },
{
    match parent {
        None => Err(CommandError::new(ErrorKind::InvalidArgument, "No parent directory")),
        Some(directory) => match file_name {
            None => Err(CommandError::new(ErrorKind::InvalidArgument, "No filename")),
            Some(name) => Ok((directory, name)),
        },
    }
}

/// Plans the exclusion of the file at `path`: the folder to create and the
/// path to move the file to.
pub fn plan_exclusion(path: &str) -> (r: Result<Exclusion, CommandError>)
    ensures
        match exclusion_of(path@) {
            Ok(plan) => r matches Ok(found) && found@ == plan,
            Err(error) => r matches Err(e) && e@ == error,
        },
{
    let parent = parent_of(path);
    let file_name = file_name_of(path);
    match exclusion_parts(parent, file_name) {
        Err(e) => Err(e),
        Ok((directory, name)) => {
            let folder = join(directory.as_str(), "Excluded");
            let destination = join(folder.as_str(), name.as_str());
            Ok(Exclusion { folder, destination })
        },
    }
}

/// The error for an `Excluded` folder that could not be created.
pub open spec fn folder_failure(detail: Seq<char>) -> CommandErrorView {
    CommandErrorView {
        kind: ErrorKind::FilesystemFailure,
        message: "Failed to create Excluded folder: "@ + detail,
    }
}

/// The error for a file that could not be moved.
pub open spec fn move_failure(detail: Seq<char>) -> CommandErrorView {
    CommandErrorView {
        kind: ErrorKind::FilesystemFailure,
        message: "Failed to move file: "@ + detail,
    }
}

/// Whether to go on after the attempt to create the folder: a failure,
/// which carries its reason as text, ends the command.
pub fn folder_created(outcome: Result<(), String>) -> (r: Result<(), CommandError>)
    ensures
        match outcome {
            Ok(_) => r is Ok,
            Err(detail) => r matches Err(e) && e@ == folder_failure(detail@),
        },
{
    match outcome {
        Ok(_) => Ok(()),
        Err(detail) => Err(
            CommandError::with_detail(
                ErrorKind::FilesystemFailure,
                "Failed to create Excluded folder: ",
                detail.as_str(),
            ),
        ),
    }
}

/// The command's answer after the attempt to move the file: the path it now
/// has, or the failure, which carries its reason as text.
pub fn file_moved(plan: Exclusion, outcome: Result<(), String>) -> (r: Result<
    String,
    CommandError,
>)
    ensures
        match outcome {
            Ok(_) => r matches Ok(path) && path@ == plan@.destination,
            Err(detail) => r matches Err(e) && e@ == move_failure(detail@),
        },
{
    match outcome {
        Ok(_) => Ok(plan.destination),
        Err(detail) => Err(
            CommandError::with_detail(
                ErrorKind::FilesystemFailure,
                "Failed to move file: ",
                detail.as_str(),
            ),
        ),
    }
}

} // verus!
