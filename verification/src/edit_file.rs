//! The file-edit engine: the one tool capability with a real decision tree
//! (create-vs-patch, exact-match replacement, partial-failure exposure).
//!
//! The engine computes every decision and every piece of file content; the
//! surrounding program performs the filesystem actions the engine asks for
//! and reports their results back:
//!
//! * [`EditFile::begin`] rejects invalid requests and decides between the
//!   patch path (read the existing file first) and the create path (write the
//!   new text verbatim, making parent directories first when the path has a
//!   parent segment).
//! * [`EditFile::patch`] turns the text read from the existing file into
//!   either the exact content to write back or a not-found failure that
//!   leaves the file untouched.
//! * [`EditFile::finish_create`] / [`EditFile::finish_patch`] turn the
//!   reported result of the final write into the edit's outcome.

use vstd::prelude::*;

use crate::errors::ErrorKind;
use crate::read_file::read_spec;
use crate::text::{contains_char, contains_char_spec, law_missing_pattern_keeps_text,
    law_single_occurrence_replacement, occurs, occurs_at, replace_all, replace_seq, str_eq};

verus! {

/// Deserialized parameters of the edit tool.
pub struct Params {
    /// The path to the file.
    pub path: String,
    /// Text to search for; it must match exactly.
    pub old_str: String,
    /// Text to replace `old_str` with.
    pub new_str: String,
}

/// One request to the file-edit engine.
pub struct FileEditRequest {
    /// The path of the file to create or patch.
    pub path: String,
    /// The text to search for in an existing file.
    pub old_str: String,
    /// The replacement text, or the full content on the create path.
    pub new_str: String,
}

impl Params {
    /// The edit request this parameter set asks for.
    pub fn into_request(self) -> (r: FileEditRequest)
        ensures
            r.path@ == self.path@,
            r.old_str@ == self.old_str@,
            r.new_str@ == self.new_str@,
    {
        FileEditRequest { path: self.path, old_str: self.old_str, new_str: self.new_str }
    }
}

/// How one edit request ended.
pub enum FileEditOutcome {
    /// The target did not exist and was created with the new text.
    Created,
    /// The target existed and was overwritten with the replaced text.
    Patched,
    /// The request was invalid and nothing was done.
    NoOpRejected(String),
    /// The edit failed; the file was not changed unless the failure happened
    /// during the final write.
    Failed(ErrorKind, String),
}

/// What the caller must do next after handing a request to the engine.
pub enum EditStep {
    /// The outcome is already decided; nothing touches the disk.
    Finished(FileEditOutcome),
    /// The target exists: read its full text and hand it to [`EditFile::patch`].
    ReadTarget,
    /// The target does not exist: create the file with exactly `contents`
    /// and flush it, creating missing parent directories first when
    /// `make_dirs` is set, then report through [`EditFile::finish_create`].
    CreateTarget { make_dirs: bool, contents: String },
}

/// What the caller must do after the engine has seen the existing text.
pub enum PatchStep {
    /// The outcome is already decided; the file must be left untouched.
    Finished(FileEditOutcome),
    /// Overwrite the file with exactly `contents`, then report through
    /// [`EditFile::finish_patch`].
    WriteTarget { contents: String },
}

/// A request is rejected outright when the path is empty or the two texts
/// are equal, whether or not the target exists.
pub open spec fn edit_rejected(path: Seq<char>, old: Seq<char>, new: Seq<char>) -> bool {
    path.len() == 0 || old == new
}

/// The path names a parent directory segment that may have to be created.
pub open spec fn has_parent_segment(path: Seq<char>) -> bool {
    contains_char_spec(path, '/')
}

/// On the patch path, a non-empty search text that changes nothing was not
/// found in the file.
pub open spec fn patch_misses(contents: Seq<char>, old: Seq<char>, new: Seq<char>) -> bool {
    old.len() > 0 && replace_seq(contents, old, new) == contents
}

/// The edit/create tool capability.
pub struct EditFile {}

impl EditFile {
    /// The unique name the tool is registered and advertised under.
    pub fn name() -> (r: &'static str)
        ensures
            r@ == "edit_file"@,
    {
        "edit_file"
    }

    /// The description advertised to the model.
    pub fn description() -> (r: &'static str)
        ensures
            r@
                == "Make edits to a text file. Replaces 'old_str' with 'new_str' in the given file.\n'old_str' and 'new_str' Must be different from each other.\nIf the file specified doesn't exist, it will be created."@,
    {
        "Make edits to a text file. Replaces 'old_str' with 'new_str' in the given file.\n'old_str' and 'new_str' Must be different from each other.\nIf the file specified doesn't exist, it will be created."
    }

    /// Decide what to do with an edit request, given whether the target
    /// exists. Invalid requests are rejected whether or not it exists; an
    /// existing target is read first; a missing target is created with the
    /// new text verbatim, after any missing parent directories.
    pub fn begin(req: &FileEditRequest, exists: bool) -> (s: EditStep)
        ensures
            edit_rejected(req.path@, req.old_str@, req.new_str@) ==> (s
                matches EditStep::Finished(FileEditOutcome::NoOpRejected(m)) && m@
                == "input parameters were invalid"@),
            !edit_rejected(req.path@, req.old_str@, req.new_str@) && exists ==> s
                is ReadTarget,
            !edit_rejected(req.path@, req.old_str@, req.new_str@) && !exists ==> (s
                matches EditStep::CreateTarget { make_dirs, contents } && contents@
                == req.new_str@ && make_dirs == has_parent_segment(req.path@)),
    {
        if req.path.as_str().unicode_len() == 0 || str_eq(req.old_str.as_str(), req.new_str.as_str()) {
            return EditStep::Finished(
                FileEditOutcome::NoOpRejected(String::from_str("input parameters were invalid")),
            );
        }
        if exists {
            EditStep::ReadTarget
        } else {
            EditStep::CreateTarget {
                make_dirs: contains_char(req.path.as_str(), '/'),
                contents: req.new_str.clone(),
            }
        }
    }

    /// Decide the patch path from the text the existing file holds: either
    /// the exact replaced content to write back, or a not-found failure that
    /// leaves the file untouched.
    pub fn patch(req: &FileEditRequest, contents: &str) -> (s: PatchStep)
        ensures
            patch_misses(contents@, req.old_str@, req.new_str@) ==> (s
                matches PatchStep::Finished(FileEditOutcome::Failed(k, m)) && k is NotFound && m@
                == "old_str was not found in the file"@),
            !patch_misses(contents@, req.old_str@, req.new_str@) ==> (s
                matches PatchStep::WriteTarget { contents: w } && w@ == replace_seq(
                contents@,
                req.old_str@,
                req.new_str@,
            )),
    {
        let replaced = replace_all(contents, req.old_str.as_str(), req.new_str.as_str());
        if req.old_str.as_str().unicode_len() > 0 && str_eq(replaced.as_str(), contents) {
            PatchStep::Finished(
                FileEditOutcome::Failed(
                    ErrorKind::NotFound,
                    String::from_str("old_str was not found in the file"),
                ),
            )
        } else {
            PatchStep::WriteTarget { contents: replaced }
        }
    }

    /// The outcome of the create path, from the reported result of creating,
    /// writing and flushing the file.
    pub fn finish_create(write_error: Option<String>) -> (r: FileEditOutcome)
        ensures
            write_error is None ==> r is Created,
            write_error matches Some(e) ==> (r matches FileEditOutcome::Failed(k, m) && k
                is IOError && m@ == e@),
    {
        match write_error {
            None => FileEditOutcome::Created,
            Some(e) => FileEditOutcome::Failed(ErrorKind::IOError, e),
        }
    }

    /// The outcome of the patch path, from the reported result of
    /// overwriting the file.
    pub fn finish_patch(write_error: Option<String>) -> (r: FileEditOutcome)
        ensures
            write_error is None ==> r is Patched,
            write_error matches Some(e) ==> (r matches FileEditOutcome::Failed(k, m) && k
                is IOError && m@ == e@),
    {
        match write_error {
            None => FileEditOutcome::Patched,
            Some(e) => FileEditOutcome::Failed(ErrorKind::IOError, e),
        }
    }
}

/// Law: a non-empty search text that occurs nowhere in the file is reported
/// as not found, and the computed replacement is the file's text unchanged.
pub proof fn law_patch_missing_pattern(c: Seq<char>, o: Seq<char>, n: Seq<char>)
    requires
        o.len() > 0,
        !occurs(c, o),
    ensures
        patch_misses(c, o, n),
        replace_seq(c, o, n) == c,
{
    law_missing_pattern_keeps_text(c, o, n);
}

/// Law: when the search text occurs exactly once and the replacement text
/// differs from it, the patch is not a miss and the written content is the
/// file's text with that one occurrence substituted.
pub proof fn law_patch_single_occurrence(c: Seq<char>, o: Seq<char>, n: Seq<char>, i: int)
    requires
        o.len() > 0,
        n != o,
        occurs_at(c, o, i),
        forall|j: int| occurs_at(c, o, j) ==> j == i,
    ensures
        !patch_misses(c, o, n),
        replace_seq(c, o, n) == c.take(i) + n + c.skip(i + o.len() as int),
{
    law_single_occurrence_replacement(c, o, n, i);
}

/// Law: creating a fresh file round-trips through a read. A create request
/// with empty search text and non-empty content is not rejected, the engine
/// writes the content verbatim, and reading a file that holds exactly that
/// content returns it unchanged.
pub proof fn law_create_then_read(path: Seq<char>, new_str: Seq<char>)
    requires
        path.len() > 0,
        new_str.len() > 0,
    ensures
        !edit_rejected(path, Seq::<char>::empty(), new_str),
        read_spec(true, new_str) == Ok::<Seq<char>, ErrorKind>(new_str),
{
    assert(Seq::<char>::empty() != new_str);
}

} // verus!
