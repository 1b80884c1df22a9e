//! The read-file tool capability: its outcome is decided here from what the
//! filesystem reported; the surrounding program performs the actual read.

use vstd::prelude::*;

use crate::errors::ErrorKind;

verus! {

/// Deserialized parameters of the read tool.
pub struct Params {
    /// The relative path to a file to be read.
    pub path: String,
}

/// What the read tool returns for a target: the full text of an existing,
/// non-empty file; `NotAFile` when the path is missing or is a directory;
/// `EmptyContent` when the file decodes to zero-length text.
pub open spec fn read_spec(is_file: bool, contents: Seq<char>) -> Result<Seq<char>, ErrorKind> {
    if !is_file {
        Err(ErrorKind::NotAFile)
    } else if contents.len() == 0 {
        Err(ErrorKind::EmptyContent)
    } else {
        Ok(contents)
    }
}

/// The read-file tool capability.
pub struct FileReader {}

impl FileReader {
    /// The unique name the tool is registered and advertised under.
    pub fn name() -> (r: &'static str)
        ensures
            r@ == "read_file"@,
    {
        "read_file"
    }

    /// The description advertised to the model.
    pub fn description() -> (r: &'static str)
        ensures
            r@
                == "Read and return the contents of a file at the given path only when the contents of a file is needed. The given path must not be a directory."@,
    {
        "Read and return the contents of a file at the given path only when the contents of a file is needed. The given path must not be a directory."
    }

    /// Decide the tool's outcome from what the filesystem reported:
    /// whether the target is an existing regular file, and the text it holds.
    pub fn outcome(is_file: bool, contents: String) -> (r: Result<String, ErrorKind>)
        ensures
            r is Ok <==> read_spec(is_file, contents@) is Ok,
            r matches Ok(t) ==> read_spec(is_file, contents@) == Ok::<Seq<char>, ErrorKind>(t@),
            r matches Err(k) ==> read_spec(is_file, contents@) == Err::<Seq<char>, ErrorKind>(k),
    {
        if !is_file {
            Err(ErrorKind::NotAFile)
        } else if contents.as_str().unicode_len() == 0 {
            Err(ErrorKind::EmptyContent)
        } else {
            Ok(contents)
        }
    }
}

} // verus!
