//! The list-directory tool capability: the listing text is computed and
//! specified here; the surrounding program enumerates the directory and
//! hands over the entries it could decode.

use vstd::prelude::*;

use crate::errors::ErrorKind;

verus! {

/// Deserialized parameters of the list tool.
pub struct Params {
    /// The relative path to list files from.
    pub path: String,
}

/// One immediate child of the listed directory, as the filesystem reported
/// it: its decoded name and whether it is itself a directory.
pub struct ListEntry {
    /// The entry's file name.
    pub name: String,
    /// Whether the entry is itself a directory.
    pub is_dir: bool,
}

/// The line the listing prints for one entry: the name, a `/` suffix when the
/// entry is a directory, and a line feed.
pub open spec fn entry_line(name: Seq<char>, is_dir: bool) -> Seq<char> {
    if is_dir {
        name + seq!['/', '\n']
    } else {
        name + seq!['\n']
    }
}

/// The listing text: one line per entry, in the order the entries were
/// reported.
pub open spec fn listing_spec(entries: Seq<ListEntry>) -> Seq<char>
    decreases entries.len(),
{
    if entries.len() == 0 {
        Seq::empty()
    } else {
        entry_line(entries[0].name@, entries[0].is_dir) + listing_spec(entries.skip(1))
    }
}

/// The list-directory tool capability.
pub struct ListFiles {}

impl ListFiles {
    /// The unique name the tool is registered and advertised under.
    pub fn name() -> (r: &'static str)
        ensures
            r@ == "list_files"@,
    {
        "list_files"
    }

    /// The description advertised to the model.
    pub fn description() -> (r: &'static str)
        ensures
            r@
                == "List files and directories at a given path. If no path is provided, lists files and directories in the current directory."@,
    {
        "List files and directories at a given path. If no path is provided, lists files and directories in the current directory."
    }

    /// Decide the tool's outcome from what the filesystem reported: whether
    /// the target is an existing directory, and its decodable children in
    /// enumeration order.
    pub fn outcome(is_dir: bool, entries: &Vec<ListEntry>) -> (r: Result<String, ErrorKind>)
        ensures
            !is_dir ==> r == Err::<String, ErrorKind>(ErrorKind::NotADirectory),
            is_dir ==> (r matches Ok(t) && t@ == listing_spec(entries@)),
    {
        if !is_dir {
            return Err(ErrorKind::NotADirectory);
        }
        let mut out = String::new();
        let mut i: usize = 0;
        proof {
            assert(entries@.skip(0) =~= entries@);
            assert(out@ + listing_spec(entries@) =~= listing_spec(entries@));
        }
        while i < entries.len()
            invariant
                0 <= i <= entries@.len(),
                listing_spec(entries@) == out@ + listing_spec(entries@.skip(i as int)),
            decreases entries@.len() - i,
        {
            proof {
                reveal_strlit("/");
                reveal_strlit("\n");
                assert(entries@.skip(i as int).skip(1) =~= entries@.skip(i as int + 1));
                assert("/"@ + "\n"@ =~= seq!['/', '\n']);
                assert("\n"@ =~= seq!['\n']);
            }
            let e = &entries[i];
            out.append(e.name.as_str());
            if e.is_dir {
                out.append("/");
            }
            out.append("\n");
            i = i + 1;
        }
        proof {
            assert(entries@.skip(entries@.len() as int) =~= Seq::<ListEntry>::empty());
            assert(out@ + listing_spec(Seq::<ListEntry>::empty()) =~= out@);
        }
        Ok(out)
    }
}

} // verus!
