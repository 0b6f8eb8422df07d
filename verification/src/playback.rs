//! Playing the audio of memos: what to check before the player is started,
//! and what to start it with.
//!
//! Looking for the files and starting the player are the caller's part. It
//! resolves each name under the directory of the recordings, notes whether
//! the file is there, and asks [`open`] what to do.

use vstd::prelude::*;
use vstd::string::StringExecFns;
use crate::error::MemoError;
use crate::record::texts;

verus! {

/// One recording that is to be played.
#[derive(Debug, PartialEq, Eq)]
pub struct AudioFile {
    /// The file's name, as the player is to be given it.
    pub name: String,
    /// The file's full path under the directory of the recordings.
    pub path: String,
    /// Whether a file was found at that path.
    pub exists: bool,
}

/// The argument that tells the player to leave when it has played the last
/// file.
pub open spec fn exit_flag() -> Seq<char> {
    "--play-and-exit"@
}

/// The names of the files, in order.
pub open spec fn file_names(files: Seq<AudioFile>) -> Seq<Seq<char>> {
    Seq::new(files.len(), |i: int| files[i].name@)
}

/// The recording at `at` is missing, and every one before it is there.
pub open spec fn first_missing(files: Seq<AudioFile>, at: int) -> bool {
    &&& 0 <= at < files.len()
    &&& !files[at].exists
    &&& forall|i: int| 0 <= i < at ==> (#[trigger] files[i]).exists
}

/// Every recording is there.
pub open spec fn all_exist(files: Seq<AudioFile>) -> bool {
    forall|i: int| 0 <= i < files.len() ==> (#[trigger] files[i]).exists
}

/// The arguments to start the player with, or the reason not to start it.
///
/// `supported` says whether this operating system is the one that playback
/// is offered on. Where it is, but a recording is missing, nothing is to be
/// played: the error names the path of the first one that is missing. Where
/// all are there, the player gets the flag that makes it leave at the end,
/// and then the names in order.
pub fn open(supported: bool, files: &Vec<AudioFile>) -> (r: Result<Vec<String>, MemoError>)
    ensures
        !supported ==> r matches Err(MemoError::Capability),
        supported ==> match r {
            Ok(args) => {
                &&& all_exist(files@)
                &&& texts(args@) == seq![exit_flag()] + file_names(files@)
            },
            Err(MemoError::FileNotFound(path)) => exists|at: int|
                first_missing(files@, at) && path@ == files@[at].path@,
            Err(_) => false,
        },
{
    if !supported {
        return Err(MemoError::Capability);
    }
    let mut args: Vec<String> = Vec::new();
    args.push(String::from_str("--play-and-exit"));
    let mut i: usize = 0;
    while i < files.len()
        invariant
            supported,
            i <= files.len(),
            args@.len() == i + 1,
            args@[0]@ == exit_flag(),
            forall|k: int| 0 <= k < i ==> (#[trigger] files@[k]).exists,
            forall|k: int| 0 <= k < i ==> (#[trigger] args@[k + 1])@ == files@[k].name@,
        decreases files.len() - i,
    {
        if !files[i].exists {
            proof {
                assert(first_missing(files@, i as int));
            }
            return Err(MemoError::FileNotFound(files[i].path.clone()));
        }
        args.push(files[i].name.clone());
        i += 1;
    }
    proof {
        assert(texts(args@) =~= seq![exit_flag()] + file_names(files@)) by {
            assert forall|k: int| 0 <= k < texts(args@).len() implies texts(args@)[k] == (seq![
                exit_flag(),
            ] + file_names(files@))[k] by {
                if k > 0 {
                    assert(args@[(k - 1) + 1]@ == files@[k - 1].name@);
                }
            }
        }
    }
    Ok(args)
}

} // verus!
