//! Safe-write policy: given a target file's current contents, the desired
//! contents and a write mode, decides what the file holds after the run and
//! whether anything changed. Create-only never modifies an existing file,
//! append never truncates, and overwrite — the only destructive mode — is
//! taken only on an explicit request.

use vstd::prelude::*;

verus! {

/// The three write dispositions for the target file.
#[derive(Clone, Copy, Debug)]
pub enum WriteMode {
    /// Write only where the target does not exist yet; never touch an
    /// existing file. This is the default.
    CreateOnly,
    /// Replace the target's full contents.
    Overwrite,
    /// Add the new contents to the end of the target.
    Append,
}

/// The caller set both the overwrite and the append flag; the two are
/// mutually exclusive and the request is rejected.
#[derive(Clone, Copy, Debug, PartialEq, Eq)]
pub struct ConflictingFlags;

/// What the target file holds after the write step, and whether its on-disk
/// state changed: a missing file is always created with the new contents;
/// an existing one is replaced under `Overwrite`, extended under `Append`,
/// and left exactly as it was under `CreateOnly`.
pub open spec fn spec_write_outcome(
    existing: Option<Seq<char>>,
    contents: Seq<char>,
    mode: WriteMode,
) -> (Seq<char>, bool) {
    match existing {
        None => (contents, true),
        Some(prev) => match mode {
            WriteMode::CreateOnly => (prev, false),
            WriteMode::Overwrite => (contents, true),
            WriteMode::Append => (prev + contents, true),
        },
    }
}

/// The view of the target's current contents: `None` where the file does not
/// exist.
pub open spec fn spec_existing(existing: Option<String>) -> Option<Seq<char>> {
    match existing {
        Some(prev) => Some(prev@),
        None => None,
    }
}

/// The write mode the two caller flags stand for, where they do not conflict.
pub open spec fn spec_mode(overwrite: bool, append: bool) -> WriteMode {
    if overwrite {
        WriteMode::Overwrite
    } else if append {
        WriteMode::Append
    } else {
        WriteMode::CreateOnly
    }
}

/// Derives the write mode from the caller's `overwrite` and `append` flags.
/// The flags are mutually exclusive: a request with both set is rejected.
pub fn mode_of(overwrite: bool, append: bool) -> (mode: Result<WriteMode, ConflictingFlags>)
    ensures
        mode is Ok <==> !(overwrite && append),
        mode is Ok ==> mode->Ok_0 == spec_mode(overwrite, append),
{
    if overwrite && append {
        Err(ConflictingFlags)
    } else if overwrite {
        Ok(WriteMode::Overwrite)
    } else if append {
        Ok(WriteMode::Append)
    } else {
        Ok(WriteMode::CreateOnly)
    }
}

/// The write step on one target file. `existing` is the file's current
/// contents (`None` where it does not exist), `contents` what the run wants
/// it to hold. Returns the file's new full contents and whether on-disk
/// state changes; the caller performs the actual replacement only when the
/// flag is set, and owes the user a warning in that case.
pub fn write_outcome(existing: &Option<String>, contents: &String, mode: &WriteMode) -> (outcome: (
    String,
    bool,
))
    ensures
        (outcome.0@, outcome.1) == spec_write_outcome(spec_existing(*existing), contents@, *mode),
{
    match existing {
        None => (contents.clone(), true),
        Some(prev) => match mode {
            WriteMode::CreateOnly => (prev.clone(), false),
            WriteMode::Overwrite => (contents.clone(), true),
            WriteMode::Append => {
                let mut merged = prev.clone();
                merged.append(contents.as_str());
                (merged, true)
            },
        },
    }
}

} // verus!
