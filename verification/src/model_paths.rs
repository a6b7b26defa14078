//! The safety rules for model paths: a model file (or its temporary file) is
//! never written through a symlink, and the model directory may hold no `..`
//! and no symlinked prefix. The file-system reads happen outside; the
//! decisions are taken here on what they found.
use vstd::prelude::*;
use crate::error::SpielError;
use crate::text::owned;

verus! {

/// What reading the metadata of a path (without following a symlink) found.
#[derive(Debug, Clone)]
pub enum PathProbe {
    /// Nothing is there.
    Missing,
    /// Something that is not a symlink is there.
    NotSymlink,
    /// A symlink is there.
    Symlink,
    /// The metadata could not be read; the error text.
    Unreadable { error: String },
}

/// Whether a model path is safe to write: a symlink is refused, a missing
/// path or any other file is accepted, and an unreadable one is refused.
/// `path` is the path as shown in messages, `label` names its role.
pub fn model_path_check(path: &str, label: &str, probe: PathProbe) -> (r: Result<(), SpielError>)
    ensures
        match probe {
            PathProbe::Missing | PathProbe::NotSymlink => r is Ok,
            PathProbe::Symlink => r matches Err(SpielError::Download(m)) && m@ == label@
                + " path is a symlink; refusing overwrite"@,
            PathProbe::Unreadable { error } => r matches Err(SpielError::Download(m)) && m@
                == "cannot check "@ + label@ + " path "@ + path@ + ": "@ + error@,
        },
{
    match probe {
        PathProbe::Missing | PathProbe::NotSymlink => Ok(()),
        PathProbe::Symlink => Err(
            SpielError::Download(owned(label).concat(" path is a symlink; refusing overwrite")),
        ),
        PathProbe::Unreadable { error } => Err(
            SpielError::Download(
                String::from_str("cannot check ").concat(label).concat(" path ").concat(path).concat(
                    ": ",
                ).concat(error.as_str()),
            ),
        ),
    }
}

/// One component of the model directory's path, in order.
#[derive(Debug, Clone)]
pub enum PathPart {
    /// `.`
    CurDir,
    /// `..`
    ParentDir,
    /// Any other component, with the path up to and including it (as shown
    /// in messages) and whether that prefix is a symlink.
    Other { prefix: String, prefix_is_symlink: bool },
}

/// Why a component refuses the path, if it does.
pub open spec fn part_refusal(p: PathPart) -> Option<Seq<char>> {
    match p {
        PathPart::CurDir => None,
        PathPart::ParentDir => Some("parent directory reference is not allowed in model path"@),
        PathPart::Other { prefix, prefix_is_symlink } => if prefix_is_symlink {
            Some("model path component "@ + prefix@ + " is a symlink"@)
        } else {
            None
        },
    }
}

/// The refusal of the first component that refuses, if any.
pub open spec fn first_refusal(parts: Seq<PathPart>) -> Option<Seq<char>>
    decreases parts.len(),
{
    if parts.len() == 0 {
        None
    } else {
        match part_refusal(parts[0]) {
            Some(m) => Some(m),
            None => first_refusal(parts.drop_first()),
        }
    }
}

/// Check the components of the model directory's path in order: `.` is
/// passed over, `..` is refused, and so is a prefix that is a symlink.
pub fn model_dir_parts_check(parts: &Vec<PathPart>) -> (r: Result<(), String>)
    ensures
        match first_refusal(parts@) {
            Some(m) => r matches Err(e) && e@ == m,
            None => r is Ok,
        },
{
    let mut i: usize = 0;
    assert(parts@.skip(0) =~= parts@);
    while i < parts.len()
        invariant
            i <= parts.len(),
            first_refusal(parts@) == first_refusal(parts@.skip(i as int)),
        decreases parts.len() - i,
    {
        assert(parts@.skip(i as int)[0] == parts@[i as int]);
        assert(parts@.skip(i as int).drop_first() =~= parts@.skip(i as int + 1));
        match &parts[i] {
            PathPart::CurDir => {},
            PathPart::ParentDir => {
                return Err(String::from_str("parent directory reference is not allowed in model path"));
            },
            PathPart::Other { prefix, prefix_is_symlink } => {
                if *prefix_is_symlink {
                    return Err(
                        String::from_str("model path component ").concat(prefix.as_str()).concat(
                            " is a symlink",
                        ),
                    );
                }
            },
        }
        i += 1;
    }
    assert(parts@.skip(i as int).len() == 0);
    Ok(())
}

} // verus!
