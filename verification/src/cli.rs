//! Process configuration: the mount options derived from the command line,
//! and the mount-point validation decision.
//!
//! Argument parsing and the probing of the filesystem — whether the mount
//! point exists, is a directory, or is already mounted — happen outside the
//! library; the decisions on those facts are made here.

use vstd::prelude::*;

verus! {

/// The configuration surface of one mount session.
#[derive(Clone)]
pub struct CliArgs {
    /// Directory to mount the queue tree at.
    pub mount_point: String,
    /// Automatically unmount on process exit.
    pub auto_unmount: bool,
    /// Allow the root user to access the mounted tree.
    pub allow_root: bool,
    /// How long a cached queue listing stays fresh, in seconds.
    pub cache_ttl_in_secs: u64,
}

/// One option handed to the mount call.
pub enum MountOption {
    ReadWrite,
    FsName(String),
    AutoUnmount,
    AllowRoot,
}

impl CliArgs {
    /// The mount options this configuration asks for: always read-write with
    /// the filesystem name, then auto-unmount and root access when requested.
    pub fn build_options(&self) -> (r: Vec<MountOption>)
        ensures
            r@.len() == 2 + (if self.auto_unmount { 1int } else { 0int }) + (if self.allow_root {
                1int
            } else {
                0int
            }),
            r@[0] is ReadWrite,
            r@[1] matches MountOption::FsName(n) && n@ == "sqsfs"@,
            self.auto_unmount ==> r@[2] is AutoUnmount,
            self.allow_root ==> r@[r@.len() - 1] is AllowRoot,
    {
        let mut options: Vec<MountOption> = Vec::new();
        options.push(MountOption::ReadWrite);
        options.push(MountOption::FsName("sqsfs".to_owned()));
        if self.auto_unmount {
            options.push(MountOption::AutoUnmount);
        }
        if self.allow_root {
            options.push(MountOption::AllowRoot);
        }
        options
    }
}

/// Why a mount point was refused.
#[derive(Clone, Copy, Debug, PartialEq, Eq, Structural)]
pub enum MountPointError {
    AlreadyMounted,
    DoesNotExist,
    NotADirectory,
}

/// Whether one of the listed paths is this path.
pub open spec fn contains_path(paths: Seq<Seq<char>>, path: Seq<char>) -> bool {
    exists|i: int| 0 <= i < paths.len() && paths[i] == path
}

/// Whether the probed facts say the mount point is already mounted: only a
/// successfully read mount list can say so.
pub open spec fn already_mounted(mounted_paths: Option<Vec<String>>, path: Seq<char>) -> bool {
    match mounted_paths {
        Some(paths) => contains_path(paths.deep_view(), path),
        None => false,
    }
}

/// Decides whether the mount point may be mounted, from the probed facts:
/// the list of currently mounted paths (or nothing if it could not be read),
/// and whether the path exists and is a directory. An unreadable mount list
/// skips only the already-mounted check.
pub fn validate_mountpoint(
    mounted_paths: &Option<Vec<String>>,
    mount_point: &String,
    path_exists: bool,
    path_is_dir: bool,
) -> (r: Result<(), MountPointError>)
    ensures
        already_mounted(*mounted_paths, mount_point@) ==> r == Err::<(), MountPointError>(
            MountPointError::AlreadyMounted,
        ),
        !already_mounted(*mounted_paths, mount_point@) && !path_exists ==> r == Err::<
            (),
            MountPointError,
        >(MountPointError::DoesNotExist),
        !already_mounted(*mounted_paths, mount_point@) && path_exists && !path_is_dir ==> r == Err::<
            (),
            MountPointError,
        >(MountPointError::NotADirectory),
        !already_mounted(*mounted_paths, mount_point@) && path_exists && path_is_dir ==> r is Ok,
{
    if let Some(paths) = mounted_paths {
        let n = paths.len();
        for i in 0..n
            invariant
                n == paths.len(),
                *mounted_paths == Some(*paths),
                forall|j: int| 0 <= j < i ==> paths.deep_view()[j] != mount_point@,
        {
            if paths[i].eq(mount_point) {
                proof {
                    assert(paths.deep_view()[i as int] == mount_point@);
                    assert(contains_path(paths.deep_view(), mount_point@));
                }
                return Err(MountPointError::AlreadyMounted);
            }
            proof {
                assert(paths.deep_view()[i as int] == paths@[i as int]@);
            }
        }
    }
    if !path_exists {
        return Err(MountPointError::DoesNotExist);
    }
    if !path_is_dir {
        return Err(MountPointError::NotADirectory);
    }
    Ok(())
}

} // verus!
