//! Where the backend executable and its data root live.
//!
//! The host says what it knows of its surroundings; the places follow from
//! that alone. Nothing here looks at the disk.

use vstd::prelude::*;

verus! {

/// The executable, relative to the shell's sources, in a development build.
pub const DEV_BINARY: &'static str = "../../dist/pluto-duck-backend/pluto-duck-backend";

/// The executable, relative to the bundled resources, in a packaged build.
pub const PACKAGED_BINARY: &'static str = "_up_/_up_/dist/pluto-duck-backend/pluto-duck-backend";

/// The data directory, relative to the shell's sources, in a development build.
pub const DEV_DATA_DIR: &'static str = "../../.dev-data";

/// The shell's directory under the system's temporary directory.
pub const SHELL_NAME: &'static str = "pluto_duck";

/// The backend's directory under the shell's data directory.
pub const BACKEND_DIR: &'static str = "backend";

/// How the shell was built.
#[derive(Clone, Copy, Debug, PartialEq, Eq, Structural)]
pub enum BuildMode {
    /// Run from the source tree.
    Development,
    /// Installed from a bundle.
    Packaged,
}

/// What the host knows of its surroundings.
#[derive(Debug, PartialEq, Eq)]
pub struct HostDirs {
    pub mode: BuildMode,
    /// Where the shell's own sources are.
    pub source_dir: String,
    /// The platform's directory of bundled resources, if the host can name it.
    pub resource_dir: Option<String>,
    /// The current user's directory for this application's data, if the
    /// operating system gives one.
    pub app_data_dir: Option<String>,
    /// The system's directory for temporary files.
    pub temp_dir: String,
}

/// The path that `std::path::Path::join` makes of `base` and `tail`, both as
/// text, on the platform the library is built for.
pub uninterp spec fn joined(base: Seq<char>, tail: Seq<char>) -> Seq<char>;

/// The directory that `std::path::Path::parent` gives for `path`, as text, on
/// the platform the library is built for; `None` where it gives none.
pub uninterp spec fn parent_of(path: Seq<char>) -> Option<Seq<char>>;

/// Trusted, not proved: `std::path::Path::join`, on paths held as text. The
/// contract names the result `joined` of the two arguments and says nothing
/// else of it: what the platform's rules for separators, roots and prefixes
/// make of the two is not stated here.
#[verifier::external_body]
pub(crate) fn join(base: &str, tail: &str) -> (path: String)
    ensures
        path@ == joined(base@, tail@),
{
    std::path::Path::new(base).join(tail).to_string_lossy().into_owned()
}

/// Trusted, not proved: `std::path::Path::parent`, on a path held as text.
/// The contract names the result `parent_of` of the argument and says nothing
/// else of it.
#[verifier::external_body]
pub(crate) fn parent(path: &str) -> (dir: Option<String>)
    ensures
        dir.deep_view() == parent_of(path@),
{
    match std::path::Path::new(path).parent() {
        Some(dir) => Some(dir.to_string_lossy().into_owned()),
        None => None,
    }
}

/// Where the executable is expected, or `None` where a packaged shell has no
/// resource directory to look under.
pub open spec fn binary_place(host: &HostDirs) -> Option<Seq<char>> {
    match host.mode {
        BuildMode::Development => Some(joined(host.source_dir@, DEV_BINARY@)),
        BuildMode::Packaged => match host.resource_dir {
            Some(dir) => Some(joined(dir@, PACKAGED_BINARY@)),
            None => None,
        },
    }
}

/// The directory that the data root lies in.
pub open spec fn data_base(host: &HostDirs) -> Seq<char> {
    match host.mode {
        BuildMode::Development => joined(host.source_dir@, DEV_DATA_DIR@),
        BuildMode::Packaged => match host.app_data_dir {
            Some(dir) => dir@,
            None => joined(host.temp_dir@, SHELL_NAME@),
        },
    }
}

/// The data root.
pub open spec fn data_root_place(host: &HostDirs) -> Seq<char> {
    joined(data_base(host), BACKEND_DIR@)
}

/// The expected place of the backend executable: under the shell's sources in
/// a development build, under the bundled resources in a packaged one.
/// Whether anything is there is for the launch to find out.
pub fn backend_binary_path(host: &HostDirs) -> (path: Option<String>)
    ensures
        path.deep_view() == binary_place(host),
{
    match host.mode {
        BuildMode::Development => Some(join(host.source_dir.as_str(), DEV_BINARY)),
        BuildMode::Packaged => match &host.resource_dir {
            Some(dir) => Some(join(dir.as_str(), PACKAGED_BINARY)),
            None => None,
        },
    }
}

/// The data root: beside the sources in a development build; in a packaged
/// one under the user's application data, or under the temporary directory
/// where the operating system names none. There is always an answer.
pub fn resolve_data_root(host: &HostDirs) -> (root: String)
    ensures
        root@ == data_root_place(host),
{
    let base = match host.mode {
        BuildMode::Development => join(host.source_dir.as_str(), DEV_DATA_DIR),
        BuildMode::Packaged => match &host.app_data_dir {
            Some(dir) => dir.clone(),
            None => join(host.temp_dir.as_str(), SHELL_NAME),
        },
    };
    join(base.as_str(), BACKEND_DIR)
}

/// The data root is settled by what the host reports of its surroundings:
/// resolving it again, for a host that reports the same, gives the same
/// place.
pub proof fn data_root_is_settled_by_the_host(first: &HostDirs, second: &HostDirs)
    requires
        first.mode == second.mode,
        first.source_dir@ == second.source_dir@,
        first.app_data_dir.deep_view() == second.app_data_dir.deep_view(),
        first.temp_dir@ == second.temp_dir@,
    ensures
        data_root_place(first) == data_root_place(second),
{
}

} // verus!
