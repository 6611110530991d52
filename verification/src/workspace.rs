//! Workspace resolution: turning the directive's source path into an
//! absolute path and computing the two directories of the build workspace,
//! the per-source build directory and the per-caller cached output
//! directory.

use vstd::prelude::*;

verus! {

/// Configuration threaded in by the caller so that nothing is read from
/// ambient process state: the working directory against which relative
/// source paths are resolved, the user-level cache root, and the identity
/// of the compilation unit issuing the directive.
pub struct PipelineConfig {
    /// The caller's current working directory, an absolute path.
    pub working_dir: String,
    /// The user-level root under which per-caller output directories live.
    pub cache_root: String,
    /// The identifier of the compilation unit issuing the directive.
    pub unit_id: String,
}

/// The pair of directories isolating one directive's build state. Both are
/// created on demand by the host, create-if-absent, and persist across
/// invocations as the toolchain's incremental cache.
pub struct BuildWorkspace {
    /// Working directory for the toolchain: the source path joined with a
    /// fixed subdirectory name.
    pub build_dir: String,
    /// Output directory for built artifacts: the cache root joined with
    /// the compilation unit's identifier.
    pub output_dir: String,
}

/// A path is absolute when it starts with the path separator.
pub open spec fn spec_is_absolute(p: Seq<char>) -> bool {
    p.len() > 0 && p[0] == '/'
}

/// Joining a path onto a base: an absolute path replaces the base, a
/// relative one is appended behind a separator (none is added when the
/// base already ends in one).
pub open spec fn spec_join(base: Seq<char>, tail: Seq<char>) -> Seq<char> {
    if spec_is_absolute(tail) {
        tail
    } else if base.len() > 0 && base.last() == '/' {
        base + tail
    } else {
        base + "/"@ + tail
    }
}

/// The absolute form of the directive's source path, resolved against the
/// caller's working directory.
pub open spec fn spec_absolutize(working_dir: Seq<char>, p: Seq<char>) -> Seq<char> {
    spec_join(working_dir, p)
}

/// The build directory belonging to a source directory.
pub open spec fn spec_build_dir(source_abs: Seq<char>) -> Seq<char> {
    spec_join(source_abs, "cmake-build"@)
}

/// The output directory belonging to a compilation unit.
pub open spec fn spec_output_dir(cache_root: Seq<char>, unit_id: Seq<char>) -> Seq<char> {
    spec_join(cache_root, unit_id)
}

/// Joins a path onto a base, as [`spec_join`] says.
pub fn join_path(base: &str, tail: &str) -> (r: String)
    ensures
        r@ == spec_join(base@, tail@),
{
    let tail_len = tail.unicode_len();
    if tail_len > 0 && tail.get_char(0) == '/' {
        return String::from_str(tail);
    }
    let base_len = base.unicode_len();
    if base_len > 0 && base.get_char(base_len - 1) == '/' {
        return String::from_str(base).concat(tail);
    }
    String::from_str(base).concat("/").concat(tail)
}

/// Resolves a source path to its absolute form against the caller's
/// working directory.
pub fn absolutize(working_dir: &str, p: &str) -> (r: String)
    ensures
        r@ == spec_absolutize(working_dir@, p@),
{
    join_path(working_dir, p)
}

/// Computes the workspace of one directive evaluation from the absolute
/// source path and the caller's configuration. Pure path computation: the
/// directories are only created later, by the host, on the pipeline's
/// instruction.
pub fn resolve_workspace(source_abs: &str, config: &PipelineConfig) -> (w: BuildWorkspace)
    ensures
        w.build_dir@ == spec_build_dir(source_abs@),
        w.output_dir@ == spec_output_dir(config.cache_root@, config.unit_id@),
{
    BuildWorkspace {
        build_dir: join_path(source_abs, "cmake-build"),
        output_dir: join_path(config.cache_root.as_str(), config.unit_id.as_str()),
    }
}

} // verus!
