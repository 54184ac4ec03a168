//! The bundle pipeline: staging layout, project copy, runtime descriptor and
//! per-platform launchers. Each stage computes what is to be written; the
//! caller performs the filesystem work in stage order and stops at the first
//! failure.

use vstd::prelude::*;
use vstd::string::*;
use crate::error::BundleError;
use crate::text::{decimal, decimal_of};

verus! {

/// Options of one bundle build.
#[derive(Clone, Debug)]
pub struct BuildConfig {
    /// Platform tags to emit a launcher for, in order.
    pub target_platforms: Vec<String>,
    pub app_name: String,
    pub app_version: String,
    pub app_icon: Option<String>,
    pub window_width: u32,
    pub window_height: u32,
    /// Informational; not checked against the interpreter found.
    pub php_version: String,
    pub output_dir: String,
    /// Port that the launchers serve on. When absent the launchers serve on
    /// `window_width`, as configurations without this field always have;
    /// whether the window width was ever meant as a port is an open question.
    pub server_port: Option<u16>,
}

/// The platforms that a launcher can be emitted for.
#[derive(Clone, Copy, Debug, PartialEq, Eq, Structural)]
pub enum Platform {
    WindowsX64,
    MacosX64,
    MacosArm64,
    LinuxX64,
}

impl Platform {
    pub open spec fn spec_tag(self) -> Seq<char> {
        match self {
            Platform::WindowsX64 => "windows-x64"@,
            Platform::MacosX64 => "macos-x64"@,
            Platform::MacosArm64 => "macos-arm64"@,
            Platform::LinuxX64 => "linux-x64"@,
        }
    }

    /// The platform's tag in a build configuration.
    pub fn tag(&self) -> (r: String)
        ensures
            r@ == self.spec_tag(),
    {
        match self {
            Platform::WindowsX64 => String::from_str("windows-x64"),
            Platform::MacosX64 => String::from_str("macos-x64"),
            Platform::MacosArm64 => String::from_str("macos-arm64"),
            Platform::LinuxX64 => String::from_str("linux-x64"),
        }
    }
}

/// The platform that `tag` names, if any.
pub open spec fn platform_of(tag: Seq<char>) -> Option<Platform> {
    if tag == "windows-x64"@ {
        Some(Platform::WindowsX64)
    } else if tag == "macos-x64"@ {
        Some(Platform::MacosX64)
    } else if tag == "macos-arm64"@ {
        Some(Platform::MacosArm64)
    } else if tag == "linux-x64"@ {
        Some(Platform::LinuxX64)
    } else {
        None
    }
}

/// Reads a platform tag.
pub fn parse_platform(tag: &String) -> (r: Result<Platform, BundleError>)
    ensures
        match platform_of(tag@) {
            Some(p) => r == Ok::<Platform, BundleError>(p),
            None => r == Err::<Platform, BundleError>(BundleError::UnsupportedPlatform(*tag)),
        },
{
    if *tag == Platform::WindowsX64.tag() {
        Ok(Platform::WindowsX64)
    } else if *tag == Platform::MacosX64.tag() {
        Ok(Platform::MacosX64)
    } else if *tag == Platform::MacosArm64.tag() {
        Ok(Platform::MacosArm64)
    } else if *tag == Platform::LinuxX64.tag() {
        Ok(Platform::LinuxX64)
    } else {
        Err(BundleError::UnsupportedPlatform(tag.clone()))
    }
}

/// The port that the launchers of `c` serve on.
pub open spec fn launcher_port(c: BuildConfig) -> nat {
    match c.server_port {
        Some(p) => p as nat,
        None => c.window_width as nat,
    }
}

/// The Windows batch launcher: titles the console, moves to its own
/// directory, serves `app` and waits for a key.
pub open spec fn windows_launcher_text(c: BuildConfig) -> Seq<char> {
    "@echo off\ntitle "@ + c.app_name@ + "\ncd /d \"%~dp0\"\nphp -S localhost:"@
        + decimal_of(launcher_port(c)) + " -t app\npause\n"@
}

/// The POSIX shell launcher: moves to its own directory, announces the
/// server and serves `app`.
pub open spec fn posix_launcher_text(c: BuildConfig) -> Seq<char> {
    "#!/bin/bash\ncd \"$(dirname \"$0\")\"\necho \"Starting "@ + c.app_name@ + " Server...\"\nphp -S localhost:"@
        + decimal_of(launcher_port(c)) + " -t app\n"@
}

pub open spec fn launcher_text(p: Platform, c: BuildConfig) -> Seq<char> {
    match p {
        Platform::WindowsX64 => windows_launcher_text(c),
        _ => posix_launcher_text(c),
    }
}

/// The launcher's file name: `<app_name>.exe` on Windows, `<app_name>` elsewhere.
pub open spec fn launcher_file_name(p: Platform, c: BuildConfig) -> Seq<char> {
    match p {
        Platform::WindowsX64 => c.app_name@ + ".exe"@,
        _ => c.app_name@,
    }
}

fn port_text(config: &BuildConfig) -> (r: String)
    ensures
        r@ == decimal_of(launcher_port(*config)),
{
    match config.server_port {
        Some(p) => decimal(p as u32),
        None => decimal(config.window_width),
    }
}

/// The launcher script for Windows.
pub fn create_windows_launcher(config: &BuildConfig) -> (r: String)
    ensures
        r@ == windows_launcher_text(*config),
{
    let mut s = String::from_str("@echo off\ntitle ");
    s.append(config.app_name.as_str());
    s.append("\ncd /d \"%~dp0\"\nphp -S localhost:");
    let port = port_text(config);
    s.append(port.as_str());
    s.append(" -t app\npause\n");
    s
}

fn posix_launcher(config: &BuildConfig) -> (r: String)
    ensures
        r@ == posix_launcher_text(*config),
{
    let mut s = String::from_str("#!/bin/bash\ncd \"$(dirname \"$0\")\"\necho \"Starting ");
    s.append(config.app_name.as_str());
    s.append(" Server...\"\nphp -S localhost:");
    let port = port_text(config);
    s.append(port.as_str());
    s.append(" -t app\n");
    s
}

/// The launcher script for macOS.
pub fn create_macos_launcher(config: &BuildConfig) -> (r: String)
    ensures
        r@ == posix_launcher_text(*config),
{
    posix_launcher(config)
}

/// The launcher script for Linux.
pub fn create_linux_launcher(config: &BuildConfig) -> (r: String)
    ensures
        r@ == posix_launcher_text(*config),
{
    posix_launcher(config)
}

/// One launcher to be written: the directory to create, the file inside it,
/// its contents, and whether it is to be marked executable (mode 0755).
#[derive(Clone, Debug)]
pub struct LauncherArtifact {
    pub platform: Platform,
    pub dir: String,
    pub path: String,
    pub content: String,
    pub executable: bool,
}

/// `dir/name`.
pub open spec fn joined(dir: Seq<char>, name: Seq<char>) -> Seq<char> {
    dir + "/"@ + name
}

/// Joins a directory and an entry name with `/`.
pub fn join_path(dir: &str, name: &str) -> (r: String)
    ensures
        r@ == joined(dir@, name@),
{
    let mut s = String::from_str(dir);
    s.append("/");
    s.append(name);
    s
}

/// The directory that receives the launcher of platform tag `tag`.
pub open spec fn platform_dir_of(build_dir: Seq<char>, tag: Seq<char>) -> Seq<char> {
    joined(joined(build_dir, "dist"@), tag)
}

/// What is written for platform `p` under `build_dir`.
pub open spec fn artifact_matches(a: LauncherArtifact, build_dir: Seq<char>, p: Platform, c: BuildConfig) -> bool {
    &&& a.platform == p
    &&& a.dir@ == platform_dir_of(build_dir, p.spec_tag())
    &&& a.path@ == joined(a.dir@, launcher_file_name(p, c))
    &&& a.content@ == launcher_text(p, c)
    &&& a.executable == (p != Platform::WindowsX64)
}

/// Every tag of `tags` names a platform.
pub open spec fn all_supported(tags: Seq<String>) -> bool {
    forall|i: int| 0 <= i < tags.len() ==> (#[trigger] platform_of(tags[i]@)) is Some
}

/// The launcher artifact for one platform.
pub fn create_platform_executable(build_dir: &str, platform: Platform, config: &BuildConfig) -> (r: LauncherArtifact)
    ensures
        artifact_matches(r, build_dir@, platform, *config),
{
    let tag = platform.tag();
    let dist = join_path(build_dir, "dist");
    let dir = join_path(dist.as_str(), tag.as_str());
    let (name, content) = match platform {
        Platform::WindowsX64 => {
            let mut n = config.app_name.clone();
            n.append(".exe");
            (n, create_windows_launcher(config))
        },
        Platform::MacosX64 | Platform::MacosArm64 => (config.app_name.clone(), create_macos_launcher(config)),
        Platform::LinuxX64 => (config.app_name.clone(), create_linux_launcher(config)),
    };
    let path = join_path(dir.as_str(), name.as_str());
    let executable = match platform {
        Platform::WindowsX64 => false,
        _ => true,
    };
    LauncherArtifact { platform, dir, path, content, executable }
}

/// The launchers of every target platform, in the configured order. All tags
/// are checked before any launcher is produced, so an unsupported tag leaves
/// nothing to write, for any platform; the error names the first such tag.
pub fn create_executable(build_dir: &str, config: &BuildConfig) -> (r: Result<Vec<LauncherArtifact>, BundleError>)
    ensures
        match r {
            Ok(v) => {
                &&& all_supported(config.target_platforms@)
                &&& v@.len() == config.target_platforms@.len()
                &&& forall|i: int| 0 <= i < v@.len() ==> artifact_matches(#[trigger] v@[i], build_dir@,
                    platform_of(config.target_platforms@[i]@)->Some_0, *config)
            },
            Err(e) => exists|i: int|
                0 <= i < config.target_platforms@.len()
                && platform_of(#[trigger] config.target_platforms@[i]@) is None
                && all_supported(config.target_platforms@.subrange(0, i))
                && e == BundleError::UnsupportedPlatform(config.target_platforms@[i]),
        },
{
    let mut platforms: Vec<Platform> = Vec::new();
    let mut i: usize = 0;
    while i < config.target_platforms.len()
        invariant
            i <= config.target_platforms@.len(),
            platforms@.len() == i,
            forall|k: int| 0 <= k < i ==> platform_of(#[trigger] config.target_platforms@[k]@) == Some(platforms@[k]),
        decreases config.target_platforms@.len() - i,
    {
        match parse_platform(&config.target_platforms[i]) {
            Ok(p) => platforms.push(p),
            Err(e) => {
                assert(platform_of(config.target_platforms@[i as int]@) is None);
                assert(all_supported(config.target_platforms@.subrange(0, i as int))) by {
                    assert forall|k: int| 0 <= k < i implies (#[trigger] platform_of(config.target_platforms@.subrange(0, i as int)[k]@)) is Some by {
                        assert(config.target_platforms@.subrange(0, i as int)[k] == config.target_platforms@[k]);
                    }
                }
                assert(e == BundleError::UnsupportedPlatform(config.target_platforms@[i as int]));
                assert(platform_of(config.target_platforms@[i as int]@) is None);
                return Err(e);
            },
        }
        i = i + 1;
    }
    let mut out: Vec<LauncherArtifact> = Vec::new();
    let mut j: usize = 0;
    while j < platforms.len()
        invariant
            j <= platforms@.len(),
            platforms@.len() == config.target_platforms@.len(),
            out@.len() == j,
            forall|k: int| 0 <= k < config.target_platforms@.len() ==> platform_of(#[trigger] config.target_platforms@[k]@) == Some(platforms@[k]),
            forall|k: int| 0 <= k < j ==> artifact_matches(#[trigger] out@[k], build_dir@,
                platform_of(config.target_platforms@[k]@)->Some_0, *config),
        decreases platforms@.len() - j,
    {
        let a = create_platform_executable(build_dir, platforms[j], config);
        out.push(a);
        j = j + 1;
    }
    Ok(out)
}

/// Where a build of project `id` is staged.
pub open spec fn staging_root_of(id: Seq<char>) -> Seq<char> {
    "./build/"@ + id
}

/// Where the sources of project `id` are found.
pub open spec fn project_source_of(id: Seq<char>) -> Seq<char> {
    "./projects/"@ + id
}

/// The staging tree of one build: a root holding `app/`, `runtime/` and
/// `dist/`, and the path of the runtime descriptor.
#[derive(Clone, Debug)]
pub struct StagingLayout {
    pub root: String,
    pub app_dir: String,
    pub runtime_dir: String,
    pub dist_dir: String,
    pub descriptor_path: String,
}

pub open spec fn staging_matches(l: StagingLayout, root: Seq<char>) -> bool {
    &&& l.root@ == root
    &&& l.app_dir@ == joined(root, "app"@)
    &&& l.runtime_dir@ == joined(root, "runtime"@)
    &&& l.dist_dir@ == joined(root, "dist"@)
    &&& l.descriptor_path@ == joined(joined(root, "runtime"@), "php.conf"@)
}

/// The staging tree of a build of `project_id`. The caller removes any tree
/// already at `root`, then creates `root`, `app_dir`, `runtime_dir` and
/// `dist_dir`, so that every build starts from an empty tree.
pub fn prepare_build_environment(project_id: &str) -> (r: StagingLayout)
    ensures
        staging_matches(r, staging_root_of(project_id@)),
{
    let mut root = String::from_str("./build/");
    root.append(project_id);
    let app_dir = join_path(root.as_str(), "app");
    let runtime_dir = join_path(root.as_str(), "runtime");
    let dist_dir = join_path(root.as_str(), "dist");
    let descriptor_path = join_path(runtime_dir.as_str(), "php.conf");
    StagingLayout { root, app_dir, runtime_dir, dist_dir, descriptor_path }
}

/// The directory holding the sources of `project_id`.
pub fn project_source_dir(project_id: &str) -> (r: String)
    ensures
        r@ == project_source_of(project_id@),
{
    let mut s = String::from_str("./projects/");
    s.append(project_id);
    s
}

/// A recursive copy of `source` into `dest`.
#[derive(Clone, Debug)]
pub struct CopyJob {
    pub source: String,
    pub dest: String,
}

/// The copy of the sources of `project_id` into the `app/` subtree of
/// `build_dir`; fails when the sources are missing.
pub fn copy_project_files(project_id: &str, build_dir: &str, source_exists: bool) -> (r: Result<CopyJob, BundleError>)
    ensures
        match r {
            Ok(job) => source_exists && job.source@ == project_source_of(project_id@)
                && job.dest@ == joined(build_dir@, "app"@),
            Err(e) => !source_exists && e is CopyFailed,
        },
{
    if !source_exists {
        return Err(BundleError::CopyFailed(String::from_str("project source directory does not exist")));
    }
    let source = project_source_dir(project_id);
    let dest = join_path(build_dir, "app");
    Ok(CopyJob { source, dest })
}

/// One entry of a recursive copy: a directory to descend into, or a file to
/// copy, each from below the source directory to below the destination.
#[derive(Clone, Debug)]
pub enum CopyStep {
    Descend { source: String, dest: String },
    CopyFile { source: String, dest: String },
}

/// What a recursive copy of `source_dir` into `dest_dir` does with the entry
/// `name`.
pub fn copy_step(source_dir: &str, dest_dir: &str, name: &str, is_dir: bool) -> (r: CopyStep)
    ensures
        match r {
            CopyStep::Descend { source, dest } => is_dir && source@ == joined(source_dir@, name@)
                && dest@ == joined(dest_dir@, name@),
            CopyStep::CopyFile { source, dest } => !is_dir && source@ == joined(source_dir@, name@)
                && dest@ == joined(dest_dir@, name@),
        },
{
    let source = join_path(source_dir, name);
    let dest = join_path(dest_dir, name);
    if is_dir {
        CopyStep::Descend { source, dest }
    } else {
        CopyStep::CopyFile { source, dest }
    }
}

pub open spec fn nl() -> Seq<char> {
    seq!['\n']
}

/// The runtime descriptor: the probed version, the application's name,
/// version and output directory, then the probed extension list verbatim.
pub open spec fn descriptor_text(version: Seq<char>, extensions: Seq<char>, c: BuildConfig) -> Seq<char> {
    "[PHP Runtime Configuration]"@ + nl()
        + "version = "@ + version + nl()
        + "app_name = "@ + c.app_name@ + nl()
        + "app_version = "@ + c.app_version@ + nl()
        + "output_dir = "@ + c.output_dir@ + nl()
        + nl()
        + "[Extensions]"@ + nl()
        + extensions + nl()
}

/// Renders the runtime descriptor.
pub fn render_runtime_descriptor(version: &str, extensions: &str, config: &BuildConfig) -> (r: String)
    ensures
        r@ == descriptor_text(version@, extensions@, *config),
{
    proof {
        reveal_strlit("\n");
    }
    let mut s = String::from_str("[PHP Runtime Configuration]");
    s.append("\n");
    s.append("version = ");
    s.append(version);
    s.append("\n");
    s.append("app_name = ");
    s.append(config.app_name.as_str());
    s.append("\n");
    s.append("app_version = ");
    s.append(config.app_version.as_str());
    s.append("\n");
    s.append("output_dir = ");
    s.append(config.output_dir.as_str());
    s.append("\n");
    s.append("\n");
    s.append("[Extensions]");
    s.append("\n");
    s.append(extensions);
    s.append("\n");
    s
}

/// The runtime stage: with the interpreter's version check passed and both
/// probes answered, the descriptor to write; otherwise `RuntimeUnavailable`.
pub fn bundle_php_runtime(
    version_check_ok: bool,
    version: &Option<String>,
    extensions: &Option<String>,
    config: &BuildConfig,
) -> (r: Result<String, BundleError>)
    ensures
        match r {
            Ok(text) => version_check_ok && version is Some && extensions is Some
                && text@ == descriptor_text(version->Some_0@, extensions->Some_0@, *config),
            Err(e) => !(version_check_ok && version is Some && extensions is Some)
                && e == BundleError::RuntimeUnavailable,
        },
{
    if !version_check_ok {
        return Err(BundleError::RuntimeUnavailable);
    }
    match (version, extensions) {
        (Some(v), Some(x)) => Ok(render_runtime_descriptor(v.as_str(), x.as_str(), config)),
        _ => Err(BundleError::RuntimeUnavailable),
    }
}

/// `p` is `root` itself or lies below it.
pub open spec fn within(p: Seq<char>, root: Seq<char>) -> bool {
    p == root || (p.len() > root.len() && p.subrange(0, root.len() + 1 as int) == root + "/"@)
}

/// The paths of `fs` at or below `root`.
pub open spec fn tree_at(fs: Set<Seq<char>>, root: Seq<char>) -> Set<Seq<char>> {
    fs.filter(|p: Seq<char>| within(p, root))
}

/// The launcher paths that a build with configuration `c` staged under
/// `root` writes.
pub open spec fn launcher_paths(root: Seq<char>, c: BuildConfig) -> Set<Seq<char>> {
    Set::new(
        |p: Seq<char>|
            exists|i: int|
                0 <= i < c.target_platforms@.len() && #[trigger] platform_of(c.target_platforms@[i]@) is Some
                    && p == joined(
                    platform_dir_of(root, c.target_platforms@[i]@),
                    launcher_file_name(platform_of(c.target_platforms@[i]@)->Some_0, c),
                ),
    )
}

/// The platform directories that a build with configuration `c` staged
/// under `root` creates.
pub open spec fn platform_dirs(root: Seq<char>, c: BuildConfig) -> Set<Seq<char>> {
    Set::new(
        |p: Seq<char>|
            exists|i: int|
                0 <= i < c.target_platforms@.len() && #[trigger] platform_of(c.target_platforms@[i]@) is Some
                    && p == platform_dir_of(root, c.target_platforms@[i]@),
    )
}

/// Every path that a build of project `id` creates, given the relative paths
/// `sources` of the project's files.
pub open spec fn build_entries(id: Seq<char>, c: BuildConfig, sources: Set<Seq<char>>) -> Set<Seq<char>> {
    let root = staging_root_of(id);
    let app = joined(root, "app"@);
    set![root, app, joined(root, "runtime"@), joined(root, "dist"@),
        joined(joined(root, "runtime"@), "php.conf"@)]
        + sources.map(|r: Seq<char>| joined(app, r))
        + platform_dirs(root, c)
        + launcher_paths(root, c)
}

/// The filesystem `fs` after a build of project `id`: the staging tree is
/// removed, then every path of the build is created.
pub open spec fn after_build(fs: Set<Seq<char>>, id: Seq<char>, c: BuildConfig, sources: Set<Seq<char>>) -> Set<Seq<char>> {
    fs.filter(|p: Seq<char>| !within(p, staging_root_of(id))) + build_entries(id, c, sources)
}

/// After a build, the staging tree holds what that build created and
/// nothing left from before it.
pub proof fn lemma_staging_tree_is_fresh(fs: Set<Seq<char>>, id: Seq<char>, c: BuildConfig, sources: Set<Seq<char>>)
    ensures
        tree_at(after_build(fs, id, c, sources), staging_root_of(id))
            == tree_at(build_entries(id, c, sources), staging_root_of(id)),
{
    assert(tree_at(after_build(fs, id, c, sources), staging_root_of(id))
        =~= tree_at(build_entries(id, c, sources), staging_root_of(id)));
}

/// Two builds with the same inputs leave the same staging tree, whatever
/// the filesystem held before each; in particular building twice leaves
/// the tree of building once.
pub proof fn lemma_rebuild_same_tree(
    fs1: Set<Seq<char>>,
    fs2: Set<Seq<char>>,
    id: Seq<char>,
    c: BuildConfig,
    sources: Set<Seq<char>>,
)
    ensures
        tree_at(after_build(fs1, id, c, sources), staging_root_of(id))
            == tree_at(after_build(fs2, id, c, sources), staging_root_of(id)),
        tree_at(after_build(after_build(fs1, id, c, sources), id, c, sources), staging_root_of(id))
            == tree_at(after_build(fs1, id, c, sources), staging_root_of(id)),
{
    lemma_staging_tree_is_fresh(fs1, id, c, sources);
    lemma_staging_tree_is_fresh(fs2, id, c, sources);
    lemma_staging_tree_is_fresh(after_build(fs1, id, c, sources), id, c, sources);
}

} // verus!
