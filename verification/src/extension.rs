//! The editor extension's side: which server binary to start, and what to
//! fetch where none is at hand. Nothing here downloads or looks at a disk: the
//! extension asks its host and hands the answers in.

use vstd::prelude::*;
use vstd::string::*;
use crate::paths::{join_path, joined_path};
use crate::text::{opt_text, prefixed, starts_with};

verus! {

/// The operating systems that a binary is published for.
#[derive(Clone, Copy, Debug, PartialEq, Eq, Structural)]
pub enum Os {
    Mac,
    Linux,
    Windows,
}

/// The processor architectures that the host may report.
#[derive(Clone, Copy, Debug, PartialEq, Eq, Structural)]
pub enum Architecture {
    Aarch64,
    X86,
    X8664,
}

/// How a published binary is packed.
#[derive(Clone, Copy, Debug, PartialEq, Eq, Structural)]
pub enum ArchiveKind {
    GzipTar,
    Zip,
}

/// One file of a release.
#[derive(Debug, PartialEq, Eq)]
pub struct ReleaseAsset {
    /// The file's name.
    pub name: String,
    /// Where it can be fetched.
    pub download_url: String,
}

/// A published release.
#[derive(Debug, PartialEq, Eq)]
pub struct Release {
    /// The version it is tagged with.
    pub version: String,
    /// Its files.
    pub assets: Vec<ReleaseAsset>,
}

/// What an installation has to do.
#[derive(Debug, PartialEq, Eq)]
pub struct InstallPlan {
    /// Where the archive is fetched from.
    pub download_url: String,
    /// The directory that the archive is unpacked into.
    pub version_dir: String,
    /// The binary inside that directory.
    pub binary_path: String,
    /// How the archive is packed.
    pub archive: ArchiveKind,
}

/// Why no binary could be installed.
#[derive(Debug, PartialEq, Eq)]
pub enum InstallError {
    /// The host could not tell the latest release; its words.
    ReleaseUnavailable(String),
    /// No binary is published for 32-bit x86.
    UnsupportedArchitecture,
    /// The release has no file for this platform; the platform.
    NoCompatibleBinary(String),
    /// The download failed; the host's words.
    DownloadFailed(String),
    /// The binary could not be made executable; the host's words.
    NotExecutable(String),
}

/// The name of the server, of its binary, and the start of every file and
/// directory that belongs to it.
pub open spec fn lsp_name() -> Seq<char> {
    "codeowners-lsp"@
}

/// How an architecture is written in a file name; 32-bit x86 has no name.
pub open spec fn arch_text(arch: Architecture) -> Option<Seq<char>> {
    match arch {
        Architecture::Aarch64 => Some("aarch64"@),
        Architecture::X8664 => Some("x86_64"@),
        Architecture::X86 => None,
    }
}

/// How an operating system is written in a file name.
pub open spec fn os_text(os: Os) -> Seq<char> {
    match os {
        Os::Mac => "apple-darwin"@,
        Os::Linux => "unknown-linux-gnu"@,
        Os::Windows => "pc-windows-msvc"@,
    }
}

/// The ending of the archive for an operating system.
pub open spec fn archive_ending(os: Os) -> Seq<char> {
    match os {
        Os::Windows => "zip"@,
        _ => "tar.gz"@,
    }
}

/// How the archive for an operating system is packed.
pub open spec fn archive_kind_of(os: Os) -> ArchiveKind {
    match os {
        Os::Windows => ArchiveKind::Zip,
        _ => ArchiveKind::GzipTar,
    }
}

/// The platform as the file names write it: architecture, a hyphen, system.
pub open spec fn target_text(arch: Seq<char>, os: Os) -> Seq<char> {
    arch + "-"@ + os_text(os)
}

/// The name of the archive for a platform.
pub open spec fn asset_text(arch: Seq<char>, os: Os) -> Seq<char> {
    lsp_name() + "-"@ + target_text(arch, os) + "."@ + archive_ending(os)
}

/// The directory that a version is unpacked into.
pub open spec fn version_dir_text(version: Seq<char>) -> Seq<char> {
    lsp_name() + "-"@ + version
}

/// The name of the binary on an operating system.
pub open spec fn binary_name(os: Os) -> Seq<char> {
    match os {
        Os::Windows => "codeowners-lsp.exe"@,
        _ => lsp_name(),
    }
}

/// Whether a directory holds a version that is not the current one: its name
/// starts like the server's and is not the current directory's.
pub open spec fn stale(name: Seq<char>, version_dir: Seq<char>) -> bool {
    name != version_dir && lsp_name().is_prefix_of(name)
}

/// The binary to start when nothing has to be installed. A configured binary
/// comes first, then one on the search path, then the one installed last if it
/// is still there.
pub open spec fn chosen_binary(
    cached: Option<Seq<char>>,
    configured: Option<Seq<char>>,
    on_path: Option<Seq<char>>,
    cache_exists: bool,
) -> Option<Seq<char>> {
    match configured {
        Some(path) => Some(path),
        None => match on_path {
            Some(path) => Some(path),
            None => if cache_exists {
                cached
            } else {
                None
            },
        },
    }
}

/// Whether the file at place `i` is the first of that name.
pub open spec fn is_first_named(assets: Seq<ReleaseAsset>, wanted: Seq<char>, i: int) -> bool {
    &&& 0 <= i < assets.len()
    &&& assets[i].name@ == wanted
    &&& forall|j: int| 0 <= j < i ==> assets[j].name@ != wanted
}

/// Whether no file has that name.
pub open spec fn none_named(assets: Seq<ReleaseAsset>, wanted: Seq<char>) -> bool {
    forall|j: int| 0 <= j < assets.len() ==> assets[j].name@ != wanted
}

/// Whether `steps` install the release on the platform: the archive is the
/// first file of the platform's name, it is unpacked into the directory of the
/// version, and the binary lies in there.
pub open spec fn installs(steps: InstallPlan, release: Release, os: Os, arch: Seq<char>) -> bool {
    &&& exists|i: int| #[trigger]
        is_first_named(release.assets@, asset_text(arch, os), i) && steps.download_url@
            == release.assets@[i].download_url@
    &&& steps.version_dir@ == version_dir_text(release.version@)
    &&& steps.binary_path@ == joined_path(steps.version_dir@, binary_name(os))
    &&& steps.archive == archive_kind_of(os)
}

/// What planning an installation gives. Without a release there is nothing to
/// plan, whatever the platform. For 32-bit x86 nothing is published. Otherwise
/// the plan installs the release where it has a file for the platform, and the
/// error names the platform where it has none.
pub open spec fn planned(
    plan: Result<InstallPlan, InstallError>,
    release: Result<Release, String>,
    os: Os,
    arch: Architecture,
) -> bool {
    match release {
        Err(cause) => plan matches Err(InstallError::ReleaseUnavailable(words)) && words@
            == cause@,
        Ok(found) => match arch_text(arch) {
            None => plan == Err::<InstallPlan, InstallError>(
                InstallError::UnsupportedArchitecture,
            ),
            Some(text) => match plan {
                Ok(steps) => installs(steps, found, os, text),
                Err(InstallError::NoCompatibleBinary(target)) => target@ == target_text(text, os)
                    && none_named(found.assets@, asset_text(text, os)),
                Err(_) => false,
            },
        },
    }
}

/// How an architecture is written in a file name.
pub fn arch_name(arch: Architecture) -> (name: Option<String>)
    ensures
        opt_text(name) == arch_text(arch),
{
    match arch {
        Architecture::Aarch64 => Some(String::from_str("aarch64")),
        Architecture::X8664 => Some(String::from_str("x86_64")),
        Architecture::X86 => None,
    }
}

/// How an operating system is written in a file name.
pub fn os_name(os: Os) -> (name: String)
    ensures
        name@ == os_text(os),
{
    match os {
        Os::Mac => String::from_str("apple-darwin"),
        Os::Linux => String::from_str("unknown-linux-gnu"),
        Os::Windows => String::from_str("pc-windows-msvc"),
    }
}

/// How the archive for an operating system is packed.
pub fn archive_kind(os: Os) -> (kind: ArchiveKind)
    ensures
        kind == archive_kind_of(os),
{
    match os {
        Os::Windows => ArchiveKind::Zip,
        _ => ArchiveKind::GzipTar,
    }
}

/// The platform as the file names write it.
pub fn target_name(arch: &str, os: Os) -> (name: String)
    ensures
        name@ == target_text(arch@, os),
{
    let mut name = prefixed(arch, "-");
    name.append(os_name(os).as_str());
    name
}

/// The name of the archive for a platform; none is published for 32-bit x86.
pub fn asset_name(os: Os, arch: Architecture) -> (name: Result<String, InstallError>)
    ensures
        match arch_text(arch) {
            Some(text) => name matches Ok(file) && file@ == asset_text(text, os),
            None => name == Err::<String, InstallError>(InstallError::UnsupportedArchitecture),
        },
{
    match arch_name(arch) {
        Some(text) => {
            let mut file = prefixed("codeowners-lsp", "-");
            file.append(target_name(text.as_str(), os).as_str());
            file.append(".");
            match os {
                Os::Windows => file.append("zip"),
                _ => file.append("tar.gz"),
            }
            Ok(file)
        },
        None => Err(InstallError::UnsupportedArchitecture),
    }
}

/// The first file of that name among the files of a release.
pub fn find_asset(assets: &Vec<ReleaseAsset>, name: &str) -> (found: Option<usize>)
    ensures
        match found {
            Some(i) => is_first_named(assets@, name@, i as int),
            None => none_named(assets@, name@),
        },
{
    let wanted = String::from_str(name);
    let mut i: usize = 0;
    while i < assets.len()
        invariant
            i <= assets@.len(),
            wanted@ == name@,
            forall|j: int| 0 <= j < i ==> assets@[j].name@ != name@,
        decreases assets.len() - i,
    {
        if assets[i].name == wanted {
            return Some(i);
        }
        i = i + 1;
    }
    None
}

/// The directory that a version is unpacked into.
pub fn version_dir(version: &str) -> (dir: String)
    ensures
        dir@ == version_dir_text(version@),
{
    let mut dir = prefixed("codeowners-lsp", "-");
    dir.append(version);
    dir
}

/// The path of the binary inside the directory of its version.
pub fn binary_path(version_dir: &str, os: Os) -> (path: String)
    ensures
        path@ == joined_path(version_dir@, binary_name(os)),
{
    match os {
        Os::Windows => join_path(version_dir, "codeowners-lsp.exe"),
        _ => join_path(version_dir, "codeowners-lsp"),
    }
}

/// Whether a directory holds a version that is not the current one and can go.
pub fn is_stale(name: &str, version_dir: &str) -> (yes: bool)
    ensures
        yes == stale(name@, version_dir@),
{
    let same = String::from_str(name) == String::from_str(version_dir);
    !same && starts_with(name, "codeowners-lsp")
}

/// What has to be done to install the latest release on a platform.
/// `release` is what the host said of the latest release: the release, or why
/// it could not tell.
pub fn plan_install(release: Result<Release, String>, os: Os, arch: Architecture) -> (plan: Result<
    InstallPlan,
    InstallError,
>)
    ensures
        planned(plan, release, os, arch),
{
    let release = match release {
        Ok(release) => release,
        Err(cause) => {
            return Err(InstallError::ReleaseUnavailable(cause));
        },
    };
    let text = match arch_name(arch) {
        Some(text) => text,
        None => {
            return Err(InstallError::UnsupportedArchitecture);
        },
    };
    let wanted = match asset_name(os, arch) {
        Ok(wanted) => wanted,
        Err(error) => {
            return Err(error);
        },
    };
    match find_asset(&release.assets, wanted.as_str()) {
        None => Err(InstallError::NoCompatibleBinary(target_name(text.as_str(), os))),
        Some(i) => {
            let dir = version_dir(release.version.as_str());
            let path = binary_path(dir.as_str(), os);
            proof {
                assert(is_first_named(release.assets@, asset_text(text@, os), i as int));
            }
            Ok(
                InstallPlan {
                    download_url: release.assets[i].download_url.clone(),
                    version_dir: dir,
                    binary_path: path,
                    archive: archive_kind(os),
                },
            )
        },
    }
}

impl InstallError {
    /// The error as the user reads it.
    pub open spec fn message_text(&self) -> Seq<char> {
        match self {
            InstallError::ReleaseUnavailable(cause) => "Failed to fetch latest release: "@
                + cause@,
            InstallError::UnsupportedArchitecture => "x86 architecture is not supported"@,
            InstallError::NoCompatibleBinary(target) => "No compatible binary found for "@
                + target@,
            InstallError::DownloadFailed(cause) => "Failed to download binary: "@ + cause@,
            InstallError::NotExecutable(cause) => "Failed to make binary executable: "@ + cause@,
        }
    }

    /// The error as the user reads it.
    pub fn message(&self) -> (text: String)
        ensures
            text@ == self.message_text(),
    {
        match self {
            InstallError::ReleaseUnavailable(cause) => prefixed(
                "Failed to fetch latest release: ",
                cause.as_str(),
            ),
            InstallError::UnsupportedArchitecture => String::from_str(
                "x86 architecture is not supported",
            ),
            InstallError::NoCompatibleBinary(target) => prefixed(
                "No compatible binary found for ",
                target.as_str(),
            ),
            InstallError::DownloadFailed(cause) => prefixed(
                "Failed to download binary: ",
                cause.as_str(),
            ),
            InstallError::NotExecutable(cause) => prefixed(
                "Failed to make binary executable: ",
                cause.as_str(),
            ),
        }
    }
}

/// What the extension remembers between calls: the binary it installed last.
pub struct CodeownersExtension {
    binary_cache: Option<String>,
}

impl CodeownersExtension {
    /// The path of the binary that was installed last, if one was.
    pub closed spec fn cached(&self) -> Option<Seq<char>> {
        opt_text(self.binary_cache)
    }

    /// A fresh extension: nothing installed yet.
    pub fn new() -> (ext: Self)
        ensures
            ext.cached() is None,
    {
        CodeownersExtension { binary_cache: None }
    }

    /// The path of the binary that was installed last, if one was.
    pub fn cached_binary(&self) -> (path: Option<String>)
        ensures
            opt_text(path) == self.cached(),
    {
        match &self.binary_cache {
            Some(path) => Some(path.clone()),
            None => None,
        }
    }

    /// The binary to start, or `None` where one has to be installed first.
    /// `configured` is the binary that the user's settings name, `on_path` the
    /// one that the search path holds, and `cache_exists` says whether the file
    /// installed last is still there.
    pub fn get_binary(
        &self,
        configured: Option<String>,
        on_path: Option<String>,
        cache_exists: bool,
    ) -> (path: Option<String>)
        ensures
            opt_text(path) == chosen_binary(
                self.cached(),
                opt_text(configured),
                opt_text(on_path),
                cache_exists,
            ),
    {
        match configured {
            Some(path) => Some(path),
            None => match on_path {
                Some(path) => Some(path),
                None => if cache_exists {
                    self.cached_binary()
                } else {
                    None
                },
            },
        }
    }

    /// Ends an installation that went by `steps`. Where it went well, the
    /// binary is remembered as the one installed last and its path is the
    /// answer; where it failed, nothing is remembered anew and the error is
    /// handed on.
    pub fn install_binary(&mut self, steps: &InstallPlan, done: Result<(), InstallError>) -> (path:
        Result<String, InstallError>)
        ensures
            match done {
                Ok(_) => path matches Ok(binary) && binary@ == steps.binary_path@
                    && final(self).cached() == Some(steps.binary_path@),
                Err(error) => path == Err::<String, InstallError>(error) && final(self).cached()
                    == old(self).cached(),
            },
    {
        match done {
            Ok(_) => {
                self.binary_cache = Some(steps.binary_path.clone());
                Ok(steps.binary_path.clone())
            },
            Err(error) => Err(error),
        }
    }
}

} // verus!
