//! The install sequence as a state machine.
//!
//! An [`Install`] decides; the caller acts. Each call of [`Install::step`]
//! takes what the last action produced (an [`Event`]) and answers with the
//! next [`Action`]: resolve the version, make sure the client is not
//! running, remove stale version directories, check whether the version is
//! already installed (then only repair its settings), fetch the manifest,
//! download and extract each package, and finish the installation. Progress
//! percentages ride on the actions, never decrease, and end at 100.

use vstd::prelude::*;
use crate::error::{InstallError, ErrorView};
use crate::packages::{
    BinaryType,
    Os,
    executable_of,
    target_subpath,
    target_subpath_of,
    url_prefix_of,
    version_endpoint,
    version_file_url,
    wire_name_of,
};
use crate::manifest::{
    parse_manifest_bytes,
    choose_packages,
    chosen_packages,
    manifest_packages_of,
    text_lines,
};
use crate::store::{Sibling, prune_plan, pruned_names, views_of};
use crate::version::{parse_version_response, version_outcome, json_string_field};
use crate::text::utf8_lossy_of;
use crate::packages::is_studio_spec;
use crate::entry_path::{path_components, components};
use crate::text::same_text;

verus! {

/// Where an install stands.
#[derive(Clone, Copy, Debug, PartialEq, Eq, Structural)]
pub enum Phase {
    Resolving,
    CheckingRunning,
    Listing,
    Removing,
    CheckingExecutable,
    Repairing,
    FetchingManifest,
    Installing,
    Finalizing,
    Done,
    Failed,
}

/// What the caller observed while carrying out the last action.
pub enum Event {
    /// The version service answered with this status (as a number and as
    /// HTTP writes it) and body.
    VersionAnswer { status: u16, status_text: String, body: String },
    /// The request to the version service failed without an answer, for the
    /// reason `detail`.
    RequestFailed { detail: String },
    /// Whether a client process is running.
    Running(bool),
    /// The directories found beside the version directory.
    Versions(Vec<Sibling>),
    /// The stale directories were removed.
    Removed,
    /// Whether the executable exists.
    Executable(bool),
    /// The primary manifest's bytes, when it could be fetched.
    Manifest(Option<Vec<u8>>),
    /// The current package was handled, whether or not it could be
    /// downloaded and extracted.
    PackageDone,
    /// The settings were repaired or the installation finished.
    Written,
}

/// What the caller is to do next.
pub enum Action {
    /// Ask the version service at `url`.
    FetchVersion { url: String },
    /// Find out whether a client process is running.
    CheckRunning,
    /// List the directories beside the version directory.
    ListVersions,
    /// Remove these directories of the versions directory.
    RemoveVersions { names: Vec<String> },
    /// Find out whether the file at `path` (relative to the versions
    /// directory) exists.
    CheckExecutable { path: Vec<String> },
    /// Write the settings document of `version` where it is missing; the
    /// installation is then complete.
    RepairSettings { version: String, percent: u64 },
    /// Fetch the manifests at `urls` into the files `files` of the
    /// directory of `version`, the primary one first.
    FetchManifests { version: String, urls: Vec<String>, files: Vec<String>, percent: u64 },
    /// Download `package` from `url` and extract it into `target` (relative
    /// to the version directory).
    Download { package: String, url: String, target: String, percent: u64 },
    /// Write the auxiliary files of `version`: the settings document where
    /// `settings`, the client settings directory where `client_settings`.
    Finalize { version: String, settings: bool, client_settings: bool, percent: u64 },
    /// The installation is complete; its executable is at `executable`
    /// (relative to the versions directory).
    Finished { executable: Vec<String> },
    /// The installation failed.
    Fail { error: InstallError },
    /// The event does not belong to the current phase; nothing to do.
    Ignore,
}

/// The progress percentage an action reports, if any.
pub open spec fn percent_of(a: Action) -> Option<u64> {
    match a {
        Action::RepairSettings { percent, .. } => Some(percent),
        Action::FetchManifests { percent, .. } => Some(percent),
        Action::Download { percent, .. } => Some(percent),
        Action::Finalize { percent, .. } => Some(percent),
        _ => None,
    }
}

/// Progress after the package at index `i` of `n` has begun.
pub open spec fn package_percent(i: int, n: int) -> int {
    (i + 1) * 100 / n
}

/// The package that the installer never downloads.
pub open spec fn is_skipped_package(p: Seq<char>) -> bool {
    p == "WebView2RuntimeInstaller.zip"@
}

/// The first index from `k` on whose package is not skipped, or the end.
pub open spec fn next_wanted(ps: Seq<Seq<char>>, k: int) -> int
    decreases ps.len() - k,
{
    if k < ps.len() && is_skipped_package(ps[k]) {
        next_wanted(ps, k + 1)
    } else {
        k
    }
}

/// The executable's path relative to the versions directory.
pub open spec fn executable_components(version: Seq<char>, b: BinaryType) -> Seq<Seq<char>> {
    seq![version] + components(executable_of(b))
}

/// The phases before anything is downloaded.
pub open spec fn is_before_download(p: Phase) -> bool {
    match p {
        Phase::Resolving | Phase::CheckingRunning | Phase::Listing | Phase::Removing
        | Phase::CheckingExecutable | Phase::FetchingManifest => true,
        _ => false,
    }
}

/// The packages a fetched primary manifest lists; none when it could not
/// be fetched.
pub open spec fn listed_packages(bytes: Option<Vec<u8>>) -> Seq<Seq<char>> {
    match bytes {
        Some(b) => manifest_packages_of(text_lines(utf8_lossy_of(b@))),
        None => Seq::empty(),
    }
}

/// The address of the file `file` of `version` of `b`.
pub open spec fn file_url(b: BinaryType, version: Seq<char>, file: Seq<char>) -> Seq<char> {
    url_prefix_of(b) + "/"@ + version + "-"@ + file
}

/// One run of the installer for one binary type.
pub struct Install {
    binary: BinaryType,
    os: Os,
    phase: Phase,
    version: String,
    packages: Vec<String>,
    next: usize,
    last_percent: u64,
}

impl Install {
    pub closed spec fn binary_spec(&self) -> BinaryType {
        self.binary
    }

    pub closed spec fn os_spec(&self) -> Os {
        self.os
    }

    pub closed spec fn phase_spec(&self) -> Phase {
        self.phase
    }

    pub closed spec fn version_spec(&self) -> Seq<char> {
        self.version@
    }

    pub closed spec fn packages_spec(&self) -> Seq<Seq<char>> {
        self.packages.deep_view()
    }

    pub closed spec fn next_spec(&self) -> int {
        self.next as int
    }

    /// The last percentage reported.
    pub closed spec fn last_percent_spec(&self) -> u64 {
        self.last_percent
    }

    pub closed spec fn wf(&self) -> bool {
        &&& self.last_percent <= 100
        &&& self.next <= self.packages.len()
        &&& is_before_download(self.phase) ==> self.last_percent == 0
        &&& self.phase == Phase::Installing ==> self.next < self.packages.len()
            && self.last_percent == package_percent(self.next as int, self.packages.len() as int)
            && !is_skipped_package(self.packages.deep_view()[self.next as int])
    }

    /// Starts an install of `b` on `os`, with its first action.
    pub fn new(b: BinaryType, os: Os) -> (r: (Install, Action))
        ensures
            r.0.wf(),
            r.0.binary_spec() == b,
            r.0.last_percent_spec() == 0,
            (os == Os::Mac && (b == BinaryType::MacStudio || b == BinaryType::WindowsStudio
                || b == BinaryType::WindowsStudio64)) ==> r.0.phase_spec() == Phase::Failed
                && (r.1 matches Action::Fail { error } && error@ == ErrorView::Unsupported),
            !(os == Os::Mac && (b == BinaryType::MacStudio || b == BinaryType::WindowsStudio
                || b == BinaryType::WindowsStudio64)) ==> {
                &&& r.0.phase_spec() == Phase::Resolving
                &&& (r.1 matches Action::FetchVersion { url } && url@
                    == "https://clientsettings.roblox.com/v2/client-version/"@ + wire_name_of(b))
            },
    {
        let unsupported = match os {
            Os::Mac => b.is_studio(),
            _ => false,
        };
        let phase = if unsupported {
            Phase::Failed
        } else {
            Phase::Resolving
        };
        let install = Install {
            binary: b,
            os,
            phase,
            version: String::new(),
            packages: Vec::new(),
            next: 0,
            last_percent: 0,
        };
        if unsupported {
            (install, Action::Fail { error: InstallError::Unsupported })
        } else {
            (install, Action::FetchVersion { url: version_endpoint(b) })
        }
    }

    fn executable(&self) -> (r: Vec<String>)
        ensures
            r.deep_view() == executable_components(self.version@, self.binary),
    {
        let rest = path_components(self.binary.executable_path());
        let mut out: Vec<String> = Vec::new();
        out.push(self.version.clone());
        let mut i: usize = 0;
        while i < rest.len()
            invariant
                i <= rest.len(),
                out.deep_view() == seq![self.version@] + rest.deep_view().take(i as int),
            decreases rest.len() - i,
        {
            let ghost before = out.deep_view();
            out.push(rest[i].clone());
            assert(out.deep_view() =~= before.push(rest.deep_view()[i as int]));
            assert(out.deep_view() =~= seq![self.version@] + rest.deep_view().take(i + 1));
            i += 1;
        }
        assert(rest.deep_view().take(i as int) =~= rest.deep_view());
        out
    }

    /// The first package from index `k` on that is downloaded.
    fn skip_unwanted(&self, k: usize) -> (r: usize)
        requires
            k <= self.packages.len(),
        ensures
            r == next_wanted(self.packages.deep_view(), k as int),
            k <= r <= self.packages.len(),
            r < self.packages.len() ==> !is_skipped_package(self.packages.deep_view()[r as int]),
    {
        let ghost ps = self.packages.deep_view();
        let mut j: usize = k;
        while j < self.packages.len()
            invariant
                k <= j <= self.packages.len(),
                ps == self.packages.deep_view(),
                next_wanted(ps, j as int) == next_wanted(ps, k as int),
            ensures
                k <= j <= self.packages.len(),
                next_wanted(ps, j as int) == next_wanted(ps, k as int),
                j < self.packages.len() ==> !is_skipped_package(ps[j as int]),
            decreases self.packages.len() - j,
        {
            assert(self.packages[j as int]@ == ps[j as int]);
            if !same_text(self.packages[j].as_str(), "WebView2RuntimeInstaller.zip") {
                break;
            }
            j += 1;
        }
        j
    }

    /// The action that starts on the package at `self.next`, or finishes
    /// when none is left.
    fn begin_package(&mut self) -> (r: Action)
        requires
            old(self).next <= old(self).packages.len(),
            old(self).last_percent <= 100,
            old(self).next < old(self).packages.len() ==> old(self).last_percent <= package_percent(
                old(self).next as int,
                old(self).packages.len() as int,
            ) && !is_skipped_package(old(self).packages.deep_view()[old(self).next as int]),
        ensures
            final(self).wf(),
            final(self).binary == old(self).binary,
            final(self).os == old(self).os,
            final(self).version == old(self).version,
            final(self).packages == old(self).packages,
            final(self).next == old(self).next,
            percent_of(r) matches Some(p) && old(self).last_percent <= p
                && final(self).last_percent == p,
            old(self).next < old(self).packages.len() ==> {
                &&& final(self).phase == Phase::Installing
                &&& (r matches Action::Download { package, url, target, percent } && package@
                    == old(self).packages.deep_view()[old(self).next as int] && url@
                    == url_prefix_of(old(self).binary) + "/"@ + old(self).version@ + "-"@ + package@
                    && target@ == target_subpath_of(package@))
            },
            r matches Action::Finalize { version, settings, client_settings, .. } ==> {
                &&& version@ == old(self).version@
                &&& settings == (old(self).os == Os::Windows)
                &&& client_settings == (old(self).os == Os::Windows && old(self).binary
                    == BinaryType::WindowsPlayer)
            },
            old(self).next == old(self).packages.len() ==> {
                &&& final(self).phase == Phase::Finalizing
                &&& (r matches Action::Finalize { percent, .. } && percent == 100)
            },
    {
        let n = self.packages.len();
        if self.next < n {
            let i = self.next;
            let num: u128 = (i as u128 + 1) * 100;
            let q: u128 = num / (n as u128);
            assert(q <= 100) by (nonlinear_arith)
                requires
                    i < n,
                    num == (i + 1) * 100,
                    q as int == num as int / n as int,
            ;
            let percent = q as u64;
            let package = self.packages[i].clone();
            assert(package@ == self.packages.deep_view()[i as int]);
            let url = version_file_url(self.binary, self.version.as_str(), package.as_str());
            let target = String::from_str(target_subpath(package.as_str()));
            self.phase = Phase::Installing;
            self.last_percent = percent;
            Action::Download { package, url, target, percent }
        } else {
            let settings = match self.os {
                Os::Windows => true,
                _ => false,
            };
            let client_settings = settings && match self.binary {
                BinaryType::WindowsPlayer => true,
                _ => false,
            };
            self.phase = Phase::Finalizing;
            self.last_percent = 100;
            Action::Finalize {
                version: self.version.clone(),
                settings,
                client_settings,
                percent: 100,
            }
        }
    }

    /// Takes the outcome of the last action and returns the next one.
    pub fn step(&mut self, ev: Event) -> (r: Action)
        requires
            old(self).wf(),
        ensures
            final(self).wf(),
            final(self).binary_spec() == old(self).binary_spec(),
            final(self).os_spec() == old(self).os_spec(),
            old(self).phase_spec() != Phase::Resolving ==> final(self).version_spec() == old(
                self,
            ).version_spec(),
            (old(self).phase_spec() == Phase::Resolving && (ev matches Event::VersionAnswer {
                ..
            })) ==> match ev {
                Event::VersionAnswer { status, status_text, body } => {
                    let outcome = version_outcome(
                        status,
                        status_text@,
                        json_string_field(body@, "clientVersionUpload"@),
                    );
                    &&& outcome is Ok ==> final(self).phase_spec() == Phase::CheckingRunning
                        && final(self).version_spec() == outcome->Ok_0 && r is CheckRunning
                    &&& outcome is Err ==> final(self).phase_spec() == Phase::Failed && (
                    r matches Action::Fail { error } && error@ == outcome->Err_0)
                },
                _ => true,
            },
            (old(self).phase_spec() == Phase::Resolving && (ev matches Event::RequestFailed {
                ..
            })) ==> match (ev, r) {
                (Event::RequestFailed { detail }, Action::Fail { error }) => final(self).phase_spec()
                    == Phase::Failed && error@ == (ErrorView::Request { detail: detail@ }),
                _ => false,
            },
            (old(self).phase_spec() == Phase::CheckingRunning && (ev matches Event::Running(true)))
                ==> final(self).phase_spec() == Phase::Failed && (r matches Action::Fail { error }
                && error@ == ErrorView::Precondition),
            (old(self).phase_spec() == Phase::CheckingRunning && (ev matches Event::Running(false)))
                ==> final(self).phase_spec() == Phase::Listing && r is ListVersions,
            (old(self).phase_spec() == Phase::Listing && (ev matches Event::Versions(s))) ==> {
                &&& final(self).phase_spec() == Phase::Removing
                &&& match (ev, r) {
                    (Event::Versions(s), Action::RemoveVersions { names }) => names.deep_view()
                        == pruned_names(
                        views_of(s@),
                        old(self).version_spec(),
                        is_studio_spec(old(self).binary_spec()),
                    ),
                    _ => false,
                }
            },
            (old(self).phase_spec() == Phase::Removing && ev is Removed) ==> {
                &&& final(self).phase_spec() == Phase::CheckingExecutable
                &&& (r matches Action::CheckExecutable { path } && path.deep_view()
                    == executable_components(old(self).version_spec(), old(self).binary_spec()))
            },
            (old(self).phase_spec() == Phase::CheckingExecutable && (ev matches Event::Executable(
                false,
            ))) ==> {
                &&& final(self).phase_spec() == Phase::FetchingManifest
                &&& (r matches Action::FetchManifests { urls, percent, .. } && percent == 0
                    && urls.deep_view() == seq![
                    file_url(old(self).binary_spec(), old(self).version_spec(), "rbxPkgManifest.txt"@),
                    file_url(old(self).binary_spec(), old(self).version_spec(), "rbxManifest.txt"@),
                ])
            },
            (old(self).phase_spec() == Phase::FetchingManifest && (ev matches Event::Manifest(b)))
                ==> {
                &&& final(self).packages_spec() == chosen_packages(
                    match ev {
                        Event::Manifest(b) => listed_packages(b),
                        _ => Seq::empty(),
                    },
                    old(self).os_spec(),
                    old(self).binary_spec(),
                )
                &&& final(self).next_spec() == next_wanted(final(self).packages_spec(), 0)
                &&& if final(self).next_spec() < final(self).packages_spec().len() {
                    r is Download
                } else {
                    r is Finalize
                }
            },
            (old(self).phase_spec() == Phase::Installing && ev is PackageDone) ==> {
                &&& final(self).packages_spec() == old(self).packages_spec()
                &&& final(self).next_spec() == next_wanted(
                    old(self).packages_spec(),
                    old(self).next_spec() + 1,
                )
                &&& if final(self).next_spec() < final(self).packages_spec().len() {
                    r is Download
                } else {
                    r is Finalize
                }
            },
            match percent_of(r) {
                Some(p) => old(self).last_percent_spec() <= p && final(self).last_percent_spec() == p,
                None => final(self).last_percent_spec() == old(self).last_percent_spec(),
            },
            r matches Action::Finalize { percent, .. } ==> percent == 100,
            r matches Action::Finalize { version, settings, client_settings, .. } ==> {
                &&& version@ == final(self).version_spec()
                &&& settings == (final(self).os_spec() == Os::Windows)
                &&& client_settings == (final(self).os_spec() == Os::Windows
                    && final(self).binary_spec() == BinaryType::WindowsPlayer)
            },
            old(self).phase_spec() == Phase::Done ==> r is Ignore && final(self).phase_spec()
                == Phase::Done,
            old(self).phase_spec() == Phase::Failed ==> r is Ignore && final(self).phase_spec()
                == Phase::Failed,
            (old(self).phase_spec() == Phase::CheckingExecutable && (ev matches Event::Executable(
                true,
            ))) ==> {
                &&& final(self).phase_spec() == Phase::Repairing
                &&& (r matches Action::RepairSettings { version, percent } && version@
                    == old(self).version_spec() && percent == 100)
            },
            (old(self).phase_spec() == Phase::Finalizing && ev is Written) ==> {
                &&& final(self).phase_spec() == Phase::Done
                &&& (r matches Action::Finished { executable } && executable.deep_view()
                    == executable_components(old(self).version_spec(), old(self).binary_spec()))
            },
            (old(self).phase_spec() == Phase::Repairing && ev is Written) ==> {
                &&& final(self).phase_spec() == Phase::Done
                &&& (r matches Action::Finished { executable } && executable.deep_view()
                    == executable_components(old(self).version_spec(), old(self).binary_spec()))
            },
            old(self).phase_spec() == Phase::Repairing && !(ev is Written) ==> r is Ignore
                && final(self).phase_spec() == Phase::Repairing,
            r matches Action::Download { package, url, target, percent } ==> {
                &&& final(self).phase_spec() == Phase::Installing
                &&& 0 <= final(self).next_spec() < final(self).packages_spec().len()
                &&& percent == package_percent(
                    final(self).next_spec(),
                    final(self).packages_spec().len() as int,
                )
                &&& percent <= 100
                &&& package@ == final(self).packages_spec()[final(self).next_spec()]
                &&& url@ == url_prefix_of(final(self).binary_spec()) + "/"@
                    + final(self).version_spec() + "-"@ + package@
                &&& target@ == target_subpath_of(package@)
            },
    {
        match self.phase {
            Phase::Resolving => match ev {
                Event::VersionAnswer { status, status_text, body } => {
                    match parse_version_response(status, status_text, body.as_str()) {
                        Ok(v) => {
                            self.version = v;
                            self.phase = Phase::CheckingRunning;
                            Action::CheckRunning
                        },
                        Err(error) => {
                            self.phase = Phase::Failed;
                            Action::Fail { error }
                        },
                    }
                },
                Event::RequestFailed { detail } => {
                    self.phase = Phase::Failed;
                    Action::Fail { error: InstallError::Request { detail } }
                },
                _ => Action::Ignore,
            },
            Phase::CheckingRunning => match ev {
                Event::Running(true) => {
                    self.phase = Phase::Failed;
                    Action::Fail { error: InstallError::Precondition }
                },
                Event::Running(false) => {
                    self.phase = Phase::Listing;
                    Action::ListVersions
                },
                _ => Action::Ignore,
            },
            Phase::Listing => match ev {
                Event::Versions(siblings) => {
                    let names = prune_plan(&siblings, self.version.as_str(), self.binary);
                    self.phase = Phase::Removing;
                    Action::RemoveVersions { names }
                },
                _ => Action::Ignore,
            },
            Phase::Removing => match ev {
                Event::Removed => {
                    self.phase = Phase::CheckingExecutable;
                    Action::CheckExecutable { path: self.executable() }
                },
                _ => Action::Ignore,
            },
            Phase::CheckingExecutable => match ev {
                Event::Executable(true) => {
                    self.phase = Phase::Repairing;
                    self.last_percent = 100;
                    Action::RepairSettings { version: self.version.clone(), percent: 100 }
                },
                Event::Executable(false) => {
                    let primary = version_file_url(
                        self.binary,
                        self.version.as_str(),
                        "rbxPkgManifest.txt",
                    );
                    let secondary = version_file_url(
                        self.binary,
                        self.version.as_str(),
                        "rbxManifest.txt",
                    );
                    let mut urls: Vec<String> = Vec::new();
                    urls.push(primary);
                    urls.push(secondary);
                    let mut files: Vec<String> = Vec::new();
                    files.push(String::from_str("rbxPkgManifest.txt"));
                    files.push(String::from_str("rbxManifest.txt"));
                    self.phase = Phase::FetchingManifest;
                    Action::FetchManifests { version: self.version.clone(), urls, files, percent: 0 }
                },
                _ => Action::Ignore,
            },
            Phase::Repairing => match ev {
                Event::Written => {
                    self.phase = Phase::Done;
                    Action::Finished { executable: self.executable() }
                },
                _ => Action::Ignore,
            },
            Phase::FetchingManifest => match ev {
                Event::Manifest(bytes) => {
                    let listed = match bytes {
                        Some(b) => parse_manifest_bytes(b.as_slice()),
                        None => Vec::new(),
                    };
                    self.packages = choose_packages(listed, self.os, self.binary);
                    let first = self.skip_unwanted(0);
                    self.next = first;
                    self.begin_package()
                },
                _ => Action::Ignore,
            },
            Phase::Installing => match ev {
                Event::PackageDone => {
                    let n = self.packages.len();
                    let following = self.skip_unwanted(self.next + 1);
                    proof {
                        if following < n {
                            let i = self.next as int;
                            let j = following as int;
                            lemma_package_percent_monotone(i, j, n as int);
                        }
                    }
                    self.next = following;
                    self.begin_package()
                },
                _ => Action::Ignore,
            },
            Phase::Finalizing => match ev {
                Event::Written => {
                    self.phase = Phase::Done;
                    Action::Finished { executable: self.executable() }
                },
                _ => Action::Ignore,
            },
            Phase::Done => Action::Ignore,
            Phase::Failed => Action::Ignore,
        }
    }
}

/// Package progress never decreases, stays within 100, and reaches exactly
/// 100 with the last package.
pub proof fn lemma_package_percent_monotone(i: int, j: int, n: int)
    requires
        0 <= i <= j < n,
    ensures
        0 <= package_percent(i, n) <= package_percent(j, n) <= 100,
        package_percent(n - 1, n) == 100,
{
    assert(0 <= (i + 1) * 100 / n <= (j + 1) * 100 / n <= 100) by (nonlinear_arith)
        requires
            0 <= i <= j < n,
    ;
    assert(n * 100 / n == 100) by (nonlinear_arith)
        requires
            n > 0,
    ;
}

/// The settings document written beside the executable.
pub fn settings_document() -> (r: &'static str)
    ensures
        r@ == "<?xml version=\"1.0\" encoding=\"UTF-8\"?>\n<Settings>\n    <ContentFolder>content</ContentFolder>\n    <BaseUrl>http://www.roblox.com</BaseUrl>\n</Settings>"@,
{
    "<?xml version=\"1.0\" encoding=\"UTF-8\"?>\n<Settings>\n    <ContentFolder>content</ContentFolder>\n    <BaseUrl>http://www.roblox.com</BaseUrl>\n</Settings>"
}

/// The name of the settings document.
pub fn settings_file_name() -> (r: &'static str)
    ensures
        r@ == "AppSettings.xml"@,
{
    "AppSettings.xml"
}

/// A path without the `\\?\` prefix of Windows verbatim paths, which
/// launchers do not accept.
pub fn strip_verbatim_prefix(path: &str) -> (r: String)
    ensures
        r@ == if path@.len() >= 4 && path@.take(4) == "\\\\?\\"@ {
            path@.skip(4)
        } else {
            path@
        },
{
    let prefix = "\\\\?\\";
    proof {
        reveal_strlit("\\\\?\\");
    }
    let chars = crate::text::chars_of(path);
    if chars.len() >= 4 && chars[0] == '\\' && chars[1] == '\\' && chars[2] == '?' && chars[3]
        == '\\' {
        assert(path@.take(4) =~= prefix@);
        String::from_str(path.substring_char(4, chars.len()))
    } else {
        assert(path@.len() >= 4 ==> path@.take(4) != prefix@) by {
            if path@.len() >= 4 && path@.take(4) == prefix@ {
                assert(path@.take(4)[0] == prefix@[0]);
                assert(path@.take(4)[1] == prefix@[1]);
                assert(path@.take(4)[2] == prefix@[2]);
                assert(path@.take(4)[3] == prefix@[3]);
            }
        }
        String::from_str(path)
    }
}

} // verus!
