//! Why an installation is refused or fails, and the message for each case.

use vstd::prelude::*;
use crate::kind::PackageKind;
use crate::text::string_of;

verus! {

/// The program that performs an installation.
#[derive(Debug, Clone, Copy, PartialEq, Eq, Structural)]
pub enum Installer {
    Apt,
    Dpkg,
    Dnf,
    Rpm,
    Pacman,
}

/// What the failure of an installer is reported as.
pub open spec fn installer_context(installer: Installer) -> Seq<char> {
    match installer {
        Installer::Apt => "apt install failed"@,
        Installer::Dpkg => "dpkg -i failed"@,
        Installer::Dnf => "dnf install failed"@,
        Installer::Rpm => "rpm -Uvh failed"@,
        Installer::Pacman => "pacman -U failed"@,
    }
}

/// Why an installation was refused or failed.
#[derive(Debug)]
pub enum InstallError {
    /// The package file does not exist.
    PackageNotFound { kind: PackageKind, path: String },
    /// dpkg-deb could not be started, for `reason`.
    MetadataUnavailable { reason: String },
    /// dpkg-deb failed to read the package version.
    VersionUnreadable { path: String },
    /// dpkg-deb printed a version that is not UTF-8; `reason` says where.
    VersionNotUtf8 { reason: String },
    /// dpkg-deb printed an empty version.
    VersionEmpty { path: String },
    /// dpkg could not be started to compare versions, for `reason`.
    ComparisonUnavailable { reason: String },
    /// The package is not newer than the installed one.
    NotNewer { candidate: String, installed: String },
    /// The package path has no parent directory to install from.
    NoParentDirectory { program_name: String },
    /// The package path has no file name to install.
    NoFileName { program_name: String },
    /// The pacman package path has no file name.
    PackageFileNameMissing,
    /// The file name does not end like a pacman package.
    NotPacmanFileName,
    /// No version can be read from the pacman package's file name.
    UnparsableFileName { file_name: String },
    /// pacman could not be started to query the installed version, for `reason`.
    PacmanQueryUnavailable { reason: String },
    /// The installer could not be started, for `reason`.
    InstallerNotStarted { installer: Installer, reason: String },
    /// The installer ran and failed; `status` says how it exited.
    InstallerFailed { installer: Installer, status: String },
}

/// An [`InstallError`] with its texts as character sequences.
pub enum InstallErrorView {
    PackageNotFound { kind: PackageKind, path: Seq<char> },
    MetadataUnavailable { reason: Seq<char> },
    VersionUnreadable { path: Seq<char> },
    VersionNotUtf8 { reason: Seq<char> },
    VersionEmpty { path: Seq<char> },
    ComparisonUnavailable { reason: Seq<char> },
    NotNewer { candidate: Seq<char>, installed: Seq<char> },
    NoParentDirectory { program_name: Seq<char> },
    NoFileName { program_name: Seq<char> },
    PackageFileNameMissing,
    NotPacmanFileName,
    UnparsableFileName { file_name: Seq<char> },
    PacmanQueryUnavailable { reason: Seq<char> },
    InstallerNotStarted { installer: Installer, reason: Seq<char> },
    InstallerFailed { installer: Installer, status: Seq<char> },
}

impl View for InstallError {
    type V = InstallErrorView;

    open spec fn view(&self) -> InstallErrorView {
        match self {
            InstallError::PackageNotFound { kind, path } => InstallErrorView::PackageNotFound {
                kind: *kind,
                path: path@,
            },
            InstallError::MetadataUnavailable { reason } => InstallErrorView::MetadataUnavailable {
                reason: reason@,
            },
            InstallError::VersionUnreadable { path } => InstallErrorView::VersionUnreadable {
                path: path@,
            },
            InstallError::VersionNotUtf8 { reason } => InstallErrorView::VersionNotUtf8 {
                reason: reason@,
            },
            InstallError::VersionEmpty { path } => InstallErrorView::VersionEmpty { path: path@ },
            InstallError::ComparisonUnavailable { reason } =>
                InstallErrorView::ComparisonUnavailable { reason: reason@ },
            InstallError::NotNewer { candidate, installed } => InstallErrorView::NotNewer {
                candidate: candidate@,
                installed: installed@,
            },
            InstallError::NoParentDirectory { program_name } =>
                InstallErrorView::NoParentDirectory { program_name: program_name@ },
            InstallError::NoFileName { program_name } => InstallErrorView::NoFileName {
                program_name: program_name@,
            },
            InstallError::PackageFileNameMissing => InstallErrorView::PackageFileNameMissing,
            InstallError::NotPacmanFileName => InstallErrorView::NotPacmanFileName,
            InstallError::UnparsableFileName { file_name } =>
                InstallErrorView::UnparsableFileName { file_name: file_name@ },
            InstallError::PacmanQueryUnavailable { reason } =>
                InstallErrorView::PacmanQueryUnavailable { reason: reason@ },
            InstallError::InstallerNotStarted { installer, reason } =>
                InstallErrorView::InstallerNotStarted { installer: *installer, reason: reason@ },
            InstallError::InstallerFailed { installer, status } =>
                InstallErrorView::InstallerFailed { installer: *installer, status: status@ },
        }
    }
}

/// The message that an error is reported with. An installer's failure is
/// reported by the installer's context; its cause is [`error_cause`].
pub open spec fn error_message(e: InstallErrorView) -> Seq<char> {
    match e {
        InstallErrorView::PackageNotFound { kind, path } => match kind {
            PackageKind::Deb => "Debian package not found: "@ + path,
            PackageKind::Rpm => "RPM package not found: "@ + path,
            PackageKind::Pacman => "Pacman package not found: "@ + path,
        },
        InstallErrorView::MetadataUnavailable { .. } => "Failed to inspect Debian package metadata"@,
        InstallErrorView::VersionUnreadable { path } =>
            "dpkg-deb could not read the package version from "@ + path,
        InstallErrorView::VersionNotUtf8 { .. } => "dpkg-deb returned a non-UTF8 package version"@,
        InstallErrorView::VersionEmpty { path } =>
            "dpkg-deb returned an empty package version for "@ + path,
        InstallErrorView::ComparisonUnavailable { .. } => "Failed to compare Debian package versions"@,
        InstallErrorView::NotNewer { candidate, installed } =>
            "Refusing to install non-newer package version "@ + candidate
                + " over installed version "@ + installed,
        InstallErrorView::NoParentDirectory { program_name } =>
            program_name + " package path has no parent directory"@,
        InstallErrorView::NoFileName { program_name } =>
            program_name + " package path has no file name"@,
        InstallErrorView::PackageFileNameMissing => "Package path has no file name"@,
        InstallErrorView::NotPacmanFileName => "Not a valid pacman package filename"@,
        InstallErrorView::UnparsableFileName { file_name } =>
            "Could not parse package version from: "@ + file_name,
        InstallErrorView::PacmanQueryUnavailable { .. } => "Failed to query installed pacman version"@,
        InstallErrorView::InstallerNotStarted { installer, .. } => installer_context(installer),
        InstallErrorView::InstallerFailed { installer, status } => installer_context(installer),
    }
}

/// What lies beneath an error, outermost first: the system's reason when
/// a program could not be started, and for an installer's failure the
/// failure of the installation command.
pub open spec fn error_causes(e: InstallErrorView) -> Seq<Seq<char>> {
    match e {
        InstallErrorView::MetadataUnavailable { reason } => seq![reason],
        InstallErrorView::VersionNotUtf8 { reason } => seq![reason],
        InstallErrorView::ComparisonUnavailable { reason } => seq![reason],
        InstallErrorView::PacmanQueryUnavailable { reason } => seq![reason],
        InstallErrorView::InstallerNotStarted { reason, .. } => seq![
            "Failed to execute installation command"@,
            reason,
        ],
        InstallErrorView::InstallerFailed { status, .. } => seq![
            "installation command exited with "@ + status,
        ],
        _ => seq![],
    }
}

fn installer_context_text(installer: Installer) -> (res: String)
    ensures
        res@ == installer_context(installer),
{
    match installer {
        Installer::Apt => string_of("apt install failed"),
        Installer::Dpkg => string_of("dpkg -i failed"),
        Installer::Dnf => string_of("dnf install failed"),
        Installer::Rpm => string_of("rpm -Uvh failed"),
        Installer::Pacman => string_of("pacman -U failed"),
    }
}

impl InstallError {
    /// The message that this error is reported with.
    pub fn message(&self) -> (res: String)
        ensures
            res@ == error_message(self@),
    {
        match self {
            InstallError::PackageNotFound { kind, path } => match kind {
                PackageKind::Deb => string_of("Debian package not found: ").concat(path.as_str()),
                PackageKind::Rpm => string_of("RPM package not found: ").concat(path.as_str()),
                PackageKind::Pacman => string_of("Pacman package not found: ").concat(path.as_str()),
            },
            InstallError::MetadataUnavailable { .. } => string_of("Failed to inspect Debian package metadata"),
            InstallError::VersionUnreadable { path } => string_of(
                "dpkg-deb could not read the package version from ",
            ).concat(path.as_str()),
            InstallError::VersionNotUtf8 { .. } => string_of("dpkg-deb returned a non-UTF8 package version"),
            InstallError::VersionEmpty { path } => string_of(
                "dpkg-deb returned an empty package version for ",
            ).concat(path.as_str()),
            InstallError::ComparisonUnavailable { .. } => string_of("Failed to compare Debian package versions"),
            InstallError::NotNewer { candidate, installed } => string_of(
                "Refusing to install non-newer package version ",
            ).concat(candidate.as_str()).concat(" over installed version ").concat(
                installed.as_str(),
            ),
            InstallError::NoParentDirectory { program_name } => program_name.clone().concat(
                " package path has no parent directory",
            ),
            InstallError::NoFileName { program_name } => program_name.clone().concat(
                " package path has no file name",
            ),
            InstallError::PackageFileNameMissing => string_of("Package path has no file name"),
            InstallError::NotPacmanFileName => string_of("Not a valid pacman package filename"),
            InstallError::UnparsableFileName { file_name } => string_of(
                "Could not parse package version from: ",
            ).concat(file_name.as_str()),
            InstallError::PacmanQueryUnavailable { .. } => string_of("Failed to query installed pacman version"),
            InstallError::InstallerNotStarted { installer, .. } => installer_context_text(*installer),
            InstallError::InstallerFailed { installer, .. } => installer_context_text(*installer),
        }
    }

    /// What lies beneath this error, outermost first.
    pub fn causes(&self) -> (res: Vec<String>)
        ensures
            res.deep_view() == error_causes(self@),
    {
        let res = match self {
            InstallError::MetadataUnavailable { reason } => vec![string_of(reason.as_str())],
            InstallError::VersionNotUtf8 { reason } => vec![string_of(reason.as_str())],
            InstallError::ComparisonUnavailable { reason } => vec![string_of(reason.as_str())],
            InstallError::PacmanQueryUnavailable { reason } => vec![string_of(reason.as_str())],
            InstallError::InstallerNotStarted { reason, .. } => vec![
                string_of("Failed to execute installation command"),
                string_of(reason.as_str()),
            ],
            InstallError::InstallerFailed { status, .. } => vec![
                string_of("installation command exited with ").concat(status.as_str()),
            ],
            _ => Vec::new(),
        };
        assert(res.deep_view() =~= error_causes(self@));
        res
    }
}

} // verus!
