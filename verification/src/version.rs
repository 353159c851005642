//! Reading installed and candidate versions from what the package tools
//! print and from package file names, and comparing pacman versions.

use vstd::prelude::*;
use vstd::utf8::{decode_utf8, valid_utf8};
use crate::command::{RunOutcome, RunOutcomeView};
use crate::error::{InstallError, InstallErrorView};
use crate::stdlib::{
    file_name_of, lossy_text, lowercase, path_file_name, text_from_utf8, text_from_utf8_lossy,
    utf8_error_text,
    to_lowercase,
};
use crate::text::{
    ends_with, find_last, has_suffix, last_index_of, less, same_text, string_of, text_less, trim,
    trimmed,
};

verus! {

/// What a program printed, read as text: decoded as it stands when it is
/// valid UTF-8, else with invalid sequences replaced (`lossy_text`).
pub open spec fn printed_text(bytes: Seq<u8>) -> Seq<char> {
    if valid_utf8(bytes) {
        decode_utf8(bytes)
    } else {
        lossy_text(bytes)
    }
}

/// The version that a package manager's output reports: the output without
/// surrounding whitespace, or "unknown" when nothing else is left.
pub open spec fn installed_version_text(output: Seq<char>) -> Seq<char> {
    if trimmed(output).len() == 0 {
        "unknown"@
    } else {
        trimmed(output)
    }
}

/// The version that a package manager's output reports.
pub fn installed_version_from_text(output: &str) -> (res: String)
    ensures
        res@ == installed_version_text(output@),
{
    let version = trim(output);
    if version.unicode_len() == 0 {
        string_of("unknown")
    } else {
        string_of(version)
    }
}

/// The version that the bytes a package manager printed report, read as
/// text with invalid UTF-8 replaced.
pub fn parse_installed_version(stdout: Vec<u8>) -> (res: String)
    ensures
        res@ == installed_version_text(printed_text(stdout@)),
{
    let output = text_from_utf8_lossy(&stdout);
    installed_version_from_text(output.as_str())
}

/// The installed version that a version query reports: what it printed
/// when it ran and succeeded, and "unknown" otherwise.
pub open spec fn reported_version(outcome: RunOutcomeView) -> Seq<char> {
    match outcome {
        RunOutcomeView::Exited { success: true, stdout, .. } => installed_version_text(
            printed_text(stdout),
        ),
        _ => "unknown"@,
    }
}

/// The installed version that a version query reports.
pub fn installed_version_from_outcome(outcome: RunOutcome) -> (res: String)
    ensures
        res@ == reported_version(outcome@),
{
    match outcome {
        RunOutcome::Exited { success, stdout, .. } => {
            if success {
                parse_installed_version(stdout)
            } else {
                string_of("unknown")
            }
        },
        RunOutcome::NotStarted { .. } => string_of("unknown"),
    }
}

/// Whether the primary native package still appears to be installed, given
/// the installed version that was reported.
pub fn is_primary_package_installed(installed_version: &str) -> (res: bool)
    ensures
        res == (installed_version@ != "unknown"@),
{
    !same_text(installed_version, "unknown")
}

/// The version that reading a Debian package file's metadata gives, or why
/// it gives none.
pub open spec fn deb_version_result(path: Seq<char>, outcome: RunOutcomeView) -> Result<
    Seq<char>,
    InstallErrorView,
> {
    match outcome {
        RunOutcomeView::NotStarted { reason } => Err(InstallErrorView::MetadataUnavailable { reason }),
        RunOutcomeView::Exited { success, stdout, .. } => if !success {
            Err(InstallErrorView::VersionUnreadable { path })
        } else if !valid_utf8(stdout) {
            Err(InstallErrorView::VersionNotUtf8 { reason: utf8_error_text(stdout) })
        } else if trimmed(decode_utf8(stdout)).len() == 0 {
            Err(InstallErrorView::VersionEmpty { path })
        } else {
            Ok(trimmed(decode_utf8(stdout)))
        },
    }
}

/// The version of the Debian package file at `path`, from how reading its
/// metadata ended.
pub fn deb_package_version(path: &str, outcome: RunOutcome) -> (res: Result<String, InstallError>)
    ensures
        match res {
            Ok(v) => deb_version_result(path@, outcome@) == Ok::<Seq<char>, InstallErrorView>(v@),
            Err(e) => deb_version_result(path@, outcome@) == Err::<Seq<char>, InstallErrorView>(
                e@,
            ),
        },
{
    match outcome {
        RunOutcome::NotStarted { reason } => Err(InstallError::MetadataUnavailable { reason }),
        RunOutcome::Exited { success, stdout, .. } => {
            if !success {
                return Err(InstallError::VersionUnreadable { path: string_of(path) });
            }
            let text = match text_from_utf8(stdout) {
                Ok(text) => text,
                Err(reason) => return Err(InstallError::VersionNotUtf8 { reason }),
            };
            let version = trim(text.as_str());
            if version.unicode_len() == 0 {
                Err(InstallError::VersionEmpty { path: string_of(path) })
            } else {
                Ok(string_of(version))
            }
        },
    }
}

/// A pacman package file name, lowercased, without its archive extension;
/// none when it has none of the extensions pacman packages have.
pub open spec fn pacman_archive_stem(name: Seq<char>) -> Option<Seq<char>> {
    if has_suffix(name, ".pkg.tar.zst"@) {
        Some(name.take(name.len() - ".pkg.tar.zst"@.len()))
    } else if has_suffix(name, ".pkg.tar.xz"@) {
        Some(name.take(name.len() - ".pkg.tar.xz"@.len()))
    } else if has_suffix(name, ".pkg.tar.gz"@) {
        Some(name.take(name.len() - ".pkg.tar.gz"@.len()))
    } else if has_suffix(name, ".pkg.tar.bz2"@) {
        Some(name.take(name.len() - ".pkg.tar.bz2"@.len()))
    } else if has_suffix(name, ".pkg.tar.lz"@) {
        Some(name.take(name.len() - ".pkg.tar.lz"@.len()))
    } else if has_suffix(name, ".pkg.tar.lz4"@) {
        Some(name.take(name.len() - ".pkg.tar.lz4"@.len()))
    } else if has_suffix(name, ".pkg.tar.lz5"@) {
        Some(name.take(name.len() - ".pkg.tar.lz5"@.len()))
    } else {
        None
    }
}

/// What precedes the last `-` of a package file stem
/// (`name-version-release-arch`), when the stem holds at least two `-`:
/// `name-version-release`.
pub open spec fn pacman_stem_version(stem: Seq<char>) -> Option<Seq<char>> {
    let last = last_index_of(stem, '-');
    if last >= 0 && last_index_of(stem.take(last), '-') >= 0 {
        Some(stem.take(last))
    } else {
        None
    }
}

/// The version that a pacman package's file name gives, from the name and
/// its lowercase form, or why it gives none.
pub open spec fn pacman_name_version(file_name: Seq<char>, lowered: Seq<char>) -> Result<
    Seq<char>,
    InstallErrorView,
> {
    match pacman_archive_stem(lowered) {
        None => Err(InstallErrorView::NotPacmanFileName),
        Some(stem) => match pacman_stem_version(stem) {
            None => Err(InstallErrorView::UnparsableFileName { file_name }),
            Some(version) => Ok(version),
        },
    }
}

/// The version that the file name of the pacman package at `path` gives.
pub open spec fn pacman_path_version(path: Seq<char>) -> Result<Seq<char>, InstallErrorView> {
    match path_file_name(path) {
        None => Err(InstallErrorView::PackageFileNameMissing),
        Some(file_name) => pacman_name_version(file_name, lowercase(file_name)),
    }
}

fn strip_archive_suffix<'a>(name: &'a str, suffix: &str) -> (res: Option<&'a str>)
    ensures
        match res {
            Some(stem) => has_suffix(name@, suffix@) && stem@ == name@.take(
                name@.len() - suffix@.len(),
            ),
            None => !has_suffix(name@, suffix@),
        },
{
    if ends_with(name, suffix) {
        let n = name.unicode_len();
        let m = suffix.unicode_len();
        Some(name.substring_char(0, n - m))
    } else {
        None
    }
}

/// A lowercased pacman package file name without its archive extension.
pub fn pacman_stem(lowered: &str) -> (res: Option<&str>)
    ensures
        match res {
            Some(stem) => pacman_archive_stem(lowered@) == Some(stem@),
            None => pacman_archive_stem(lowered@) is None,
        },
{
    if let Some(stem) = strip_archive_suffix(lowered, ".pkg.tar.zst") {
        return Some(stem);
    }
    if let Some(stem) = strip_archive_suffix(lowered, ".pkg.tar.xz") {
        return Some(stem);
    }
    if let Some(stem) = strip_archive_suffix(lowered, ".pkg.tar.gz") {
        return Some(stem);
    }
    if let Some(stem) = strip_archive_suffix(lowered, ".pkg.tar.bz2") {
        return Some(stem);
    }
    if let Some(stem) = strip_archive_suffix(lowered, ".pkg.tar.lz") {
        return Some(stem);
    }
    if let Some(stem) = strip_archive_suffix(lowered, ".pkg.tar.lz4") {
        return Some(stem);
    }
    if let Some(stem) = strip_archive_suffix(lowered, ".pkg.tar.lz5") {
        return Some(stem);
    }
    None
}

/// The version that a pacman package's file name gives, from the name and
/// its lowercase form.
pub fn pacman_version_from_file_name(file_name: &str, lowered: &str) -> (res: Result<String, InstallError>)
    ensures
        match res {
            Ok(v) => pacman_name_version(file_name@, lowered@) == Ok::<Seq<char>, InstallErrorView>(
                v@,
            ),
            Err(e) => pacman_name_version(file_name@, lowered@) == Err::<
                Seq<char>,
                InstallErrorView,
            >(e@),
        },
{
    let stem = match pacman_stem(lowered) {
        Some(stem) => stem,
        None => return Err(InstallError::NotPacmanFileName),
    };
    let last = match find_last(stem, '-') {
        Some(last) => last,
        None => return Err(InstallError::UnparsableFileName { file_name: string_of(file_name) }),
    };
    let head = stem.substring_char(0, last);
    match find_last(head, '-') {
        Some(_) => Ok(string_of(head)),
        None => Err(InstallError::UnparsableFileName { file_name: string_of(file_name) }),
    }
}

/// The version that the file name of the pacman package at `path` gives:
/// `name-version-release` of `name-version-release-arch.pkg.tar.*`.
pub fn pacman_package_version(path: &str) -> (res: Result<String, InstallError>)
    ensures
        match res {
            Ok(v) => pacman_path_version(path@) == Ok::<Seq<char>, InstallErrorView>(v@),
            Err(e) => pacman_path_version(path@) == Err::<Seq<char>, InstallErrorView>(e@),
        },
{
    let file_name = match file_name_of(path) {
        Some(name) => name,
        None => return Err(InstallError::PackageFileNameMissing),
    };
    let lowered = to_lowercase(file_name.as_str());
    pacman_version_from_file_name(file_name.as_str(), lowered.as_str())
}

/// The last two `-`-separated parts of a pacman version text, version and
/// release, when it has at least three parts.
pub open spec fn version_release(text: Seq<char>) -> Option<(Seq<char>, Seq<char>)> {
    let last = last_index_of(text, '-');
    let head = text.take(last);
    let previous = last_index_of(head, '-');
    if last >= 0 && previous >= 0 {
        Some((head.skip(previous + 1), text.skip(last + 1)))
    } else {
        None
    }
}

/// The last two `-`-separated parts of `text`, when it has at least three.
pub fn version_and_release(text: &str) -> (res: Option<(String, String)>)
    ensures
        match res {
            Some((version, release)) => version_release(text@) == Some((version@, release@)),
            None => version_release(text@) is None,
        },
{
    let n = text.unicode_len();
    let last = match find_last(text, '-') {
        Some(last) => last,
        None => return None,
    };
    let head = text.substring_char(0, last);
    let previous = match find_last(head, '-') {
        Some(previous) => previous,
        None => return None,
    };
    let version = head.substring_char(previous + 1, last);
    let release = text.substring_char(last + 1, n);
    assert(version@ =~= head@.skip(previous + 1));
    assert(release@ =~= text@.skip(last + 1));
    Some((string_of(version), string_of(release)))
}

/// Whether a candidate of version `version` and release `release` is newer
/// than what pacman reports installed: newer when the report has fewer
/// than three `-`-separated parts; otherwise the versions decide by the
/// order of strings, and the releases when the versions are equal.
pub open spec fn pacman_newer_than(version: Seq<char>, release: Seq<char>, report: Seq<char>) -> bool {
    match version_release(report) {
        None => true,
        Some((installed_version, installed_release)) => if version != installed_version {
            text_less(installed_version, version)
        } else {
            text_less(installed_release, release)
        },
    }
}

/// Whether a candidate is newer than what pacman reports installed.
pub fn newer_than_pacman_report(version: &str, release: &str, report: &str) -> (res: bool)
    ensures
        res == pacman_newer_than(version@, release@, report@),
{
    match version_and_release(report) {
        None => true,
        Some((installed_version, installed_release)) => {
            if !same_text(version, installed_version.as_str()) {
                less(installed_version.as_str(), version)
            } else {
                less(installed_release.as_str(), release)
            }
        },
    }
}

/// Whether a candidate is newer than the installed package, from how
/// asking pacman for the installed package ended: an error when pacman
/// could not be started, newer when the query failed, else decided by
/// the report.
pub open spec fn pacman_newer_result(version: Seq<char>, release: Seq<char>, outcome: RunOutcomeView) -> Result<
    bool,
    InstallErrorView,
> {
    match outcome {
        RunOutcomeView::NotStarted { reason } => Err(
            InstallErrorView::PacmanQueryUnavailable { reason },
        ),
        RunOutcomeView::Exited { success, stdout, .. } => if !success {
            Ok(true)
        } else {
            Ok(pacman_newer_than(version, release, trimmed(printed_text(stdout))))
        },
    }
}

/// Whether a candidate of version `version` and release `release` is newer
/// than the installed package, from how asking pacman ended.
pub fn is_version_newer_pacman(version: &str, release: &str, outcome: RunOutcome) -> (res: Result<bool, InstallError>)
    ensures
        match res {
            Ok(b) => pacman_newer_result(version@, release@, outcome@) == Ok::<bool, InstallErrorView>(b),
            Err(e) => pacman_newer_result(version@, release@, outcome@) == Err::<bool, InstallErrorView>(e@),
        },
{
    match outcome {
        RunOutcome::NotStarted { reason } => Err(InstallError::PacmanQueryUnavailable { reason }),
        RunOutcome::Exited { success, stdout, .. } => {
            if !success {
                return Ok(true);
            }
            let text = text_from_utf8_lossy(&stdout);
            let report = trim(text.as_str());
            Ok(newer_than_pacman_report(version, release, report))
        },
    }
}

} // verus!
