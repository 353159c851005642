//! What holds of the library as a whole: of the installation steps, of
//! version reading and of pacman file names.

use vstd::prelude::*;
use crate::command::RunOutcomeView;
use crate::text::{
    has_suffix, is_white_space, last_index_of, leading_white_space, lemma_last_index_of,
    lemma_text_less_asymmetric, lemma_text_less_irreflexive, lemma_trimmed_idempotent,
    trailing_white_space, trimmed,
};
use crate::version::{
    installed_version_text, pacman_archive_stem, pacman_name_version, pacman_newer_result,
    pacman_newer_than, pacman_stem_version, reported_version, version_release,
};
use crate::error::InstallErrorView;
use crate::job::{
    initial_installation, install_accepts, install_step, query_accepts, query_next_stage, query_step,
    EventView, InstallStepView, InstallationView, QueryStage, QueryStepView, Stage, after_installed_version,

};
use crate::kind::{detected_kind, PackageKind};

verus! {

/// How many steps a search for the installed version has left at most.
pub open spec fn query_rank(stage: QueryStage) -> nat {
    match stage {
        QueryStage::ProbePacman => 4,
        QueryStage::ProbeDpkg => 3,
        QueryStage::ProbeRpm => 2,
        QueryStage::Query(_) => 1,
        QueryStage::Done => 0,
    }
}

/// How many steps an installation has left at most.
pub open spec fn install_rank(m: InstallationView) -> nat {
    match m.stage {
        Stage::CheckFile => 20,
        Stage::QueryInstalled => 15 + query_rank(m.query),
        Stage::ReadCandidate => 14,
        Stage::CompareVersions => 13,
        Stage::QueryPacman => 13,
        Stage::FindDnf => 12,
        Stage::FindDnf5 => 11,
        Stage::FindApt => 10,
        Stage::LocateApt => 9,
        Stage::LocateDnf => 9,
        Stage::Install => 1,
        Stage::Done => 0,
    }
}

/// Every step of a search for the installed version brings it closer to its
/// end, and it ends exactly when it gives the version: so it gives one after
/// at most four steps.
pub proof fn lemma_query_progresses(stage: QueryStage, event: EventView)
    requires
        query_accepts(stage, event),
    ensures
        query_rank(query_next_stage(stage, event)) < query_rank(stage),
        (query_step(stage, event) is Finished) <==> query_next_stage(stage, event)
            == QueryStage::Done,
{
}

/// Every step of an installation brings it closer to its end, and it ends
/// exactly when it gives its result: so an installation ends, installed or
/// refused, after at most twenty steps.
pub proof fn lemma_installation_progresses(m: InstallationView, event: EventView)
    requires
        install_accepts(m, event),
    ensures
        install_rank(install_step(m, event).0) < install_rank(m),
        (install_step(m, event).1 is Finished) <==> install_step(m, event).0.stage == Stage::Done,
{
    if m.stage == Stage::QueryInstalled {
        lemma_query_progresses(m.query, event);
        let q = InstallationView { query: query_next_stage(m.query, event), ..m };
        match query_step(m.query, event) {
            QueryStepView::Finished(installed) => {
                assert(install_rank(after_installed_version(q, installed).0) <= 14);
            },
            _ => {},
        }
    }
}

/// An installation begins twenty steps at most from its end.
pub proof fn lemma_installation_starts_bounded(kind: PackageKind, path: Seq<char>)
    ensures
        install_rank(initial_installation(kind, path)) == 20,
{
}


/// Whether an installation at `stage` is past its upgrade check: choosing
/// or running the installer.
pub open spec fn installing(stage: Stage) -> bool {
    match stage {
        Stage::FindApt | Stage::LocateApt | Stage::FindDnf | Stage::FindDnf5 | Stage::LocateDnf
        | Stage::Install => true,
        _ => false,
    }
}

/// An installation reaches its installer only past the upgrade check: an
/// RPM package right after its file was found; any other package when the
/// installed version is "unknown", when dpkg ranked the Debian package
/// above the installed one, or when the pacman package is newer than the
/// installed one.
pub proof fn lemma_installer_only_after_upgrade_check(m: InstallationView, event: EventView)
    requires
        install_accepts(m, event),
        !installing(m.stage),
        installing(install_step(m, event).0.stage),
    ensures
        ({
        ||| m.stage == Stage::CheckFile && m.kind == PackageKind::Rpm
        ||| m.stage == Stage::QueryInstalled && query_step(m.query, event) == QueryStepView::Finished(
            "unknown"@,
        )
        ||| m.stage == Stage::CompareVersions && (event matches EventView::Ran(
            RunOutcomeView::Exited { success: true, .. },
        ))
        ||| m.stage == Stage::QueryPacman && (event matches EventView::Ran(outcome)
            && pacman_newer_result(m.version, m.release, outcome) == Ok::<bool, InstallErrorView>(
            true,
        ))
        }),
{
    if m.stage == Stage::QueryInstalled {
        let q = InstallationView { query: query_next_stage(m.query, event), ..m };
        match query_step(m.query, event) {
            QueryStepView::Finished(installed) => {
                if installed != "unknown"@ {
                    assert(!installing(after_installed_version(q, installed).0.stage));
                }
            },
            _ => {},
        }
    }
}

/// A package that is not newer than the installed one is refused, and the
/// refusal names both versions.
pub proof fn lemma_refuses_package_not_newer(m: InstallationView, event: EventView)
    requires
        ({
        ||| m.stage == Stage::CompareVersions && (event matches EventView::Ran(
            RunOutcomeView::Exited { success: false, .. },
        ))
        ||| m.stage == Stage::QueryPacman && (event matches EventView::Ran(outcome)
            && pacman_newer_result(m.version, m.release, outcome) == Ok::<bool, InstallErrorView>(
            false,
        ))
        }),
    ensures
        install_step(m, event).1 == InstallStepView::Finished(
            Err(InstallErrorView::NotNewer { candidate: m.candidate, installed: m.installed }),
        ),
{
}

/// A search for the installed version asks the package manager that
/// `PackageKind::detect` picks from the same answers: pacman when found,
/// else dpkg when found, else rpm when found, else dpkg.
pub proof fn lemma_query_asks_detected_manager(pacman_found: bool, dpkg_found: bool, rpm_found: bool)
    ensures
        ({
            let s1 = query_next_stage(QueryStage::ProbePacman, EventView::ToolFound(pacman_found));
            let s2 = if s1 == QueryStage::ProbeDpkg {
                query_next_stage(s1, EventView::ToolFound(dpkg_found))
            } else {
                s1
            };
            let s3 = if s2 == QueryStage::ProbeRpm {
                query_next_stage(s2, EventView::ToolFound(rpm_found))
            } else {
                s2
            };
            s3 == QueryStage::Query(detected_kind(pacman_found, dpkg_found, rpm_found))
        }),
{
}


/// Reading the installed version back from a reported version gives the
/// same version: a report is already trimmed, and never empty.
pub proof fn lemma_installed_version_stable(output: Seq<char>)
    ensures
        installed_version_text(installed_version_text(output)) == installed_version_text(output),
        installed_version_text(output).len() > 0,
{
    lemma_trimmed_idempotent(output);
    reveal_strlit("unknown");
    let unknown = "unknown"@;
    assert(!is_white_space(unknown[0]));
    assert(leading_white_space(unknown) == 0);
    assert(unknown.skip(0) =~= unknown);
    assert(!is_white_space(unknown.last()));
    assert(trailing_white_space(unknown) == 0);
    assert(trimmed(unknown) =~= unknown);
}

/// A package whose version query did not succeed counts as not installed.
pub proof fn lemma_failed_query_means_not_installed(outcome: RunOutcomeView)
    requires
        !(outcome matches RunOutcomeView::Exited { success: true, .. }),
    ensures
        reported_version(outcome) == "unknown"@,
{
}

/// A pacman package is never newer than the same version and release
/// reported installed.
pub proof fn lemma_pacman_not_newer_than_itself(version: Seq<char>, release: Seq<char>, report: Seq<char>)
    requires
        version_release(report) == Some((version, release)),
    ensures
        !pacman_newer_than(version, release, report),
{
    lemma_text_less_irreflexive(release);
}

/// Of two pacman packages, at most one is newer than the other.
pub proof fn lemma_pacman_newer_asymmetric(
    version1: Seq<char>,
    release1: Seq<char>,
    report1: Seq<char>,
    version2: Seq<char>,
    release2: Seq<char>,
    report2: Seq<char>,
)
    requires
        version_release(report1) == Some((version1, release1)),
        version_release(report2) == Some((version2, release2)),
    ensures
        !(pacman_newer_than(version1, release1, report2) && pacman_newer_than(
            version2,
            release2,
            report1,
        )),
{
    lemma_text_less_asymmetric(version1, version2);
    lemma_text_less_asymmetric(release1, release2);
}

/// Whether `s` holds no `-`.
pub open spec fn dash_free(s: Seq<char>) -> bool {
    forall|i: int| 0 <= i < s.len() ==> s[i] != '-'
}

/// `a` and `b` joined by a `-`.
pub open spec fn dash_join(a: Seq<char>, b: Seq<char>) -> Seq<char> {
    a + seq!['-'] + b
}

pub(crate) proof fn lemma_dash_join(a: Seq<char>, b: Seq<char>)
    requires
        dash_free(b),
    ensures
        last_index_of(dash_join(a, b), '-') == a.len(),
        dash_join(a, b).take(a.len() as int) == a,
        dash_join(a, b).skip(a.len() as int + 1) == b,
{
    let s = dash_join(a, b);
    assert(s[a.len() as int] == '-');
    assert forall|k: int| a.len() < k < s.len() implies s[k] != '-' by {
        assert(s[k] == b[k - a.len() - 1]);
    }
    lemma_last_index_of(s, '-', a.len() as int);
    assert(s.take(a.len() as int) =~= a);
    assert(s.skip(a.len() as int + 1) =~= b);
}

proof fn lemma_not_suffix(s: Seq<char>, extension: Seq<char>, other: Seq<char>)
    requires
        extension.len() >= 2,
        other.len() >= 2,
        other[other.len() - 1] != extension[extension.len() - 1] || other[other.len() - 2]
            != extension[extension.len() - 2],
    ensures
        !has_suffix(s + extension, other),
{
    let t = s + extension;
    if has_suffix(t, other) {
        let tail = t.skip(t.len() - other.len());
        assert(tail[other.len() - 1] == t[t.len() - 1]);
        assert(tail[other.len() - 2] == t[t.len() - 2]);
        assert(t[t.len() - 1] == extension[extension.len() - 1]);
        assert(t[t.len() - 2] == extension[extension.len() - 2]);
    }
}

proof fn lemma_is_suffix(s: Seq<char>, extension: Seq<char>)
    ensures
        has_suffix(s + extension, extension),
        (s + extension).take(s.len() as int) == s,
{
    assert((s + extension).skip(s.len() as int) =~= extension);
    assert((s + extension).take(s.len() as int) =~= s);
}

/// A package file name made of a stem and a pacman extension has that
/// stem once the extension is taken off.
pub proof fn lemma_archive_stem(stem: Seq<char>, extension: Seq<char>)
    requires
        pacman_extension(extension),
    ensures
        pacman_archive_stem(stem + extension) == Some(stem),
{
    let lowered = stem + extension;
    reveal_strlit(".pkg.tar.zst");
    reveal_strlit(".pkg.tar.xz");
    reveal_strlit(".pkg.tar.gz");
    reveal_strlit(".pkg.tar.bz2");
    reveal_strlit(".pkg.tar.lz");
    reveal_strlit(".pkg.tar.lz4");
    reveal_strlit(".pkg.tar.lz5");
    lemma_is_suffix(stem, extension);
    if extension != ".pkg.tar.zst"@ {
        lemma_not_suffix(stem, extension, ".pkg.tar.zst"@);
    }
    if extension != ".pkg.tar.xz"@ {
        lemma_not_suffix(stem, extension, ".pkg.tar.xz"@);
    }
    if extension != ".pkg.tar.gz"@ {
        lemma_not_suffix(stem, extension, ".pkg.tar.gz"@);
    }
    if extension != ".pkg.tar.bz2"@ {
        lemma_not_suffix(stem, extension, ".pkg.tar.bz2"@);
    }
    if extension != ".pkg.tar.lz"@ {
        lemma_not_suffix(stem, extension, ".pkg.tar.lz"@);
    }
    if extension != ".pkg.tar.lz4"@ {
        lemma_not_suffix(stem, extension, ".pkg.tar.lz4"@);
    }
    assert(pacman_archive_stem(lowered) == Some(stem));
}

/// A file name whose stem holds fewer than two `-` gives no version, and
/// the error names the file; a name without a pacman extension is no
/// pacman package.
pub proof fn lemma_pacman_name_errors(
    file_name: Seq<char>,
    stem: Seq<char>,
    a: Seq<char>,
    b: Seq<char>,
    extension: Seq<char>,
    lowered: Seq<char>,
)
    requires
        pacman_extension(extension),
    ensures
        dash_free(stem) ==> pacman_name_version(file_name, stem + extension) == Err::<
            Seq<char>,
            InstallErrorView,
        >(InstallErrorView::UnparsableFileName { file_name }),
        (dash_free(a) && dash_free(b)) ==> pacman_name_version(file_name, dash_join(a, b) + extension)
            == Err::<Seq<char>, InstallErrorView>(InstallErrorView::UnparsableFileName { file_name }),
        (!has_suffix(lowered, ".pkg.tar.zst"@) && !has_suffix(lowered, ".pkg.tar.xz"@) && !has_suffix(
            lowered,
            ".pkg.tar.gz"@,
        ) && !has_suffix(lowered, ".pkg.tar.bz2"@) && !has_suffix(lowered, ".pkg.tar.lz"@)
            && !has_suffix(lowered, ".pkg.tar.lz4"@) && !has_suffix(lowered, ".pkg.tar.lz5"@))
            ==> pacman_name_version(file_name, lowered) == Err::<Seq<char>, InstallErrorView>(
            InstallErrorView::NotPacmanFileName,
        ),
{
    lemma_archive_stem(stem, extension);
    lemma_archive_stem(dash_join(a, b), extension);
    if dash_free(stem) {
        lemma_last_index_of(stem, '-', -1);
    }
    if dash_free(a) && dash_free(b) {
        lemma_dash_join(a, b);
        lemma_last_index_of(a, '-', -1);
    }
}

/// The extensions of pacman package files.
pub open spec fn pacman_extension(extension: Seq<char>) -> bool {
    ||| extension == ".pkg.tar.zst"@
    ||| extension == ".pkg.tar.xz"@
    ||| extension == ".pkg.tar.gz"@
    ||| extension == ".pkg.tar.bz2"@
    ||| extension == ".pkg.tar.lz"@
    ||| extension == ".pkg.tar.lz4"@
    ||| extension == ".pkg.tar.lz5"@
}

/// A pacman package file named `name-version-release-arch` with a package
/// extension (lowercase, and with no `-` in version, release and arch)
/// gives `name-version-release`, whose version and release are the ones
/// the file was named with.
pub proof fn lemma_pacman_file_name_version(
    file_name: Seq<char>,
    name: Seq<char>,
    version: Seq<char>,
    release: Seq<char>,
    arch: Seq<char>,
    extension: Seq<char>,
)
    requires
        dash_free(version),
        dash_free(release),
        dash_free(arch),
        pacman_extension(extension),
    ensures
        pacman_name_version(
            file_name,
            dash_join(dash_join(dash_join(name, version), release), arch) + extension,
        ) == Ok::<Seq<char>, InstallErrorView>(dash_join(dash_join(name, version), release)),
        version_release(dash_join(dash_join(name, version), release)) == Some((version, release)),
{
    let nv = dash_join(name, version);
    let nvr = dash_join(nv, release);
    let stem = dash_join(nvr, arch);
    let lowered = stem + extension;
    lemma_archive_stem(stem, extension);
    assert(pacman_archive_stem(lowered) == Some(stem));
    lemma_dash_join(nvr, arch);
    lemma_dash_join(nv, release);
    lemma_dash_join(name, version);
    assert(pacman_stem_version(stem) == Some(nvr));
}

} // verus!
