use vstd::prelude::*;
use crate::stdlib::{file_name_of, path_file_name};
use crate::text::{find_last, last_index_of, same_text};

verus! {

/// The native package format in use on the current system.
#[derive(Debug, Clone, Copy, PartialEq, Eq, Structural)]
pub enum PackageKind {
    Deb,
    Rpm,
    Pacman,
}

/// The package format chosen from which package managers were found:
/// pacman first (Arch), then dpkg (Debian/Ubuntu), then rpm (Fedora),
/// and Debian when none of them is present.
pub open spec fn detected_kind(pacman_found: bool, dpkg_found: bool, rpm_found: bool) -> PackageKind {
    if pacman_found {
        PackageKind::Pacman
    } else if dpkg_found {
        PackageKind::Deb
    } else if rpm_found {
        PackageKind::Rpm
    } else {
        PackageKind::Deb
    }
}

impl PackageKind {
    /// Detect the package manager available on the running system, given
    /// whether pacman, dpkg and rpm were found on it.
    /// Checks pacman first (Arch), then dpkg (Debian/Ubuntu), then rpm (Fedora).
    pub fn detect(pacman_found: bool, dpkg_found: bool, rpm_found: bool) -> (kind: PackageKind)
        ensures
            kind == detected_kind(pacman_found, dpkg_found, rpm_found),
    {
        if pacman_found {
            PackageKind::Pacman
        } else if dpkg_found {
            PackageKind::Deb
        } else if rpm_found {
            PackageKind::Rpm
        } else {
            PackageKind::Deb
        }
    }

    /// Infer the package kind from a file path extension: `rpm` gives
    /// [`PackageKind::Rpm`], anything else [`PackageKind::Deb`].
    pub fn from_path(path: &str) -> (kind: PackageKind)
        ensures
            kind == kind_of_path(path@),
    {
        let name = match file_name_of(path) {
            Some(name) => name,
            None => return PackageKind::Deb,
        };
        PackageKind::from_file_name(name.as_str())
    }

    /// The package kind that a file name names: RPM for the extension
    /// `rpm`, Debian for every other name.
    pub fn from_file_name(name: &str) -> (kind: PackageKind)
        ensures
            kind == kind_of_name(name@),
    {
        match find_last(name, '.') {
            Some(i) => {
                if i == 0 {
                    return PackageKind::Deb;
                }
                let n = name.unicode_len();
                let extension = name.substring_char(i + 1, n);
                if same_text(extension, "rpm") {
                    PackageKind::Rpm
                } else {
                    PackageKind::Deb
                }
            },
            None => PackageKind::Deb,
        }
    }
}

/// The extension of a file name, as `Path::extension` documents it: none
/// when the name holds no `.`, or holds only a leading one; otherwise what
/// follows the last `.`.
pub open spec fn name_extension(name: Seq<char>) -> Option<Seq<char>> {
    let i = last_index_of(name, '.');
    if i <= 0 {
        None
    } else {
        Some(name.skip(i + 1))
    }
}

/// The package kind that a file name names: RPM for the extension `rpm`,
/// Debian for every other name.
pub open spec fn kind_of_name(name: Seq<char>) -> PackageKind {
    if name_extension(name) == Some("rpm"@) {
        PackageKind::Rpm
    } else {
        PackageKind::Deb
    }
}

/// The package kind that a path names: that of its file name, and Debian
/// when it has none.
pub open spec fn kind_of_path(path: Seq<char>) -> PackageKind {
    match path_file_name(path) {
        Some(name) => kind_of_name(name),
        None => PackageKind::Deb,
    }
}

} // verus!
