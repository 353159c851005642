//! The package tools the updater runs, where each is looked for, and how
//! a tool is resolved to the program that is started.

use vstd::prelude::*;
use crate::text::string_of;

verus! {

/// A program that the updater runs, looked for at fixed places first and
/// then by its name on the search path.
#[derive(Debug, Clone, Copy, PartialEq, Eq, Structural)]
pub enum Tool {
    Apt,
    Dnf,
    /// dnf5, looked for at dnf's places and then as `dnf5` on the search path.
    Dnf5,
    Dpkg,
    DpkgDeb,
    DpkgQuery,
    Rpm,
    Pacman,
}

/// The places where a tool is looked for, in order.
pub open spec fn tool_candidates(tool: Tool) -> Seq<Seq<char>> {
    match tool {
        Tool::Apt => seq!["/usr/bin/apt"@, "/bin/apt"@],
        Tool::Dnf | Tool::Dnf5 => seq!["/usr/bin/dnf"@, "/bin/dnf"@, "/usr/bin/dnf5"@, "/bin/dnf5"@],
        Tool::Dpkg => seq!["/usr/bin/dpkg"@, "/bin/dpkg"@],
        Tool::DpkgDeb => seq!["/usr/bin/dpkg-deb"@, "/bin/dpkg-deb"@],
        Tool::DpkgQuery => seq!["/usr/bin/dpkg-query"@, "/bin/dpkg-query"@],
        Tool::Rpm => seq!["/usr/bin/rpm"@, "/bin/rpm"@],
        Tool::Pacman => seq!["/usr/bin/pacman"@, "/bin/pacman"@],
    }
}

/// The name under which a tool is looked for on the search path, and which
/// is started when none of its places holds it.
pub open spec fn tool_name(tool: Tool) -> Seq<char> {
    match tool {
        Tool::Apt => "apt"@,
        Tool::Dnf => "dnf"@,
        Tool::Dnf5 => "dnf5"@,
        Tool::Dpkg => "dpkg"@,
        Tool::DpkgDeb => "dpkg-deb"@,
        Tool::DpkgQuery => "dpkg-query"@,
        Tool::Rpm => "rpm"@,
        Tool::Pacman => "pacman"@,
    }
}

impl Tool {
    /// The places where this tool is looked for, in order.
    pub fn candidates(self) -> (res: Vec<String>)
        ensures
            res.deep_view() == tool_candidates(self),
    {
        let res = match self {
            Tool::Apt => vec![string_of("/usr/bin/apt"), string_of("/bin/apt")],
            Tool::Dnf | Tool::Dnf5 => vec![
                string_of("/usr/bin/dnf"),
                string_of("/bin/dnf"),
                string_of("/usr/bin/dnf5"),
                string_of("/bin/dnf5"),
            ],
            Tool::Dpkg => vec![string_of("/usr/bin/dpkg"), string_of("/bin/dpkg")],
            Tool::DpkgDeb => vec![string_of("/usr/bin/dpkg-deb"), string_of("/bin/dpkg-deb")],
            Tool::DpkgQuery => vec![string_of("/usr/bin/dpkg-query"), string_of("/bin/dpkg-query")],
            Tool::Rpm => vec![string_of("/usr/bin/rpm"), string_of("/bin/rpm")],
            Tool::Pacman => vec![string_of("/usr/bin/pacman"), string_of("/bin/pacman")],
        };
        assert(res.deep_view() =~= tool_candidates(self));
        res
    }

    /// The name under which this tool is looked for on the search path.
    pub fn name(self) -> (res: String)
        ensures
            res@ == tool_name(self),
    {
        match self {
            Tool::Apt => string_of("apt"),
            Tool::Dnf => string_of("dnf"),
            Tool::Dnf5 => string_of("dnf5"),
            Tool::Dpkg => string_of("dpkg"),
            Tool::DpkgDeb => string_of("dpkg-deb"),
            Tool::DpkgQuery => string_of("dpkg-query"),
            Tool::Rpm => string_of("rpm"),
            Tool::Pacman => string_of("pacman"),
        }
    }
}

/// The program started for a tool: the first of its places that holds a
/// file, or else its bare name. `present[i]` tells whether
/// `candidates[i]` holds a file.
pub open spec fn resolved_program(
    candidates: Seq<Seq<char>>,
    present: Seq<bool>,
    fallback: Seq<char>,
) -> Seq<char>
    decreases candidates.len(),
{
    if candidates.len() == 0 || present.len() == 0 {
        fallback
    } else if present[0] {
        candidates[0]
    } else {
        resolved_program(candidates.drop_first(), present.drop_first(), fallback)
    }
}

/// The program to start for a list of places: the first place that holds a
/// file (`present[i]` tells whether `candidates[i]` does), else `fallback`.
pub fn program_path(candidates: &Vec<String>, present: &Vec<bool>, fallback: &str) -> (res: String)
    requires
        present.len() == candidates.len(),
    ensures
        res@ == resolved_program(candidates.deep_view(), present@, fallback@),
{
    let n = candidates.len();
    let mut i: usize = 0;
    assert(candidates.deep_view().skip(0) =~= candidates.deep_view());
    assert(present@.skip(0) =~= present@);
    while i < n
        invariant
            n == candidates.len(),
            n == present.len(),
            i <= n,
            resolved_program(candidates.deep_view(), present@, fallback@) == resolved_program(
                candidates.deep_view().skip(i as int),
                present@.skip(i as int),
                fallback@,
            ),
        decreases n - i,
    {
        if present[i] {
            assert(candidates.deep_view().skip(i as int)[0] == candidates[i as int]@);
            return candidates[i].clone();
        }
        assert(candidates.deep_view().skip(i as int).drop_first() =~= candidates.deep_view().skip(
            i + 1,
        ));
        assert(present@.skip(i as int).drop_first() =~= present@.skip(i + 1));
        i = i + 1;
    }
    String::from_str(fallback)
}

/// Whether a tool is available: one of its places holds a file, or its name
/// was found on the search path.
pub fn program_exists(present: &Vec<bool>, found_on_search_path: bool) -> (res: bool)
    ensures
        res == ((exists|i: int| 0 <= i < present.len() && present[i]) || found_on_search_path),
{
    let n = present.len();
    let mut i: usize = 0;
    while i < n
        invariant
            n == present.len(),
            i <= n,
            forall|k: int| 0 <= k < i ==> !present[k],
        decreases n - i,
    {
        if present[i] {
            return true;
        }
        i = i + 1;
    }
    found_on_search_path
}

} // verus!
