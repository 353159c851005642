# updater

The decisions of a native package updater, verified with Verus: which
package format the system uses, how installed and candidate versions are
read and compared, which commands install a package, and in what order the
steps of an installation run.

- `src/kind.rs`: the package kinds, detection and inference from a path.
- `src/tools.rs`: the package tools, where they are looked for, how one is resolved.
- `src/command.rs`: the commands that are run, as plain values.
- `src/version.rs`: reading versions from tool output and pacman file names; comparing pacman versions.
- `src/job.rs`: finding the installed version and installing a package, as state machines whose steps name the outside work to do next.
- `src/error.rs`: why an installation is refused or fails, and its messages.
- `src/text.rs`: text helpers (trimming, searching, ordering).
- `src/stdlib.rs`: the trusted calls into std's path and text handling.
- `src/laws.rs`: what holds across the steps: every installation ends, the installer runs only past the upgrade check, and more.
- `app/lib.rs`: the file checks, tool probes and command runs that drive the state machines.
