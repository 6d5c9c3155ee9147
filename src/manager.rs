//! Choice of the package manager that runs a project's `dev` script.

use vstd::prelude::*;
use vstd::string::StringExecFns;

verus! {

/// The package managers a project can be launched with.
#[derive(Clone, Copy, Debug, PartialEq, Eq, Structural)]
pub enum PackageManager {
    Pnpm,
    Yarn,
    Npm,
}

/// Which manager a project uses, given which lockfiles sit at its root:
/// a pnpm lockfile wins over a yarn lockfile, and npm is the fallback.
pub open spec fn chosen_manager(has_pnpm_lock: bool, has_yarn_lock: bool) -> PackageManager {
    if has_pnpm_lock {
        PackageManager::Pnpm
    } else if has_yarn_lock {
        PackageManager::Yarn
    } else {
        PackageManager::Npm
    }
}

/// Picks the package manager from the presence of `pnpm-lock.yaml` and
/// `yarn.lock` at the project root.
pub fn detect_package_manager(has_pnpm_lock: bool, has_yarn_lock: bool) -> (r: PackageManager)
    ensures
        r == chosen_manager(has_pnpm_lock, has_yarn_lock),
{
    if has_pnpm_lock {
        PackageManager::Pnpm
    } else if has_yarn_lock {
        PackageManager::Yarn
    } else {
        PackageManager::Npm
    }
}

/// The lockfiles whose presence identifies a package manager.
#[derive(Clone, Copy, Debug, PartialEq, Eq, Structural)]
pub enum Lockfile {
    Pnpm,
    Yarn,
}

/// File name of a lockfile, as it sits at a project root.
pub open spec fn lockfile_name(l: Lockfile) -> Seq<char> {
    match l {
        Lockfile::Pnpm => "pnpm-lock.yaml"@,
        Lockfile::Yarn => "yarn.lock"@,
    }
}

/// Executable that a package manager is invoked as.
pub open spec fn program_name(pm: PackageManager) -> Seq<char> {
    match pm {
        PackageManager::Pnpm => "pnpm"@,
        PackageManager::Yarn => "yarn"@,
        PackageManager::Npm => "npm"@,
    }
}

/// `dir/name`: the path of a file directly inside a directory.
pub open spec fn child_path(dir: Seq<char>, name: Seq<char>) -> Seq<char> {
    dir + "/"@ + name
}

impl Lockfile {
    pub fn file_name(&self) -> (r: &'static str)
        ensures
            r@ == lockfile_name(*self),
    {
        match self {
            Lockfile::Pnpm => "pnpm-lock.yaml",
            Lockfile::Yarn => "yarn.lock",
        }
    }
}

impl PackageManager {
    pub fn program(&self) -> (r: &'static str)
        ensures
            r@ == program_name(*self),
    {
        match self {
            PackageManager::Pnpm => "pnpm",
            PackageManager::Yarn => "yarn",
            PackageManager::Npm => "npm",
        }
    }
}

/// Path of a lockfile at the root of the project in `repo_path`; the host
/// checks whether a file exists there.
pub fn lockfile_path(repo_path: &str, lockfile: Lockfile) -> (r: String)
    ensures
        r@ == child_path(repo_path@, lockfile_name(lockfile)),
{
    let mut path = String::from_str(repo_path);
    path.append("/");
    path.append(lockfile.file_name());
    path
}

/// Arguments handed to every package manager: run the project's `dev` script.
pub fn dev_script_args() -> (r: Vec<&'static str>)
    ensures
        r@.len() == 2,
        r@[0]@ == "run"@,
        r@[1]@ == "dev"@,
{
    vec!["run", "dev"]
}

/// A process to spawn: an executable, its arguments and its working directory.
pub struct LaunchCommand {
    pub program: &'static str,
    pub args: Vec<&'static str>,
    pub dir: String,
}

/// The command that starts the development server of the project in
/// `repo_path`, given which lockfiles were found at its root: the chosen
/// manager runs `run dev` in the project directory.
pub fn launch_command(repo_path: &str, has_pnpm_lock: bool, has_yarn_lock: bool) -> (r:
    LaunchCommand)
    ensures
        r.program@ == program_name(chosen_manager(has_pnpm_lock, has_yarn_lock)),
        r.args@.len() == 2,
        r.args@[0]@ == "run"@,
        r.args@[1]@ == "dev"@,
        r.dir@ == repo_path@,
{
    let pm = detect_package_manager(has_pnpm_lock, has_yarn_lock);
    LaunchCommand { program: pm.program(), args: dev_script_args(), dir: String::from_str(repo_path) }
}

} // verus!
