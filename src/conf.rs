use vstd::prelude::*;

use std::path::PathBuf;

verus! {

#[verifier::external_type_specification]
#[verifier::external_body]
pub struct ExPathBuf(std::path::PathBuf);

/// Relies on `PathBuf`'s `Clone` impl, which copies the path; nothing about
/// the copy is claimed.
pub assume_specification[ <std::path::PathBuf as Clone>::clone ](p: &std::path::PathBuf) -> std::path::PathBuf;

/// The daemon configuration parameters.
///
/// Built with [`Conf::default`] and then changed field by field, so that new
/// fields can be added without breaking callers.
#[non_exhaustive]
#[derive(Debug, PartialEq, Eq)]
pub struct Conf<'a> {
    /// Extra command line arguments, each without spaces, like `vec!["--oneserver"]`.
    pub args: Vec<&'a str>,
    /// If `true` the daemon's output is shown, else it goes to the null device.
    pub view_stdout: bool,
    /// The network, as passed to the daemon without the dashes; it names the
    /// subdirectory where the daemon keeps its configuration and wallets.
    pub network: &'a str,
    /// Where the temporary working directory is created. When `None`, the
    /// `TEMPDIR_ROOT` environment variable is used if set, else the system's
    /// temporary directory.
    pub tmpdir: Option<PathBuf>,
}

/// Where the working directory of a daemon is created.
pub enum TempRoot<'b> {
    /// Below the directory that the configuration names.
    Given(&'b PathBuf),
    /// Below the directory that the `TEMPDIR_ROOT` environment variable names.
    FromEnv(String),
    /// Below the system's temporary directory.
    OsDefault,
}

impl Default for Conf<'_> {
    fn default() -> (r: Self)
        ensures
            r.args@.len() == 0,
            !r.view_stdout,
            r.network@ == "regtest"@,
            r.tmpdir is None,
    {
        Conf { args: Vec::new(), view_stdout: false, network: "regtest", tmpdir: None }
    }
}

impl<'a> Conf<'a> {
    /// Picks the root of the working directory: the configured directory
    /// first, then the value of `TEMPDIR_ROOT` (`env_value`), then the
    /// system's temporary directory.
    pub fn temp_root<'b>(&'b self, env_value: Option<String>) -> (r: TempRoot<'b>)
        ensures
            self.tmpdir is Some ==> r is Given && *r->Given_0 == self.tmpdir->Some_0,
            self.tmpdir is None && env_value is Some ==> r == TempRoot::FromEnv(env_value->Some_0),
            self.tmpdir is None && env_value is None ==> r is OsDefault,
    {
        match &self.tmpdir {
            Some(path) => TempRoot::Given(path),
            None => match env_value {
                Some(root) => TempRoot::FromEnv(root),
                None => TempRoot::OsDefault,
            },
        }
    }
}

} // verus!
