use vstd::prelude::*;

use crate::error::Error;
use crate::versions::{HAS_FEATURE, VERSION};

verus! {

/// Where the build places a provisioned executable below `out_dir`.
pub open spec fn bundled_exe_path(out_dir: Seq<char>, version: Seq<char>) -> Seq<char> {
    out_dir + "/electrum/electrum-"@ + version + "/electrum.AppImage"@
}

/// The path of the executable provisioned at build time below `out_dir`,
/// or `NoFeature` when the crate was built without one.
pub fn downloaded_exe_path(out_dir: &str) -> (r: Result<String, Error>)
    ensures
        HAS_FEATURE ==> r is Ok && r->Ok_0@ == bundled_exe_path(out_dir@, VERSION@),
        !HAS_FEATURE ==> r is Err && r->Err_0 is NoFeature,
{
    if HAS_FEATURE {
        let mut path = String::from_str(out_dir);
        path.append("/electrum/electrum-");
        path.append(VERSION);
        path.append("/electrum.AppImage");
        Ok(path)
    } else {
        Err(Error::NoFeature)
    }
}

/// The executable chosen from the build-provisioned path and the value of
/// the `ELECTRUMD_EXE` environment variable: the one that is present, or an
/// error that tells whether both or neither are.
pub open spec fn selected_exe_path(downloaded: Result<String, Error>, env_value: Option<String>) -> Result<String, Error> {
    match (downloaded, env_value) {
        (Ok(_), Some(_)) => Err(Error::BothFeatureAndEnvVar),
        (Ok(path), None) => Ok(path),
        (Err(_), Some(path)) => Ok(path),
        (Err(_), None) => Err(Error::NeitherFeatureNorEnvVar),
    }
}

/// Chooses the daemon executable from the build-provisioned path and the
/// value of the `ELECTRUMD_EXE` environment variable: exactly one of them
/// must be present.
pub fn select_exe_path(downloaded: Result<String, Error>, env_value: Option<String>) -> (r: Result<String, Error>)
    ensures
        r == selected_exe_path(downloaded, env_value),
{
    match (downloaded, env_value) {
        (Ok(_), Some(_)) => Err(Error::BothFeatureAndEnvVar),
        (Ok(path), None) => Ok(path),
        (Err(_), Some(path)) => Ok(path),
        (Err(_), None) => Err(Error::NeitherFeatureNorEnvVar),
    }
}

/// With neither a provisioned executable nor the environment variable the
/// choice fails, with both it fails too, and the two errors differ.
pub proof fn lemma_missing_and_doubled_exe_differ(
    missing: Error,
    provisioned: String,
    env_value: String,
)
    ensures
        selected_exe_path(Err(missing), None) is Err,
        selected_exe_path(Ok(provisioned), Some(env_value)) is Err,
        selected_exe_path(Err(missing), None)->Err_0 is NeitherFeatureNorEnvVar,
        selected_exe_path(Ok(provisioned), Some(env_value))->Err_0 is BothFeatureAndEnvVar,
        selected_exe_path(Err(missing), None) != selected_exe_path(Ok(provisioned), Some(env_value)),
{
}

} // verus!
