use vstd::prelude::*;

use jsonrpc::serde_json::Error as JsonError;
use jsonrpc::simple_http::Error as HttpError;
use jsonrpc::Error as RpcError;

verus! {

/// Declares std's `io::Error`, carried opaquely in [`Error::Io`].
#[verifier::external_type_specification]
#[verifier::external_body]
pub struct ExIoError(std::io::Error);

/// Declares jsonrpc's `Error`, carried opaquely in [`Error::Rpc`].
#[verifier::external_type_specification]
#[verifier::external_body]
pub struct ExRpcError(RpcError);

/// Declares jsonrpc's `simple_http::Error`, carried opaquely in [`Error::RpcSimpleHttp`].
#[verifier::external_type_specification]
#[verifier::external_body]
pub struct ExHttpError(HttpError);

/// Declares serde_json's `Error`, carried opaquely in [`Error::Json`].
#[verifier::external_type_specification]
#[verifier::external_body]
pub struct ExJsonError(JsonError);

/// All the possible errors of this crate.
#[derive(Debug)]
pub enum Error {
    /// A filesystem or process-spawn failure.
    Io(std::io::Error),
    /// A JSON-RPC protocol failure.
    Rpc(RpcError),
    /// A failure of the HTTP transport under the JSON-RPC client.
    RpcSimpleHttp(HttpError),
    /// A JSON serialization failure.
    Json(JsonError),
    /// A method needs a build-provisioned executable, and there is none.
    NoFeature,
    /// A method needs the `ELECTRUMD_EXE` environment variable, and it is not set.
    NoEnvVar,
    /// Neither a build-provisioned executable nor `ELECTRUMD_EXE` is available.
    NeitherFeatureNorEnvVar,
    /// Both a build-provisioned executable and `ELECTRUMD_EXE` are available.
    BothFeatureAndEnvVar,
}


impl From<std::io::Error> for Error {
    fn from(e: std::io::Error) -> (r: Error)
        ensures
            r == Error::Io(e),
    {
        Error::Io(e)
    }
}

impl vstd::std_specs::convert::FromSpecImpl<std::io::Error> for Error {
    open spec fn obeys_from_spec() -> bool {
        true
    }

    open spec fn from_spec(e: std::io::Error) -> Error {
        Error::Io(e)
    }
}

impl From<RpcError> for Error {
    fn from(e: RpcError) -> (r: Error)
        ensures
            r == Error::Rpc(e),
    {
        Error::Rpc(e)
    }
}

impl vstd::std_specs::convert::FromSpecImpl<RpcError> for Error {
    open spec fn obeys_from_spec() -> bool {
        true
    }

    open spec fn from_spec(e: RpcError) -> Error {
        Error::Rpc(e)
    }
}

impl From<HttpError> for Error {
    fn from(e: HttpError) -> (r: Error)
        ensures
            r == Error::RpcSimpleHttp(e),
    {
        Error::RpcSimpleHttp(e)
    }
}

impl vstd::std_specs::convert::FromSpecImpl<HttpError> for Error {
    open spec fn obeys_from_spec() -> bool {
        true
    }

    open spec fn from_spec(e: HttpError) -> Error {
        Error::RpcSimpleHttp(e)
    }
}

impl From<JsonError> for Error {
    fn from(e: JsonError) -> (r: Error)
        ensures
            r == Error::Json(e),
    {
        Error::Json(e)
    }
}

impl vstd::std_specs::convert::FromSpecImpl<JsonError> for Error {
    open spec fn obeys_from_spec() -> bool {
        true
    }

    open spec fn from_spec(e: JsonError) -> Error {
        Error::Json(e)
    }
}

} // verus!
