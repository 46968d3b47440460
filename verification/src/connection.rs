//! The parameters on which shell and worker meet, and the record of the
//! version that last ran.

use crate::decimal::str_eq;
use crate::port::{DEFAULT_HOST, RELEASE_PORT};
use crate::token::{generate_secure_token, is_token, TokenError};
use vstd::prelude::*;
use vstd::string::*;

verus! {

/// Environment variable that names the worker's host, when attaching to a
/// worker that something else runs.
pub const HOST_VAR: &'static str = "DAEMON_HOST";

/// Environment variable that names the worker's port, when attaching to a
/// worker that something else runs.
pub const PORT_VAR: &'static str = "DAEMON_PORT";

/// Environment variable that holds the worker's token, when attaching to a
/// worker that something else runs.
pub const TOKEN_VAR: &'static str = "DAEMON_TOKEN";

/// File, in the application's data directory, that holds the version that
/// last ran.
pub const VERSION_FILE: &'static str = "desktop_version.txt";

/// Version assumed to have run last where no record of one can be read.
pub const UNRECORDED_VERSION: &'static str = "0.0.0";

/// Where and how the shell reaches its worker. Made once per run and not
/// changed after.
#[derive(Debug, PartialEq, Eq)]
pub struct ConnectionParams {
    pub host: String,
    pub port: String,
    pub token: String,
}

/// Mathematical content of [`ConnectionParams`].
pub struct ConnectionParamsView {
    pub host: Seq<char>,
    pub port: Seq<char>,
    pub token: Seq<char>,
}

impl View for ConnectionParams {
    type V = ConnectionParamsView;

    open spec fn view(&self) -> ConnectionParamsView {
        ConnectionParamsView { host: self.host@, port: self.port@, token: self.token@ }
    }
}

/// An override that an attaching shell needs and the environment lacks.
#[derive(Clone, Copy, Debug, PartialEq, Eq, Structural)]
pub enum MissingOverride {
    Host,
    Port,
    Token,
}

impl MissingOverride {
    /// Name of the environment variable that is not set.
    pub fn variable(&self) -> (name: &'static str)
        ensures
            name@ == match *self {
                MissingOverride::Host => HOST_VAR@,
                MissingOverride::Port => PORT_VAR@,
                MissingOverride::Token => TOKEN_VAR@,
            },
    {
        match self {
            MissingOverride::Host => HOST_VAR,
            MissingOverride::Port => PORT_VAR,
            MissingOverride::Token => TOKEN_VAR,
        }
    }
}

/// Parameters of a release build around a token already made: the loopback
/// address and the fixed port. No environment variable has a say in them.
pub fn release_params(token: String) -> (params: ConnectionParams)
    ensures
        params@ == (ConnectionParamsView {
            host: DEFAULT_HOST@,
            port: RELEASE_PORT@,
            token: token@,
        }),
{
    ConnectionParams { host: DEFAULT_HOST.to_owned(), port: RELEASE_PORT.to_owned(), token }
}

/// Makes the connection parameters of a release build, with a fresh token.
/// Fails only where no token can be made.
pub fn generate_daemon_client_args() -> (params: Result<ConnectionParams, TokenError>)
    ensures
        params matches Ok(made) ==> {
            &&& made@.host == DEFAULT_HOST@
            &&& made@.port == RELEASE_PORT@
            &&& is_token(made@.token)
        },
        params matches Err(error) ==> error == TokenError::EntropyUnavailable,
{
    release_params_around(generate_secure_token())
}

/// What becomes of an attempt to make a token: the parameters of a release
/// build around the token if one was made, and the same error if none was.
pub fn release_params_around(token: Result<String, TokenError>) -> (params: Result<
    ConnectionParams,
    TokenError,
>)
    ensures
        match token {
            Ok(text) => params matches Ok(made) && made@ == (ConnectionParamsView {
                host: DEFAULT_HOST@,
                port: RELEASE_PORT@,
                token: text@,
            }),
            Err(error) => params == Err::<ConnectionParams, TokenError>(error),
        },
{
    match token {
        Ok(text) => Ok(release_params(text)),
        Err(error) => Err(error),
    }
}

/// Takes the connection parameters of a development build from the values of
/// the three override variables: the one way in which the environment sets
/// them. All three must be set; the first that is not, in the order host,
/// port, token, is the error.
pub fn attach_params(host: Option<String>, port: Option<String>, token: Option<String>) -> (params:
    Result<ConnectionParams, MissingOverride>)
    ensures
        match (host, port, token) {
            (Some(h), Some(p), Some(t)) => params matches Ok(made) && made@ == (
            ConnectionParamsView { host: h@, port: p@, token: t@ }),
            (None, _, _) => params == Err::<ConnectionParams, MissingOverride>(
                MissingOverride::Host,
            ),
            (Some(_), None, _) => params == Err::<ConnectionParams, MissingOverride>(
                MissingOverride::Port,
            ),
            (Some(_), Some(_), None) => params == Err::<ConnectionParams, MissingOverride>(
                MissingOverride::Token,
            ),
        },
{
    let host = match host {
        Some(host) => host,
        None => { return Err(MissingOverride::Host); },
    };
    let port = match port {
        Some(port) => port,
        None => { return Err(MissingOverride::Port); },
    };
    let token = match token {
        Some(token) => token,
        None => { return Err(MissingOverride::Token); },
    };
    Ok(ConnectionParams { host, port, token })
}

/// The fragment that hands the connection parameters to the main window.
pub open spec fn main_url(host: Seq<char>, port: Seq<char>, token: Seq<char>) -> Seq<char> {
    "#host="@ + host + "&port="@ + port + "&token="@ + token
}

/// Builds the address of the main window's page for the given parameters.
pub fn generate_main_url(host: &str, port: &str, token: &str) -> (url: String)
    ensures
        url@ == main_url(host@, port@, token@),
{
    let mut url = "#host=".to_owned();
    url.append(host);
    url.append("&port=");
    url.append(port);
    url.append("&token=");
    url.append(token);
    url
}

/// Whether the shell has changed since the version on record, if any, ran.
pub open spec fn version_changed(previous_version: Option<Seq<char>>, current_version: Seq<char>) -> bool {
    match previous_version {
        Some(previous) => previous != current_version,
        None => UNRECORDED_VERSION@ != current_version,
    }
}

/// Decides whether this is the first run after an update, from the recorded
/// version as read, taken letter for letter, and the running one. Where it
/// is, the caller records the running version in place of the old.
pub fn is_app_updated(previous_version: Option<&str>, current_version: &str) -> (updated: bool)
    ensures
        updated == version_changed(
            match previous_version {
                Some(previous) => Some(previous@),
                None => None,
            },
            current_version@,
        ),
{
    match previous_version {
        Some(previous) => !str_eq(previous, current_version),
        None => !str_eq(UNRECORDED_VERSION, current_version),
    }
}

} // verus!
