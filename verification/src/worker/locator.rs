//! Requests to the SpatialOS locator for development player identity tokens
//! and login tokens, and how their responses are read.
//!
//! Strings passed to the C API may not contain a NUL character.

use vstd::prelude::*;
use crate::worker::connection::WORKER_CONNECTION_STATUS_CODE_SUCCESS;

verus! {

/// Whether a text can be passed to the C API: it holds no NUL character.
pub open spec fn is_c_text(s: Seq<char>) -> bool {
    !s.contains('\0')
}

/// A request for a development player identity token.
pub struct PlayerIdentityTokenRequest {
    pub dev_auth_token: String,
    pub player_id: String,
    pub duration_seconds: Option<u32>,
    pub display_name: Option<String>,
    pub metadata: Option<String>,
    pub use_insecure_connection: bool,
}

impl PlayerIdentityTokenRequest {
    /// A request with the given token and player ID, and no duration, display
    /// name or metadata, over a secure connection.
    pub fn new(dev_auth_token: String, player_id: String) -> (res: Self)
        requires
            is_c_text(dev_auth_token@),
            is_c_text(player_id@),
        ensures
            res.dev_auth_token == dev_auth_token,
            res.player_id == player_id,
            res.duration_seconds is None,
            res.display_name is None,
            res.metadata is None,
            !res.use_insecure_connection,
    {
        PlayerIdentityTokenRequest {
            dev_auth_token,
            player_id,
            duration_seconds: None,
            display_name: None,
            metadata: None,
            use_insecure_connection: false,
        }
    }

    /// The request, for a token valid for `seconds`.
    pub fn with_duration_secs(self, seconds: u32) -> (res: Self)
        ensures
            res == (PlayerIdentityTokenRequest { duration_seconds: Some(seconds), ..self }),
    {
        PlayerIdentityTokenRequest { duration_seconds: Some(seconds), ..self }
    }

    /// The request, with the display name `display_name`.
    pub fn with_display_name(self, display_name: String) -> (res: Self)
        requires
            is_c_text(display_name@),
        ensures
            res == (PlayerIdentityTokenRequest { display_name: Some(display_name), ..self }),
    {
        PlayerIdentityTokenRequest { display_name: Some(display_name), ..self }
    }

    /// The request, with the metadata `metadata`.
    pub fn with_metadata(self, metadata: String) -> (res: Self)
        requires
            is_c_text(metadata@),
        ensures
            res == (PlayerIdentityTokenRequest { metadata: Some(metadata), ..self }),
    {
        PlayerIdentityTokenRequest { metadata: Some(metadata), ..self }
    }

    /// The request, over an insecure connection.
    pub fn with_insecure_connection(self) -> (res: Self)
        ensures
            res == (PlayerIdentityTokenRequest { use_insecure_connection: true, ..self }),
    {
        PlayerIdentityTokenRequest { use_insecure_connection: true, ..self }
    }
}

/// The locator's answer to a player identity token request.
pub struct PlayerIdentityTokenResponse {
    pub player_identity_token: String,
}

impl PlayerIdentityTokenResponse {
    /// Reads the locator's answer: the token when the connection status code
    /// is success, else the status's detail text as the error.
    pub fn from_status(code: i32, detail: String, player_identity_token: String) -> (res: Result<
        Self,
        String,
    >)
        ensures
            code == WORKER_CONNECTION_STATUS_CODE_SUCCESS ==> res == Ok::<Self, String>(
                PlayerIdentityTokenResponse { player_identity_token },
            ),
            code != WORKER_CONNECTION_STATUS_CODE_SUCCESS ==> res == Err::<Self, String>(detail),
    {
        if code != WORKER_CONNECTION_STATUS_CODE_SUCCESS {
            return Err(detail);
        }
        Ok(PlayerIdentityTokenResponse { player_identity_token })
    }
}

/// A request for development login tokens.
pub struct LoginTokensRequest {
    pub player_identity_token: String,
    pub worker_type: String,
    pub duration_seconds: Option<u32>,
    pub use_insecure_connection: bool,
}

impl LoginTokensRequest {
    /// A request for login tokens for the worker type `worker_type`, with no
    /// duration, over a secure connection.
    pub fn new(player_identity_token: String, worker_type: String) -> (res: Self)
        requires
            is_c_text(player_identity_token@),
            is_c_text(worker_type@),
        ensures
            res.player_identity_token == player_identity_token,
            res.worker_type == worker_type,
            res.duration_seconds is None,
            !res.use_insecure_connection,
    {
        LoginTokensRequest {
            player_identity_token,
            worker_type,
            duration_seconds: None,
            use_insecure_connection: false,
        }
    }

    /// The request, for tokens valid for `duration` seconds.
    pub fn with_duration_seconds(self, duration: u32) -> (res: Self)
        ensures
            res == (LoginTokensRequest { duration_seconds: Some(duration), ..self }),
    {
        LoginTokensRequest { duration_seconds: Some(duration), ..self }
    }

    /// The request, over an insecure connection.
    pub fn with_insecure_connection(self) -> (res: Self)
        ensures
            res == (LoginTokensRequest { use_insecure_connection: true, ..self }),
    {
        LoginTokensRequest { use_insecure_connection: true, ..self }
    }
}

/// A login token for one deployment.
pub struct LoginTokenDetails {
    pub deployment_id: String,
    pub deployment_name: String,
    pub tags: Vec<String>,
    pub login_token: String,
}

/// The locator's answer to a login tokens request.
pub struct LoginTokensResponse {
    pub login_tokens: Vec<LoginTokenDetails>,
}

impl LoginTokensResponse {
    /// Reads the locator's answer: the tokens when the connection status code
    /// is success, else the status's detail text as the error.
    pub fn from_status(code: i32, detail: String, login_tokens: Vec<LoginTokenDetails>) -> (res:
        Result<Self, String>)
        ensures
            code == WORKER_CONNECTION_STATUS_CODE_SUCCESS ==> res == Ok::<Self, String>(
                LoginTokensResponse { login_tokens },
            ),
            code != WORKER_CONNECTION_STATUS_CODE_SUCCESS ==> res == Err::<Self, String>(detail),
    {
        if code != WORKER_CONNECTION_STATUS_CODE_SUCCESS {
            return Err(detail);
        }
        Ok(LoginTokensResponse { login_tokens })
    }
}

/// Credentials of a player identity, for connecting through the locator.
pub struct PlayerIdentityCredentials {
    player_identity_token: String,
    login_token: String,
}

impl PlayerIdentityCredentials {
    /// The player identity token.
    pub closed spec fn spec_player_identity_token(&self) -> Seq<char> {
        self.player_identity_token@
    }

    /// The login token.
    pub closed spec fn spec_login_token(&self) -> Seq<char> {
        self.login_token@
    }

    pub fn new(pit: String, token: String) -> (res: Self)
        requires
            is_c_text(pit@),
            is_c_text(token@),
        ensures
            res.spec_player_identity_token() == pit@,
            res.spec_login_token() == token@,
    {
        PlayerIdentityCredentials { player_identity_token: pit, login_token: token }
    }
}

/// Parameters for connecting through the locator.
pub struct LocatorParameters {
    pub credentials: PlayerIdentityCredentials,
    pub use_insecure_connection: bool,
}

impl LocatorParameters {
    /// Parameters with the given credentials, over a secure connection.
    pub fn new(credentials: PlayerIdentityCredentials) -> (res: Self)
        ensures
            res.credentials == credentials,
            !res.use_insecure_connection,
    {
        LocatorParameters { credentials, use_insecure_connection: false }
    }

    /// The parameters, over an insecure connection.
    pub fn with_insecure_connection(self) -> (res: Self)
        ensures
            res.credentials == self.credentials,
            res.use_insecure_connection,
    {
        LocatorParameters { use_insecure_connection: true, ..self }
    }
}

} // verus!
