//! The status of a connection to SpatialOS, as the C API reports it.

use vstd::prelude::*;

verus! {

/// Connection status codes of the C API.
pub const WORKER_CONNECTION_STATUS_CODE_SUCCESS: i32 = 1;
pub const WORKER_CONNECTION_STATUS_CODE_INTERNAL_ERROR: i32 = 2;
pub const WORKER_CONNECTION_STATUS_CODE_INVALID_ARGUMENT: i32 = 3;
pub const WORKER_CONNECTION_STATUS_CODE_NETWORK_ERROR: i32 = 4;
pub const WORKER_CONNECTION_STATUS_CODE_TIMEOUT: i32 = 5;
pub const WORKER_CONNECTION_STATUS_CODE_CANCELLED: i32 = 6;
pub const WORKER_CONNECTION_STATUS_CODE_REJECTED: i32 = 7;
pub const WORKER_CONNECTION_STATUS_CODE_PLAYER_IDENTITY_TOKEN_EXPIRED: i32 = 8;
pub const WORKER_CONNECTION_STATUS_CODE_LOGIN_TOKEN_EXPIRED: i32 = 9;
pub const WORKER_CONNECTION_STATUS_CODE_CAPACITY_EXCEEDED: i32 = 10;
pub const WORKER_CONNECTION_STATUS_CODE_RATE_EXCEEDED: i32 = 11;
pub const WORKER_CONNECTION_STATUS_CODE_SERVER_SHUTDOWN: i32 = 12;

/// Why a connection is not (or no longer) usable, with the detail text that
/// SpatialOS gave.
#[derive(Clone, Debug)]
pub enum ConnectionStatusError {
    InternalError(String),
    InvalidArgument(String),
    NetworkError(String),
    Timeout(String),
    Cancelled(String),
    Rejected(String),
    PlayerIdentityTokenExpired(String),
    LoginTokenExpired(String),
    CapacityExceeded(String),
    RateExceeded(String),
    ServerShutdown(String),
}

pub type ConnectionStatus = Result<(), ConnectionStatusError>;

/// Whether `code` is one of the connection status codes of the C API.
pub open spec fn is_connection_status_code(code: i32) -> bool {
    1 <= code <= 12
}

/// The connection status that a status code and its detail text stand for.
pub open spec fn connection_status_of(code: i32, detail: String) -> ConnectionStatus {
    if code == WORKER_CONNECTION_STATUS_CODE_SUCCESS {
        Ok(())
    } else if code == WORKER_CONNECTION_STATUS_CODE_INTERNAL_ERROR {
        Err(ConnectionStatusError::InternalError(detail))
    } else if code == WORKER_CONNECTION_STATUS_CODE_INVALID_ARGUMENT {
        Err(ConnectionStatusError::InvalidArgument(detail))
    } else if code == WORKER_CONNECTION_STATUS_CODE_NETWORK_ERROR {
        Err(ConnectionStatusError::NetworkError(detail))
    } else if code == WORKER_CONNECTION_STATUS_CODE_TIMEOUT {
        Err(ConnectionStatusError::Timeout(detail))
    } else if code == WORKER_CONNECTION_STATUS_CODE_CANCELLED {
        Err(ConnectionStatusError::Cancelled(detail))
    } else if code == WORKER_CONNECTION_STATUS_CODE_REJECTED {
        Err(ConnectionStatusError::Rejected(detail))
    } else if code == WORKER_CONNECTION_STATUS_CODE_PLAYER_IDENTITY_TOKEN_EXPIRED {
        Err(ConnectionStatusError::PlayerIdentityTokenExpired(detail))
    } else if code == WORKER_CONNECTION_STATUS_CODE_LOGIN_TOKEN_EXPIRED {
        Err(ConnectionStatusError::LoginTokenExpired(detail))
    } else if code == WORKER_CONNECTION_STATUS_CODE_CAPACITY_EXCEEDED {
        Err(ConnectionStatusError::CapacityExceeded(detail))
    } else if code == WORKER_CONNECTION_STATUS_CODE_RATE_EXCEEDED {
        Err(ConnectionStatusError::RateExceeded(detail))
    } else {
        Err(ConnectionStatusError::ServerShutdown(detail))
    }
}

/// The code of a connection status in the C API, in the order of the C
/// API's codes: success 1, internal error 2, invalid argument 3, network
/// error 4, timeout 5, cancelled 6, rejected 7, player identity token expired
/// 8, login token expired 9, capacity exceeded 10, rate exceeded 11, server
/// shutdown 12.
pub open spec fn connection_status_code(status: ConnectionStatus) -> i32 {
    match status {
        Ok(()) => 1,
        Err(ConnectionStatusError::InternalError(_)) => 2,
        Err(ConnectionStatusError::InvalidArgument(_)) => 3,
        Err(ConnectionStatusError::NetworkError(_)) => 4,
        Err(ConnectionStatusError::Timeout(_)) => 5,
        Err(ConnectionStatusError::Cancelled(_)) => 6,
        Err(ConnectionStatusError::Rejected(_)) => 7,
        Err(ConnectionStatusError::PlayerIdentityTokenExpired(_)) => 8,
        Err(ConnectionStatusError::LoginTokenExpired(_)) => 9,
        Err(ConnectionStatusError::CapacityExceeded(_)) => 10,
        Err(ConnectionStatusError::RateExceeded(_)) => 11,
        Err(ConnectionStatusError::ServerShutdown(_)) => 12,
    }
}

/// Decoding agrees with the C API's codes: every connection status code
/// decodes to the status with that code, an error carrying the detail text;
/// and a status decoded from its own code and detail is the status itself.
pub proof fn lemma_connection_status_code_roundtrip(
    code: i32,
    detail: String,
    status: ConnectionStatus,
)
    ensures
        is_connection_status_code(code) ==> connection_status_code(
            connection_status_of(code, detail),
        ) == code,
        connection_status_of(code, detail) matches Err(e) ==> e.detail() == detail,
        match status {
            Ok(_) => connection_status_of(connection_status_code(status), detail) is Ok,
            Err(e) => connection_status_of(connection_status_code(status), e.detail()) == status,
        },
{
    match status {
        Ok(_) => {},
        Err(e) => match e {
            ConnectionStatusError::InternalError(_) => {},
            ConnectionStatusError::InvalidArgument(_) => {},
            ConnectionStatusError::NetworkError(_) => {},
            ConnectionStatusError::Timeout(_) => {},
            ConnectionStatusError::Cancelled(_) => {},
            ConnectionStatusError::Rejected(_) => {},
            ConnectionStatusError::PlayerIdentityTokenExpired(_) => {},
            ConnectionStatusError::LoginTokenExpired(_) => {},
            ConnectionStatusError::CapacityExceeded(_) => {},
            ConnectionStatusError::RateExceeded(_) => {},
            ConnectionStatusError::ServerShutdown(_) => {},
        },
    }
}

/// Decodes the connection status that the C API reports as a code and a
/// detail text. Codes outside the C API's range are not statuses.
pub fn connection_status_from_code(code: i32, detail: String) -> (res: ConnectionStatus)
    requires
        is_connection_status_code(code),
    ensures
        res == connection_status_of(code, detail),
{
    match code {
        1 => Ok(()),
        2 => Err(ConnectionStatusError::InternalError(detail)),
        3 => Err(ConnectionStatusError::InvalidArgument(detail)),
        4 => Err(ConnectionStatusError::NetworkError(detail)),
        5 => Err(ConnectionStatusError::Timeout(detail)),
        6 => Err(ConnectionStatusError::Cancelled(detail)),
        7 => Err(ConnectionStatusError::Rejected(detail)),
        8 => Err(ConnectionStatusError::PlayerIdentityTokenExpired(detail)),
        9 => Err(ConnectionStatusError::LoginTokenExpired(detail)),
        10 => Err(ConnectionStatusError::CapacityExceeded(detail)),
        11 => Err(ConnectionStatusError::RateExceeded(detail)),
        _ => Err(ConnectionStatusError::ServerShutdown(detail)),
    }
}

impl ConnectionStatusError {
    /// The label that introduces the detail text in the error's message.
    pub open spec fn label(&self) -> Seq<char> {
        match self {
            ConnectionStatusError::InternalError(_) => "Internal error: "@,
            ConnectionStatusError::InvalidArgument(_) => "Invalid argument: "@,
            ConnectionStatusError::NetworkError(_) => "Network error: "@,
            ConnectionStatusError::Timeout(_) => "Timeout: "@,
            ConnectionStatusError::Cancelled(_) => "Cancelled: "@,
            ConnectionStatusError::Rejected(_) => "Rejected: "@,
            ConnectionStatusError::PlayerIdentityTokenExpired(_) => "Player identity token expired: "@,
            ConnectionStatusError::LoginTokenExpired(_) => "Login token expired: "@,
            ConnectionStatusError::CapacityExceeded(_) => "Capacity exceeded: "@,
            ConnectionStatusError::RateExceeded(_) => "Rate exceeded: "@,
            ConnectionStatusError::ServerShutdown(_) => "Server shutdown: "@,
        }
    }

    /// The detail text that SpatialOS gave.
    pub open spec fn detail(&self) -> String {
        match self {
            ConnectionStatusError::InternalError(d) => *d,
            ConnectionStatusError::InvalidArgument(d) => *d,
            ConnectionStatusError::NetworkError(d) => *d,
            ConnectionStatusError::Timeout(d) => *d,
            ConnectionStatusError::Cancelled(d) => *d,
            ConnectionStatusError::Rejected(d) => *d,
            ConnectionStatusError::PlayerIdentityTokenExpired(d) => *d,
            ConnectionStatusError::LoginTokenExpired(d) => *d,
            ConnectionStatusError::CapacityExceeded(d) => *d,
            ConnectionStatusError::RateExceeded(d) => *d,
            ConnectionStatusError::ServerShutdown(d) => *d,
        }
    }

    /// The error's message: its label followed by the detail text.
    pub fn to_string(&self) -> (res: String)
        ensures
            res@ == self.label() + self.detail()@,
    {
        let (label, detail) = match self {
            ConnectionStatusError::InternalError(d) => (String::from_str("Internal error: "), d),
            ConnectionStatusError::InvalidArgument(d) => (String::from_str("Invalid argument: "), d),
            ConnectionStatusError::NetworkError(d) => (String::from_str("Network error: "), d),
            ConnectionStatusError::Timeout(d) => (String::from_str("Timeout: "), d),
            ConnectionStatusError::Cancelled(d) => (String::from_str("Cancelled: "), d),
            ConnectionStatusError::Rejected(d) => (String::from_str("Rejected: "), d),
            ConnectionStatusError::PlayerIdentityTokenExpired(d) => (
                String::from_str("Player identity token expired: "),
                d,
            ),
            ConnectionStatusError::LoginTokenExpired(d) => (
                String::from_str("Login token expired: "),
                d,
            ),
            ConnectionStatusError::CapacityExceeded(d) => (
                String::from_str("Capacity exceeded: "),
                d,
            ),
            ConnectionStatusError::RateExceeded(d) => (String::from_str("Rate exceeded: "), d),
            ConnectionStatusError::ServerShutdown(d) => (String::from_str("Server shutdown: "), d),
        };
        let mut s = label;
        s.append(detail.as_str());
        s
    }
}


/// A connection is usable exactly when its status code is the success code;
/// every error keeps the detail text that came with it.
pub proof fn lemma_ok_iff_success_code(code: i32, detail: String)
    requires
        is_connection_status_code(code),
    ensures
        connection_status_of(code, detail) is Ok <==> code == WORKER_CONNECTION_STATUS_CODE_SUCCESS,
        connection_status_of(code, detail) matches Err(e) ==> e.detail() == detail,
{
}

} // verus!
