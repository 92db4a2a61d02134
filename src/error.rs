use vstd::prelude::*;
use vstd::string::StringExecFns;

verus! {

/// Mathematical model of a [`GatewayError`].
pub enum ErrorModel {
    MalformedPayload(Seq<char>),
    Timeout,
    TransportFailure(Seq<char>),
    DownstreamRejected(u16),
}

/// Why a request failed. Each failure is scoped to the request that caused it.
#[derive(Debug, Clone)]
pub enum GatewayError {
    /// The inbound body was not valid JSON or lacked a required string field.
    MalformedPayload { detail: String },
    /// The downstream service did not answer within the configured bound.
    Timeout,
    /// The downstream service could not be reached.
    TransportFailure { cause: String },
    /// The downstream service answered with a non-success status.
    DownstreamRejected { status: u16 },
}

impl View for GatewayError {
    type V = ErrorModel;

    open spec fn view(&self) -> ErrorModel {
        match self {
            GatewayError::MalformedPayload { detail } => ErrorModel::MalformedPayload(detail@),
            GatewayError::Timeout => ErrorModel::Timeout,
            GatewayError::TransportFailure { cause } => ErrorModel::TransportFailure(cause@),
            GatewayError::DownstreamRejected { status } => ErrorModel::DownstreamRejected(*status),
        }
    }
}

impl ErrorModel {
    /// HTTP status the transport layer answers with: 400 for a client error,
    /// 502 for any failure on the downstream side.
    pub open spec fn http_status(self) -> u16 {
        match self {
            ErrorModel::MalformedPayload(_) => 400,
            _ => 502,
        }
    }

    /// Human-readable description of the failure.
    pub open spec fn message(self) -> Seq<char> {
        match self {
            ErrorModel::MalformedPayload(d) => "Malformed payload: "@ + d,
            ErrorModel::Timeout => "Request timed out"@,
            ErrorModel::TransportFailure(c) => "HTTP request error: "@ + c,
            ErrorModel::DownstreamRejected(_) => "Downstream service rejected the request"@,
        }
    }
}

impl GatewayError {
    pub fn http_status(&self) -> (r: u16)
        ensures
            r == self@.http_status(),
    {
        match self {
            GatewayError::MalformedPayload { .. } => 400,
            _ => 502,
        }
    }

    pub fn message(&self) -> (r: String)
        ensures
            r@ == self@.message(),
    {
        match self {
            GatewayError::MalformedPayload { detail } => {
                let mut m = String::from_str("Malformed payload: ");
                m.append(detail.as_str());
                m
            },
            GatewayError::Timeout => String::from_str("Request timed out"),
            GatewayError::TransportFailure { cause } => {
                let mut m = String::from_str("HTTP request error: ");
                m.append(cause.as_str());
                m
            },
            GatewayError::DownstreamRejected { .. } => String::from_str(
                "Downstream service rejected the request",
            ),
        }
    }
}

} // verus!
