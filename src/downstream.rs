use vstd::prelude::*;
use vstd::string::StringExecFns;

use crate::error::{ErrorModel, GatewayError};
use crate::json::{json_quoted, push_member};

verus! {

/// Model of a [`GatewayConfig`].
pub struct ConfigModel {
    pub storage_write_url: Seq<char>,
    pub save_image_url: Seq<char>,
    pub timeout_secs: u64,
}

/// Where the downstream services live and how long a call may take.
#[derive(Debug, Clone)]
pub struct GatewayConfig {
    pub storage_write_url: String,
    pub save_image_url: String,
    pub timeout_secs: u64,
}

impl View for GatewayConfig {
    type V = ConfigModel;

    open spec fn view(&self) -> ConfigModel {
        ConfigModel {
            storage_write_url: self.storage_write_url@,
            save_image_url: self.save_image_url@,
            timeout_secs: self.timeout_secs,
        }
    }
}

/// Seconds a downstream call may take before it is abandoned.
pub const DEFAULT_TIMEOUT_SECS: u64 = 30;

impl GatewayConfig {
    /// The services on their usual local ports, with the default timeout.
    pub fn local() -> (r: GatewayConfig)
        ensures
            r@ == (ConfigModel {
                storage_write_url: "http://localhost:3033/upload"@,
                save_image_url: "http://localhost:3032/url"@,
                timeout_secs: DEFAULT_TIMEOUT_SECS,
            }),
    {
        GatewayConfig {
            storage_write_url: String::from_str("http://localhost:3033/upload"),
            save_image_url: String::from_str("http://localhost:3032/url"),
            timeout_secs: DEFAULT_TIMEOUT_SECS,
        }
    }
}

/// The downstream service that a call goes to.
#[derive(Debug, Clone, Copy, PartialEq, Eq, Structural)]
pub enum Service {
    StorageWrite,
    SaveImage,
}

/// Model of an [`OutboundCall`].
pub struct CallModel {
    pub service: Service,
    pub target: Seq<char>,
    pub request_id: Seq<char>,
    pub body: Seq<char>,
    pub timeout_secs: u64,
}

/// One HTTP POST to a downstream service: the body, and the correlation
/// identifier for the `requestId` header, bounded by `timeout_secs`.
#[derive(Debug, Clone)]
pub struct OutboundCall {
    pub service: Service,
    pub target: String,
    pub request_id: String,
    pub body: String,
    pub timeout_secs: u64,
}

impl View for OutboundCall {
    type V = CallModel;

    open spec fn view(&self) -> CallModel {
        CallModel {
            service: self.service,
            target: self.target@,
            request_id: self.request_id@,
            body: self.body@,
            timeout_secs: self.timeout_secs,
        }
    }
}

/// What became of one outbound call.
#[derive(Debug, Clone)]
pub enum CallOutcome {
    /// No answer came within the call's timeout.
    TimedOut,
    /// The connection failed; `cause` describes why.
    Unreachable { cause: String },
    /// The service answered; `resolved_url` is the `url` string member of a
    /// JSON answer body, if it has one.
    Responded { status: u16, resolved_url: Option<String> },
}

/// Media type of a reply body.
#[derive(Debug, Clone, Copy, PartialEq, Eq, Structural)]
pub enum ContentType {
    Html,
    Json,
}

/// Model of a [`Reply`].
pub struct ReplyModel {
    pub status: u16,
    pub content_type: ContentType,
    pub body: Seq<char>,
}

/// A successful reply to the caller.
#[derive(Debug, Clone)]
pub struct Reply {
    pub status: u16,
    pub content_type: ContentType,
    pub body: String,
}

impl View for Reply {
    type V = ReplyModel;

    open spec fn view(&self) -> ReplyModel {
        ReplyModel { status: self.status, content_type: self.content_type, body: self.body@ }
    }
}

/// A 2xx status.
pub open spec fn is_success(status: u16) -> bool {
    200 <= status <= 299
}

pub fn is_success_status(status: u16) -> (r: bool)
    ensures
        r == is_success(status),
{
    200 <= status && status <= 299
}

/// Confirmation text for a stored upload.
pub open spec fn upload_confirmation() -> Seq<char> {
    "Received metadata successfully"@
}

/// The envelope that answers a relayed image URL: the message, the
/// caller's identifier, and the URL the service resolved, when it gave one.
pub open spec fn url_reply_json(request_id: Seq<char>, resolved: Option<Seq<char>>) -> Seq<char> {
    "{\"message\":\"URL sent successfully\""@ + ",\"requestId\":"@ + json_quoted(request_id)
        + match resolved {
        Some(u) => ",\"url\":"@ + json_quoted(u),
        None => Seq::empty(),
    } + "}"@
}

/// The caller's reply, or the failure, once a call to `call.service` ended
/// with `outcome`.
pub open spec fn completion(call: CallModel, outcome: CallOutcome) -> Result<ReplyModel, ErrorModel> {
    match outcome {
        CallOutcome::TimedOut => Err(ErrorModel::Timeout),
        CallOutcome::Unreachable { cause } => Err(ErrorModel::TransportFailure(cause@)),
        CallOutcome::Responded { status, resolved_url } => {
            if !is_success(status) {
                Err(ErrorModel::DownstreamRejected(status))
            } else {
                match call.service {
                    Service::StorageWrite => Ok(
                        ReplyModel {
                            status: 200,
                            content_type: ContentType::Html,
                            body: upload_confirmation(),
                        },
                    ),
                    Service::SaveImage => Ok(
                        ReplyModel {
                            status: 200,
                            content_type: ContentType::Json,
                            body: url_reply_json(
                                call.request_id,
                                match resolved_url {
                                    Some(u) => Some(u@),
                                    None => None,
                                },
                            ),
                        },
                    ),
                }
            }
        },
    }
}

pub open spec fn reply_result_view(r: Result<Reply, GatewayError>) -> Result<ReplyModel, ErrorModel> {
    match r {
        Ok(v) => Ok(v@),
        Err(e) => Err(e@),
    }
}

impl OutboundCall {
    /// Turns the outcome of this call into the caller's reply or failure.
    pub fn complete(&self, outcome: CallOutcome) -> (r: Result<Reply, GatewayError>)
        ensures
            reply_result_view(r) == completion(self@, outcome),
    {
        match outcome {
            CallOutcome::TimedOut => Err(GatewayError::Timeout),
            CallOutcome::Unreachable { cause } => Err(GatewayError::TransportFailure { cause }),
            CallOutcome::Responded { status, resolved_url } => {
                if !is_success_status(status) {
                    return Err(GatewayError::DownstreamRejected { status });
                }
                match self.service {
                    Service::StorageWrite => Ok(
                        Reply {
                            status: 200,
                            content_type: ContentType::Html,
                            body: String::from_str("Received metadata successfully"),
                        },
                    ),
                    Service::SaveImage => {
                        let mut b = String::from_str("{\"message\":\"URL sent successfully\"");
                        push_member(&mut b, ",\"requestId\":", &self.request_id);
                        match &resolved_url {
                            Some(u) => push_member(&mut b, ",\"url\":", u),
                            None => {},
                        }
                        b.append("}");
                        assert(b@ =~= url_reply_json(
                            self.request_id@,
                            match resolved_url {
                                Some(u) => Some(u@),
                                None => None,
                            },
                        ));
                        Ok(Reply { status: 200, content_type: ContentType::Json, body: b })
                    },
                }
            },
        }
    }
}

} // verus!
