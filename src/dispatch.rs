use vstd::prelude::*;
use vstd::string::StringExecFns;

use crate::downstream::{
    CallModel, ConfigModel, ContentType, GatewayConfig, OutboundCall, Reply, ReplyModel, Service,
};
use crate::error::{ErrorModel, GatewayError};
use crate::json::{json_quoted, push_member};
use crate::payload::{
    file_path_from_fields, image_url_from_fields, image_url_json, upload_from_fields, upload_json,
    FilePathModel, FilePathRequest, ImageUrlRequest, JsonField, UploadMetadata,
};

verus! {

/// The inbound operations, one per `POST` path.
#[derive(Debug, Clone, Copy, PartialEq, Eq, Structural)]
pub enum Route {
    /// `/dynamo`: upload metadata, forwarded to the storage-write service.
    Dynamo,
    /// `/url`: an image URL, forwarded to the save-image service.
    Url,
    /// `/path`: a stored image path, echoed back without a downstream call.
    Path,
}

impl Route {
    /// The route served at `path`, if any.
    pub fn from_path(path: &String) -> (r: Option<Route>)
        ensures
            r == route_of(path@),
    {
        if *path == String::from_str("dynamo") {
            Some(Route::Dynamo)
        } else if *path == String::from_str("url") {
            Some(Route::Url)
        } else if *path == String::from_str("path") {
            Some(Route::Path)
        } else {
            None
        }
    }
}

pub open spec fn route_of(path: Seq<char>) -> Option<Route> {
    if path == "dynamo"@ {
        Some(Route::Dynamo)
    } else if path == "url"@ {
        Some(Route::Url)
    } else if path == "path"@ {
        Some(Route::Path)
    } else {
        None
    }
}

/// Model of a [`Step`].
pub enum StepModel {
    Forward(CallModel),
    Reject(ErrorModel),
    Reply(ReplyModel),
}

/// What the gateway does with an inbound request.
#[derive(Debug, Clone)]
pub enum Step {
    /// Make this one downstream call, then finish with [`OutboundCall::complete`].
    Forward(OutboundCall),
    /// Refuse the request; no downstream call is made.
    Reject(GatewayError),
    /// Answer at once; no downstream call is made.
    Reply(Reply),
}

impl View for Step {
    type V = StepModel;

    open spec fn view(&self) -> StepModel {
        match self {
            Step::Forward(c) => StepModel::Forward(c@),
            Step::Reject(e) => StepModel::Reject(e@),
            Step::Reply(r) => StepModel::Reply(r@),
        }
    }
}

/// The reply to a file path: it echoes the path and the identifier.
pub open spec fn path_reply(p: FilePathModel) -> ReplyModel {
    ReplyModel {
        status: 200,
        content_type: ContentType::Json,
        body: "{\"message\":\"Received path successfully\""@ + ",\"final_image_path\":"@
            + json_quoted(p.final_image_path) + ",\"requestId\":"@ + json_quoted(p.request_id)
            + "}"@,
    }
}

/// What happens to an inbound object (or to a body that did not parse as
/// one, with the parser's diagnostic) on `route`.
pub open spec fn step_for(
    config: ConfigModel,
    route: Route,
    parsed: Result<Seq<JsonField>, Seq<char>>,
) -> StepModel {
    match parsed {
        Err(d) => StepModel::Reject(ErrorModel::MalformedPayload(d)),
        Ok(f) => match route {
            Route::Dynamo => match upload_from_fields(f) {
                Err(e) => StepModel::Reject(e),
                Ok(m) => StepModel::Forward(
                    CallModel {
                        service: Service::StorageWrite,
                        target: config.storage_write_url,
                        request_id: m.request_id,
                        body: upload_json(m),
                        timeout_secs: config.timeout_secs,
                    },
                ),
            },
            Route::Url => match image_url_from_fields(f) {
                Err(e) => StepModel::Reject(e),
                Ok(m) => StepModel::Forward(
                    CallModel {
                        service: Service::SaveImage,
                        target: config.save_image_url,
                        request_id: m.request_id,
                        body: image_url_json(m),
                        timeout_secs: config.timeout_secs,
                    },
                ),
            },
            Route::Path => match file_path_from_fields(f) {
                Err(e) => StepModel::Reject(e),
                Ok(p) => StepModel::Reply(path_reply(p)),
            },
        },
    }
}

pub open spec fn parsed_view(parsed: Result<Vec<JsonField>, String>) -> Result<
    Seq<JsonField>,
    Seq<char>,
> {
    match parsed {
        Ok(f) => Ok(f@),
        Err(d) => Err(d@),
    }
}

impl GatewayConfig {
    /// Decides what to do with an inbound request on `route`. `parsed` holds
    /// the members of the JSON object in the body, or the parser's diagnostic
    /// when the body is not a JSON object.
    pub fn accept(&self, route: Route, parsed: Result<Vec<JsonField>, String>) -> (r: Step)
        ensures
            r@ == step_for(self@, route, parsed_view(parsed)),
    {
        let fields = match parsed {
            Err(detail) => {
                return Step::Reject(GatewayError::MalformedPayload { detail });
            },
            Ok(f) => f,
        };
        match route {
            Route::Dynamo => match UploadMetadata::from_fields(&fields) {
                Err(e) => Step::Reject(e),
                Ok(m) => {
                    let body = m.to_json();
                    Step::Forward(
                        OutboundCall {
                            service: Service::StorageWrite,
                            target: self.storage_write_url.clone(),
                            request_id: m.request_id,
                            body,
                            timeout_secs: self.timeout_secs,
                        },
                    )
                },
            },
            Route::Url => match ImageUrlRequest::from_fields(&fields) {
                Err(e) => Step::Reject(e),
                Ok(m) => {
                    let body = m.to_json();
                    Step::Forward(
                        OutboundCall {
                            service: Service::SaveImage,
                            target: self.save_image_url.clone(),
                            request_id: m.request_id,
                            body,
                            timeout_secs: self.timeout_secs,
                        },
                    )
                },
            },
            Route::Path => match FilePathRequest::from_fields(&fields) {
                Err(e) => Step::Reject(e),
                Ok(p) => Step::Reply(echo_path(&p)),
            },
        }
    }
}

/// Builds the reply to a file path request.
pub fn echo_path(p: &FilePathRequest) -> (r: Reply)
    ensures
        r@ == path_reply(p@),
{
    let mut b = String::from_str("{\"message\":\"Received path successfully\"");
    push_member(&mut b, ",\"final_image_path\":", &p.final_image_path);
    push_member(&mut b, ",\"requestId\":", &p.request_id);
    b.append("}");
    assert(b@ =~= path_reply(p@).body);
    Reply { status: 200, content_type: ContentType::Json, body: b }
}

} // verus!
