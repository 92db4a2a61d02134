use vstd::prelude::*;

use crate::dispatch::{step_for, Route, StepModel};
use crate::downstream::{
    completion, is_success, url_reply_json, CallModel, CallOutcome, ConfigModel, ContentType,
    ReplyModel, Service,
};
use crate::error::ErrorModel;
use crate::payload::{
    field_text, file_path_from_fields, image_url_from_fields, image_url_json, text_view,
    upload_from_fields, upload_json, JsonField,
};

verus! {

/// A valid upload on `/dynamo` leads to exactly one call: to the
/// storage-write target, with the serialised metadata as its body, the
/// inbound `requestId` as its correlation header, and the configured timeout.
pub proof fn upload_forwarded_once(config: ConfigModel, fields: Seq<JsonField>)
    requires
        upload_from_fields(fields) is Ok,
    ensures
        step_for(config, Route::Dynamo, Ok(fields)) == StepModel::Forward(
            CallModel {
                service: Service::StorageWrite,
                target: config.storage_write_url,
                request_id: field_text(fields, "requestId"@)->Some_0,
                body: upload_json(upload_from_fields(fields)->Ok_0),
                timeout_secs: config.timeout_secs,
            },
        ),
        upload_from_fields(fields)->Ok_0.request_id == field_text(fields, "requestId"@)->Some_0,
{
}

/// A valid image URL on `/url` leads to exactly one call to the save-image
/// target carrying the inbound `requestId`, and a successful answer is
/// relayed in an envelope that echoes that same `requestId`.
pub proof fn url_forwarded_once(
    config: ConfigModel,
    fields: Seq<JsonField>,
    status: u16,
    resolved_url: Option<String>,
)
    requires
        image_url_from_fields(fields) is Ok,
        is_success(status),
    ensures
        ({
            let request_id = field_text(fields, "requestId"@)->Some_0;
            let call = CallModel {
                service: Service::SaveImage,
                target: config.save_image_url,
                request_id,
                body: image_url_json(image_url_from_fields(fields)->Ok_0),
                timeout_secs: config.timeout_secs,
            };
            &&& step_for(config, Route::Url, Ok(fields)) == StepModel::Forward(call)
            &&& completion(call, CallOutcome::Responded { status, resolved_url }) == Ok::<
                ReplyModel,
                ErrorModel,
            >(
                ReplyModel {
                    status: 200,
                    content_type: ContentType::Json,
                    body: url_reply_json(request_id, text_view(resolved_url)),
                },
            )
        }),
{
}

/// Whether an inbound object lacks a member that `route` requires.
pub open spec fn fields_rejected(route: Route, fields: Seq<JsonField>) -> bool {
    match route {
        Route::Dynamo => upload_from_fields(fields) is Err,
        Route::Url => image_url_from_fields(fields) is Err,
        Route::Path => file_path_from_fields(fields) is Err,
    }
}

/// A body that is not a JSON object, or lacks a required string member, is
/// rejected as a malformed payload on every route, and no call is made.
pub proof fn malformed_never_forwarded(
    config: ConfigModel,
    route: Route,
    parsed: Result<Seq<JsonField>, Seq<char>>,
)
    requires
        parsed is Err || fields_rejected(route, parsed->Ok_0),
    ensures
        step_for(config, route, parsed) is Reject,
        step_for(config, route, parsed)->Reject_0 is MalformedPayload,
{
}

/// A call that runs out of time ends in a `Timeout` failure, and nothing
/// follows it.
pub proof fn timeout_is_final(call: CallModel)
    ensures
        completion(call, CallOutcome::TimedOut) == Err::<ReplyModel, ErrorModel>(ErrorModel::Timeout),
{
}

/// A non-2xx answer is always a `DownstreamRejected` failure, never a success.
pub proof fn rejection_never_succeeds(call: CallModel, status: u16, resolved_url: Option<String>)
    requires
        !is_success(status),
    ensures
        completion(call, CallOutcome::Responded { status, resolved_url }) == Err::<
            ReplyModel,
            ErrorModel,
        >(ErrorModel::DownstreamRejected(status)),
{
}

} // verus!
