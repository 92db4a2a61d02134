use vstd::prelude::*;
use vstd::string::StringExecFns;

use crate::error::{ErrorModel, GatewayError};
use crate::json::{json_quoted, push_member};

verus! {

/// One member of an inbound JSON object: its key, and its text when the
/// value is a JSON string (`None` for any other kind of value).
#[derive(Debug, Clone)]
pub struct JsonField {
    pub key: String,
    pub text: Option<String>,
}

pub open spec fn text_view(t: Option<String>) -> Option<Seq<char>> {
    match t {
        Some(s) => Some(s@),
        None => None,
    }
}

/// The text of the first member named `key`; `None` when there is no such
/// member or its value is not a string.
pub open spec fn field_text(fields: Seq<JsonField>, key: Seq<char>) -> Option<Seq<char>>
    decreases fields.len(),
{
    if fields.len() == 0 {
        None
    } else if fields[0].key@ == key {
        text_view(fields[0].text)
    } else {
        field_text(fields.drop_first(), key)
    }
}

/// Detail carried by the rejection of a payload that lacks the string
/// member `name`.
pub open spec fn missing_detail(name: Seq<char>) -> Seq<char> {
    "missing or non-string field `"@ + name + "`"@
}

pub open spec fn missing(name: Seq<char>) -> ErrorModel {
    ErrorModel::MalformedPayload(missing_detail(name))
}

/// Looks up the string member named `key`.
pub fn lookup_text(fields: &Vec<JsonField>, key: &str) -> (r: Option<String>)
    ensures
        text_view(r) == field_text(fields@, key@),
{
    let k = String::from_str(key);
    let mut i: usize = 0;
    assert(fields@.subrange(0, fields@.len() as int) =~= fields@);
    while i < fields.len()
        invariant
            i <= fields@.len(),
            k@ == key@,
            field_text(fields@, key@) == field_text(fields@.subrange(i as int, fields@.len() as int), key@),
        decreases fields.len() - i,
    {
        let ghost rest = fields@.subrange(i as int, fields@.len() as int);
        assert(rest.drop_first() =~= fields@.subrange(i + 1, fields@.len() as int));
        if fields[i].key == k {
            return match &fields[i].text {
                Some(t) => Some(t.clone()),
                None => None,
            };
        }
        i = i + 1;
    }
    None
}

fn missing_field(name: &str) -> (e: GatewayError)
    ensures
        e@ == missing(name@),
{
    let mut d = String::from_str("missing or non-string field `");
    d.append(name);
    d.append("`");
    GatewayError::MalformedPayload { detail: d }
}

} // verus!

verus! {

/// Model of an [`UploadMetadata`].
pub struct UploadModel {
    pub season: Seq<char>,
    pub show_name: Seq<char>,
    pub designer: Seq<char>,
    pub description: Seq<char>,
    pub final_image_key: Seq<char>,
    pub label: Seq<char>,
    pub type_: Seq<char>,
    pub request_id: Seq<char>,
}

/// Metadata of an uploaded image, forwarded to the storage-write service.
#[derive(Debug, Clone)]
pub struct UploadMetadata {
    pub season: String,
    pub show_name: String,
    pub designer: String,
    pub description: String,
    pub final_image_key: String,
    pub label: String,
    pub type_: String,
    pub request_id: String,
}

impl View for UploadMetadata {
    type V = UploadModel;

    open spec fn view(&self) -> UploadModel {
        UploadModel {
            season: self.season@,
            show_name: self.show_name@,
            designer: self.designer@,
            description: self.description@,
            final_image_key: self.final_image_key@,
            label: self.label@,
            type_: self.type_@,
            request_id: self.request_id@,
        }
    }
}

/// Model of an [`ImageUrlRequest`].
pub struct ImageUrlModel {
    pub url: Seq<char>,
    pub request_id: Seq<char>,
}

/// An image URL, forwarded to the save-image service.
#[derive(Debug, Clone)]
pub struct ImageUrlRequest {
    pub url: String,
    pub request_id: String,
}

impl View for ImageUrlRequest {
    type V = ImageUrlModel;

    open spec fn view(&self) -> ImageUrlModel {
        ImageUrlModel { url: self.url@, request_id: self.request_id@ }
    }
}

/// Model of a [`FilePathRequest`].
pub struct FilePathModel {
    pub final_image_path: Seq<char>,
    pub request_id: Seq<char>,
}

/// A stored image path, echoed back without any downstream call.
#[derive(Debug, Clone)]
pub struct FilePathRequest {
    pub final_image_path: String,
    pub request_id: String,
}

impl View for FilePathRequest {
    type V = FilePathModel;

    open spec fn view(&self) -> FilePathModel {
        FilePathModel { final_image_path: self.final_image_path@, request_id: self.request_id@ }
    }
}

/// The upload metadata that an inbound object describes, or the rejection
/// naming the first required member (in declaration order) that is missing
/// or not a string. Members beyond the required ones are ignored.
pub open spec fn upload_from_fields(f: Seq<JsonField>) -> Result<UploadModel, ErrorModel> {
    if field_text(f, "season"@) is None {
        Err(missing("season"@))
    } else if field_text(f, "show_name"@) is None {
        Err(missing("show_name"@))
    } else if field_text(f, "designer"@) is None {
        Err(missing("designer"@))
    } else if field_text(f, "description"@) is None {
        Err(missing("description"@))
    } else if field_text(f, "final_image_key"@) is None {
        Err(missing("final_image_key"@))
    } else if field_text(f, "label"@) is None {
        Err(missing("label"@))
    } else if field_text(f, "type"@) is None {
        Err(missing("type"@))
    } else if field_text(f, "requestId"@) is None {
        Err(missing("requestId"@))
    } else {
        Ok(
            UploadModel {
                season: field_text(f, "season"@)->Some_0,
                show_name: field_text(f, "show_name"@)->Some_0,
                designer: field_text(f, "designer"@)->Some_0,
                description: field_text(f, "description"@)->Some_0,
                final_image_key: field_text(f, "final_image_key"@)->Some_0,
                label: field_text(f, "label"@)->Some_0,
                type_: field_text(f, "type"@)->Some_0,
                request_id: field_text(f, "requestId"@)->Some_0,
            },
        )
    }
}

/// The image URL request that an inbound object describes, or its rejection.
pub open spec fn image_url_from_fields(f: Seq<JsonField>) -> Result<ImageUrlModel, ErrorModel> {
    if field_text(f, "url"@) is None {
        Err(missing("url"@))
    } else if field_text(f, "requestId"@) is None {
        Err(missing("requestId"@))
    } else {
        Ok(
            ImageUrlModel {
                url: field_text(f, "url"@)->Some_0,
                request_id: field_text(f, "requestId"@)->Some_0,
            },
        )
    }
}

/// The file path request that an inbound object describes, or its rejection.
pub open spec fn file_path_from_fields(f: Seq<JsonField>) -> Result<FilePathModel, ErrorModel> {
    if field_text(f, "final_image_path"@) is None {
        Err(missing("final_image_path"@))
    } else if field_text(f, "requestId"@) is None {
        Err(missing("requestId"@))
    } else {
        Ok(
            FilePathModel {
                final_image_path: field_text(f, "final_image_path"@)->Some_0,
                request_id: field_text(f, "requestId"@)->Some_0,
            },
        )
    }
}

pub open spec fn result_view<T: View>(r: Result<T, GatewayError>) -> Result<T::V, ErrorModel> {
    match r {
        Ok(v) => Ok(v@),
        Err(e) => Err(e@),
    }
}

fn required(fields: &Vec<JsonField>, key: &str) -> (r: Result<String, GatewayError>)
    ensures
        match r {
            Ok(t) => field_text(fields@, key@) == Some(t@),
            Err(e) => field_text(fields@, key@) is None && e@ == missing(key@),
        },
{
    match lookup_text(fields, key) {
        Some(t) => Ok(t),
        None => Err(missing_field(key)),
    }
}

impl UploadMetadata {
    /// Checks that every required member is present as a string.
    pub fn from_fields(fields: &Vec<JsonField>) -> (r: Result<UploadMetadata, GatewayError>)
        ensures
            result_view(r) == upload_from_fields(fields@),
    {
        let season = required(fields, "season")?;
        let show_name = required(fields, "show_name")?;
        let designer = required(fields, "designer")?;
        let description = required(fields, "description")?;
        let final_image_key = required(fields, "final_image_key")?;
        let label = required(fields, "label")?;
        let type_ = required(fields, "type")?;
        let request_id = required(fields, "requestId")?;
        Ok(
            UploadMetadata {
                season,
                show_name,
                designer,
                description,
                final_image_key,
                label,
                type_,
                request_id,
            },
        )
    }
}

impl ImageUrlRequest {
    /// Checks that `url` and `requestId` are present as strings.
    pub fn from_fields(fields: &Vec<JsonField>) -> (r: Result<ImageUrlRequest, GatewayError>)
        ensures
            result_view(r) == image_url_from_fields(fields@),
    {
        let url = required(fields, "url")?;
        let request_id = required(fields, "requestId")?;
        Ok(ImageUrlRequest { url, request_id })
    }
}

impl FilePathRequest {
    /// Checks that `final_image_path` and `requestId` are present as strings.
    pub fn from_fields(fields: &Vec<JsonField>) -> (r: Result<FilePathRequest, GatewayError>)
        ensures
            result_view(r) == file_path_from_fields(fields@),
    {
        let final_image_path = required(fields, "final_image_path")?;
        let request_id = required(fields, "requestId")?;
        Ok(FilePathRequest { final_image_path, request_id })
    }
}

} // verus!

verus! {

/// The JSON object sent to the storage-write service: every member as a
/// string, in declaration order.
pub open spec fn upload_json(m: UploadModel) -> Seq<char> {
    "{\"season\":"@ + json_quoted(m.season) + ",\"show_name\":"@ + json_quoted(m.show_name)
        + ",\"designer\":"@ + json_quoted(m.designer) + ",\"description\":"@ + json_quoted(
        m.description,
    ) + ",\"final_image_key\":"@ + json_quoted(m.final_image_key) + ",\"label\":"@
        + json_quoted(m.label) + ",\"type\":"@ + json_quoted(m.type_) + ",\"requestId\":"@
        + json_quoted(m.request_id) + "}"@
}

/// The JSON object sent to the save-image service.
pub open spec fn image_url_json(m: ImageUrlModel) -> Seq<char> {
    "{\"url\":"@ + json_quoted(m.url) + ",\"requestId\":"@ + json_quoted(m.request_id) + "}"@
}

impl UploadMetadata {
    /// Serialises the metadata as the body of the storage-write call.
    pub fn to_json(&self) -> (r: String)
        ensures
            r@ == upload_json(self@),
    {
        let mut b = String::new();
        push_member(&mut b, "{\"season\":", &self.season);
        push_member(&mut b, ",\"show_name\":", &self.show_name);
        push_member(&mut b, ",\"designer\":", &self.designer);
        push_member(&mut b, ",\"description\":", &self.description);
        push_member(&mut b, ",\"final_image_key\":", &self.final_image_key);
        push_member(&mut b, ",\"label\":", &self.label);
        push_member(&mut b, ",\"type\":", &self.type_);
        push_member(&mut b, ",\"requestId\":", &self.request_id);
        b.append("}");
        assert(b@ =~= upload_json(self@));
        b
    }
}

impl ImageUrlRequest {
    /// Serialises the request as the body of the save-image call.
    pub fn to_json(&self) -> (r: String)
        ensures
            r@ == image_url_json(self@),
    {
        let mut b = String::new();
        push_member(&mut b, "{\"url\":", &self.url);
        push_member(&mut b, ",\"requestId\":", &self.request_id);
        b.append("}");
        assert(b@ =~= image_url_json(self@));
        b
    }
}

} // verus!
