//! Uploads to a storage bucket: where a file goes, under which name a
//! temporary copy is kept, and what the answer of the bucket means.

use vstd::prelude::*;
use crate::update::bearer;

verus! {

/// `mime_guess::from_path` followed by `first_or_octet_stream`, written out
/// as text: the media type guessed from the extension of a path. Nothing is
/// claimed of the result, since what counts as the extension of a path
/// differs between platforms.
#[verifier::external_body]
fn guessed_content_type(file_path: &str) -> (r: String) {
    mime_guess::from_path(file_path).first_or_octet_stream().to_string()
}

/// `uuid::Uuid::new_v4`, written out as text: a random identifier.
/// Trusted: the text is in hyphenated form, which is 36 characters; which
/// ones, nothing is claimed. The call does not return where the system has
/// no random bytes to give.
#[verifier::external_body]
fn random_identifier() -> (r: String)
    ensures
        r@.len() == 36,
{
    uuid::Uuid::new_v4().to_string()
}

/// The address of an object in a bucket.
pub open spec fn object_address(base: Seq<char>, bucket: Seq<char>, path: Seq<char>) -> Seq<char> {
    base + "/storage/v1/object/"@ + bucket + "/"@ + path
}

/// The public address of an object in a bucket.
pub open spec fn public_address(base: Seq<char>, bucket: Seq<char>, path: Seq<char>) -> Seq<char> {
    base + "/storage/v1/object/public/"@ + bucket + "/"@ + path
}

/// The request that uploads a file.
#[derive(Debug, Clone)]
pub struct UploadRequest {
    pub address: String,
    pub authorization: String,
    pub content_type: String,
}

/// What a successful upload reports.
#[derive(Debug, Clone)]
pub struct UploadReceipt {
    pub response: String,
    pub path: String,
    pub url: String,
}

/// Builds the request that uploads the file at `file_path` to `path` in
/// `bucket`. The media type is guessed from the file's name.
pub fn upload_request(bucket: &str, path: &str, file_path: &str, base: &str, key: &str) -> (r:
    UploadRequest)
    ensures
        r.address@ == object_address(base@, bucket@, path@),
        r.authorization@ == "Bearer "@ + key@,
{
    let mut address = String::from_str(base);
    address.append("/storage/v1/object/");
    address.append(bucket);
    address.append("/");
    address.append(path);
    UploadRequest {
        address,
        authorization: bearer(key),
        content_type: guessed_content_type(file_path),
    }
}

/// Whether the local file is removed after the upload: only where the
/// upload succeeded and removal was asked for.
pub fn removes_local_file(accepted: bool, delete_after_upload: bool) -> (r: bool)
    ensures
        r == (accepted && delete_after_upload),
{
    accepted && delete_after_upload
}

/// What an upload returns, given the answer of the bucket: a receipt with
/// the answer, the path and the public address where the bucket reported
/// success, and otherwise an error that carries the answer.
pub fn upload_file(accepted: bool, body: String, bucket: &str, path: &str, base: &str) -> (r:
    Result<UploadReceipt, String>)
    ensures
        accepted ==> r is Ok && r.unwrap().response == body && r.unwrap().path@ == path@
            && r.unwrap().url@ == public_address(base@, bucket@, path@),
        !accepted ==> r is Err && r.unwrap_err()@ == "Upload failed: "@ + body@,
{
    if accepted {
        let mut url = String::from_str(base);
        url.append("/storage/v1/object/public/");
        url.append(bucket);
        url.append("/");
        url.append(path);
        Ok(UploadReceipt { response: body, path: String::from_str(path), url })
    } else {
        let mut message = String::from_str("Upload failed: ");
        message.append(body.as_str());
        Err(message)
    }
}

/// The name under which a temporary copy of an image is kept: a fixed
/// prefix, an identifier of 36 characters drawn for this call, and the
/// extension.
pub fn temp_file_name() -> (name: String)
    ensures
        exists|id: Seq<char>| id.len() == 36 && name@ == "zenote_image_"@ + id + ".png"@,
{
    let id = random_identifier();
    let mut name = String::from_str("zenote_image_");
    name.append(id.as_str());
    name.append(".png");
    name
}

} // verus!
