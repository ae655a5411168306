//! Download links for processed files: what is asked of the object store,
//! and what is made of its answer.

use crate::config::S3Bucket;
use crate::entities::AutoProcFileAttachment;
use crate::entities::DataProcessing;
use crate::object_key::object_key_of;
use vstd::prelude::*;
use vstd::string::StringExecFns;

verus! {

#[verifier::external_type_specification]
#[verifier::external_body]
pub struct ExParseError(url::ParseError);

/// For how many seconds a download link stays valid: ten minutes.
pub const DOWNLOAD_VALIDITY_SECS: u64 = 600;

/// What the object store is asked to sign so that a file can be downloaded.
#[derive(Clone, Debug, PartialEq)]
pub struct PresignRequest {
    pub bucket: String,
    pub key: String,
    pub expires_in_secs: u64,
}

/// Why no download link could be given.
#[derive(Debug, PartialEq)]
pub enum DownloadUrlError {
    /// What the object store signed is no URL.
    InvalidUrl(url::ParseError),
}

/// The serialization of the URL that `input` is read as; `None` where it is
/// not read as a URL.
pub uninterp spec fn url_serialization(input: Seq<char>) -> Option<Seq<char>>;

/// Calls `url::Url::parse` on `input` and, where that gives a `Url`, turns it
/// into its serialization with `String::from`. The contract gives the
/// outcome the name `url_serialization`, and says nothing of what it is.
#[verifier::external_body]
fn parse_url(input: &str) -> (parsed: Result<String, url::ParseError>)
    ensures
        match parsed {
            Ok(text) => url_serialization(input@) == Some(text@),
            Err(_) => url_serialization(input@) is None,
        },
{
    url::Url::parse(input).map(String::from)
}

/// The link, or the reason for none, that follows from reading a signed
/// address as a URL.
pub fn download_link(parsed: Result<String, url::ParseError>) -> (link: Result<
    String,
    DownloadUrlError,
>)
    ensures
        match parsed {
            Ok(text) => link == Ok::<String, DownloadUrlError>(text),
            Err(error) => link == Err::<String, DownloadUrlError>(
                DownloadUrlError::InvalidUrl(error),
            ),
        },
{
    match parsed {
        Ok(text) => Ok(text),
        Err(error) => Err(DownloadUrlError::InvalidUrl(error)),
    }
}

impl AutoProcFileAttachment {
    /// What to ask of the object store for a link to this file: a signature
    /// for its object key in `bucket`, valid for ten minutes. The path and
    /// the name of the file must be known.
    pub fn download_request(&self, bucket: &S3Bucket) -> (request: PresignRequest)
        requires
            self.file_path is Some,
            self.file_name is Some,
        ensures
            request.bucket@ == bucket@,
            request.key@ == object_key_of(self.file_path->Some_0@, self.file_name->Some_0@),
            request.expires_in_secs == DOWNLOAD_VALIDITY_SECS,
    {
        PresignRequest {
            bucket: String::from_str(bucket.as_str()),
            key: self.object_key(),
            expires_in_secs: DOWNLOAD_VALIDITY_SECS,
        }
    }
}

impl DataProcessing {
    /// What to ask of the object store for a link to this file: a signature
    /// for its object key in `bucket`, valid for ten minutes.
    pub fn download_request(&self, bucket: &S3Bucket) -> (request: PresignRequest)
        ensures
            request.bucket@ == bucket@,
            request.key@ == self.file_full_path@,
            request.expires_in_secs == DOWNLOAD_VALIDITY_SECS,
    {
        PresignRequest {
            bucket: String::from_str(bucket.as_str()),
            key: self.object_key(),
            expires_in_secs: DOWNLOAD_VALIDITY_SECS,
        }
    }
}

/// Gives downloadable link for a file in the s3 bucket, from the address that
/// the object store signed: that address as a URL writes it.
pub fn download_url(signed: &str) -> (link: Result<String, DownloadUrlError>)
    ensures
        match url_serialization(signed@) {
            Some(text) => link matches Ok(held) && held@ == text,
            None => link matches Err(DownloadUrlError::InvalidUrl(_)),
        },
{
    download_link(parse_url(signed))
}

} // verus!
