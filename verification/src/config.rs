//! What the service is configured with for the object store.

use vstd::prelude::*;
use vstd::string::StringExecFns;

verus! {

/// S3 bucket where the processed data is stored
#[derive(Clone, Debug)]
pub struct S3Bucket(String);

impl View for S3Bucket {
    type V = Seq<char>;

    closed spec fn view(&self) -> Seq<char> {
        self.0@
    }
}

impl S3Bucket {
    /// The bucket of the given name.
    pub fn new(name: String) -> (bucket: Self)
        ensures
            bucket@ == name@,
    {
        S3Bucket(name)
    }

    /// The name of the bucket.
    pub fn as_str(&self) -> (name: &str)
        ensures
            name@ == self@,
    {
        self.0.as_str()
    }

    /// The name of the bucket.
    pub fn into_string(self) -> (name: String)
        ensures
            name@ == self@,
    {
        self.0
    }
}

/// Arguments for configuring the S3 Client.
#[derive(Clone, Debug)]
pub struct S3ClientArgs {
    /// The URL of the S3 endpoint to retrieve images from.
    pub s3_endpoint_url: Option<String>,
    /// The ID of the access key used for S3 authorization.
    pub s3_access_key_id: Option<String>,
    /// The secret access key used for S3 authorization.
    pub s3_secret_access_key: Option<String>,
    /// Forces path style endpoint URIs for S3 queries.
    pub s3_force_path_style: bool,
    /// The AWS region of the S3 bucket.
    pub s3_region: Option<String>,
}

/// What an S3 client is set up with, every choice made.
#[derive(Clone, Debug)]
pub struct S3ClientSettings {
    pub access_key_id: String,
    pub secret_access_key: String,
    /// The name under which the credentials are said to come.
    pub provider_name: String,
    pub endpoint_url: Option<String>,
    pub force_path_style: bool,
    pub region: String,
}

/// The text of `given`, and `fallback` where nothing is given.
pub open spec fn text_or(given: Option<String>, fallback: Seq<char>) -> Seq<char> {
    match given {
        Some(text) => text@,
        None => fallback,
    }
}

/// The text of `given`, and `fallback` where nothing is given.
fn or_text(given: Option<String>, fallback: &str) -> (text: String)
    ensures
        text@ == text_or(given, fallback@),
{
    match given {
        Some(text) => text,
        None => String::from_str(fallback),
    }
}

/// S3 client argument trait
pub trait FromS3ClientArgs: Sized {
    /// Makes a client, or the settings of one, from the arguments given on
    /// the command line.
    fn from_s3_client_args(args: S3ClientArgs) -> Self;
}

impl FromS3ClientArgs for S3ClientSettings {
    /// Fills in what the arguments leave open: empty credentials, and the
    /// region `undefined`.
    fn from_s3_client_args(args: S3ClientArgs) -> (settings: Self)
        ensures
            settings.access_key_id@ == text_or(args.s3_access_key_id, Seq::empty()),
            settings.secret_access_key@ == text_or(args.s3_secret_access_key, Seq::empty()),
            settings.provider_name@ == "Other"@,
            settings.endpoint_url == args.s3_endpoint_url,
            settings.force_path_style == args.s3_force_path_style,
            settings.region@ == text_or(args.s3_region, "undefined"@),
    {
        proof {
            reveal_strlit("");
        }
        S3ClientSettings {
            access_key_id: or_text(args.s3_access_key_id, ""),
            secret_access_key: or_text(args.s3_secret_access_key, ""),
            provider_name: String::from_str("Other"),
            endpoint_url: args.s3_endpoint_url,
            force_path_style: args.s3_force_path_style,
            region: or_text(args.s3_region, "undefined"),
        }
    }
}

} // verus!
