//! Access to objects in S3 and compatible stores.

use vstd::prelude::*;
use vstd::string::StringExecFns;

use crate::error::InternalError;

verus! {

/// A bucket, and where it is.
#[derive(Debug, PartialEq, Eq)]
pub struct S3Context {
    pub endpoint: Option<String>,
    pub bucket: String,
    pub region: Option<String>,
}

#[derive(Debug, PartialEq, Eq)]
pub struct Credentials {
    pub access_key_id: String,
    pub secret_access_key: String,
}

/// What a client has to know to reach a bucket.
#[derive(Debug, PartialEq, Eq)]
pub struct S3StoreConfig {
    pub endpoint: String,
    pub region: String,
    pub access_key_id: String,
    pub secret_access_key: String,
    pub bucket_name: String,
    pub allow_http: bool,
}

/// The settings of a client, texts by value.
pub struct S3SettingsView {
    pub endpoint: Seq<char>,
    pub region: Seq<char>,
    pub access_key_id: Seq<char>,
    pub secret_access_key: Seq<char>,
    pub bucket_name: Seq<char>,
    pub allow_http: bool,
}

impl View for S3StoreConfig {
    type V = S3SettingsView;

    open spec fn view(&self) -> S3SettingsView {
        S3SettingsView {
            endpoint: self.endpoint@,
            region: self.region@,
            access_key_id: self.access_key_id@,
            secret_access_key: self.secret_access_key@,
            bucket_name: self.bucket_name@,
            allow_http: self.allow_http,
        }
    }
}

#[derive(Debug)]
pub struct ObjectStoreBuilderS3 {
    s3_context: S3Context,
    credentials: Credentials,
    allow_http: bool,
}

#[verifier::external_type_specification]
#[verifier::external_body]
pub struct ExAmazonS3(object_store::aws::AmazonS3);

/// The settings that a store of objects was made with, as it holds them in its
/// configuration.
pub uninterp spec fn store_settings(store: object_store::aws::AmazonS3) -> S3SettingsView;

/// The normal form of a URL, as `url::Url::parse` finds it; nothing if the text is
/// no URL.
pub uninterp spec fn parsed_url(text: Seq<char>) -> Option<Seq<char>>;

/// The normal form of a URL.
///
/// Calls `url::Url::parse` and `url::Url::as_str`. Trusted: what they return
/// depends on the text alone.
#[verifier::external_body]
pub(crate) fn parse_url(text: &str) -> (r: Option<String>)
    ensures
        match r {
            Some(url) => parsed_url(text@) == Some(url@),
            None => parsed_url(text@) is None,
        },
{
    Some(url::Url::parse(text).ok()?.as_str().to_owned())
}

/// A client for a bucket.
///
/// Calls `object_store::aws::AmazonS3Builder`: each setting is handed to the method
/// named after it, and then `build` is called; an error is given by its text.
/// Trusted: a client that comes back holds the settings. Whether one comes back, and
/// what the error says, is left open: that depends on the machine.
#[verifier::external_body]
pub(crate) fn build_s3(config: &S3StoreConfig) -> (r: Result<
    object_store::aws::AmazonS3,
    String,
>)
    ensures
        r matches Ok(store) ==> store_settings(store) == config@,
{
    let builder = object_store::aws::AmazonS3Builder::new()
        .with_endpoint(config.endpoint.as_str())
        .with_region(config.region.as_str())
        .with_access_key_id(config.access_key_id.as_str())
        .with_secret_access_key(config.secret_access_key.as_str())
        .with_bucket_name(config.bucket_name.as_str())
        .with_allow_http(config.allow_http);
    match builder.build() {
        Ok(store) => Ok(store),
        Err(e) => Err(e.to_string()),
    }
}

/// The address of the bucket, before it is brought to normal form.
pub open spec fn bucket_url(bucket: Seq<char>) -> Seq<char> {
    "s3://"@ + bucket + "/"@
}

impl ObjectStoreBuilderS3 {
    pub closed spec fn context(&self) -> S3Context {
        self.s3_context
    }

    pub closed spec fn access(&self) -> Credentials {
        self.credentials
    }

    pub closed spec fn http_allowed(&self) -> bool {
        self.allow_http
    }

    pub fn new(s3_context: S3Context, credentials: Credentials, allow_http: bool) -> (r: Self)
        ensures
            r.context() == s3_context,
            r.access() == credentials,
            r.http_allowed() == allow_http,
    {
        ObjectStoreBuilderS3 { s3_context, credentials, allow_http }
    }

    fn url_text(&self) -> (r: String)
        ensures
            r@ == bucket_url(self.context().bucket@),
    {
        "s3://".to_owned().concat(self.s3_context.bucket.as_str()).concat("/")
    }

    /// The address of the bucket. It does not account for the endpoint, and
    /// collides for buckets of the same name in different stores.
    pub fn object_store_url(&self) -> (r: String)
        requires
            parsed_url(bucket_url(self.context().bucket@)) is Some,
        ensures
            parsed_url(bucket_url(self.context().bucket@)) == Some(r@),
    {
        parse_url(self.url_text().as_str()).unwrap()
    }

    /// The address of the bucket, if its name can be part of one.
    pub fn try_object_store_url(&self) -> (r: Option<String>)
        ensures
            match r {
                Some(url) => parsed_url(bucket_url(self.context().bucket@)) == Some(url@),
                None => parsed_url(bucket_url(self.context().bucket@)) is None,
            },
    {
        match parse_url(self.url_text().as_str()) {
            Some(_) => Some(self.object_store_url()),
            None => None,
        }
    }

    /// Endpoint and region, which are mandatory, are known.
    pub open spec fn reachable(&self) -> bool {
        self.context().endpoint is Some && self.context().region is Some
    }

    /// Whether endpoint and region are known.
    pub fn is_reachable(&self) -> (r: bool)
        ensures
            r == self.reachable(),
    {
        self.s3_context.endpoint.is_some() && self.s3_context.region.is_some()
    }

    /// What the client has to know.
    pub fn store_config(&self) -> (r: S3StoreConfig)
        requires
            self.reachable(),
        ensures
            r == (S3StoreConfig {
                endpoint: self.context().endpoint->0,
                region: self.context().region->0,
                access_key_id: self.access().access_key_id,
                secret_access_key: self.access().secret_access_key,
                bucket_name: self.context().bucket,
                allow_http: self.http_allowed(),
            }),
            r@ == self.settings(),
    {
        S3StoreConfig {
            endpoint: self.s3_context.endpoint.clone().unwrap(),
            region: self.s3_context.region.clone().unwrap(),
            access_key_id: self.credentials.access_key_id.clone(),
            secret_access_key: self.credentials.secret_access_key.clone(),
            bucket_name: self.s3_context.bucket.clone(),
            allow_http: self.allow_http,
        }
    }

    /// What the client has to know, by value.
    pub open spec fn settings(&self) -> S3SettingsView {
        S3SettingsView {
            endpoint: self.context().endpoint->0@,
            region: self.context().region->0@,
            access_key_id: self.access().access_key_id@,
            secret_access_key: self.access().secret_access_key@,
            bucket_name: self.context().bucket@,
            allow_http: self.http_allowed(),
        }
    }

    /// A client for the bucket, made from the settings of [`Self::store_config`].
    /// Whether one can be made depends on the machine; what follows from that is said
    /// by [`store_or_error`].
    pub fn build_object_store(&self) -> (r: Result<object_store::aws::AmazonS3, InternalError>)
        requires
            self.reachable(),
        ensures
            match r {
                Ok(store) => store_settings(store) == self.settings(),
                Err(e) => e is Message,
            },
    {
        store_or_error(build_s3(&self.store_config()))
    }
}

/// What comes of an attempt to make a client: the client, or an error with the text
/// of what went wrong.
pub fn store_or_error(attempt: Result<object_store::aws::AmazonS3, String>) -> (r: Result<
    object_store::aws::AmazonS3,
    InternalError,
>)
    ensures
        r == (match attempt {
            Ok(store) => Ok(store),
            Err(text) => Err(InternalError::Message(text)),
        }),
{
    match attempt {
        Ok(store) => Ok(store),
        Err(text) => Err(InternalError::Message(text)),
    }
}

/// A client gets the settings that the builder was given, each in its place: the endpoint and
/// the region of the bucket, its name, both parts of the credentials, and whether plain HTTP is
/// allowed.
pub proof fn law_settings_are_as_given(builder: ObjectStoreBuilderS3)
    requires
        builder.reachable(),
    ensures
        builder.context().endpoint is Some && builder.settings().endpoint
            == builder.context().endpoint->0@,
        builder.context().region is Some && builder.settings().region
            == builder.context().region->0@,
        builder.settings().bucket_name == builder.context().bucket@,
        builder.settings().access_key_id == builder.access().access_key_id@,
        builder.settings().secret_access_key == builder.access().secret_access_key@,
        builder.settings().allow_http <==> builder.http_allowed(),
{
}

/// The address of a bucket holds its whole name, so that buckets of different names have
/// different addresses.
pub proof fn law_address_holds_the_bucket(bucket: Seq<char>, other: Seq<char>)
    ensures
        bucket_url(bucket).len() == bucket.len() + 6,
        bucket_url(bucket).subrange(0, 5) == "s3://"@,
        bucket_url(bucket).subrange(5, bucket.len() + 5int) == bucket,
        bucket_url(bucket).last() == '/',
        bucket_url(bucket) == bucket_url(other) ==> bucket == other,
{
    reveal_strlit("s3://");
    reveal_strlit("/");
    assert(bucket_url(bucket).subrange(0, 5) =~= "s3://"@);
    assert(bucket_url(bucket).subrange(5, bucket.len() + 5int) =~= bucket);
    assert(bucket_url(other).subrange(5, other.len() + 5int) =~= other);
}

} // verus!
