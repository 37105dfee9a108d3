//! A bucket of the store: what to ask of it, and what its answers mean.
//!
//! The bucket sends nothing itself. It describes each request as plain
//! values, and interprets the answer that the caller brings back.

use vstd::prelude::*;
use crate::store::error::StoreError;
use crate::store::error::StoreFailure;
use crate::store::list::ListArg;
use crate::store::list::ListArgView;
use crate::store::object::ObjectToUpload;

verus! {

/// Where the store is reached.
#[derive(Clone, Debug, PartialEq, Eq)]
pub struct Region {
    pub name: String,
    pub endpoint: String,
}

/// The keys that sign the requests.
#[derive(Clone, Debug, PartialEq, Eq)]
pub struct StaticProvider {
    pub access_key: String,
    pub secret_access_key: String,
}

/// A bucket, and how to reach and sign for it.
#[derive(Clone, Debug, PartialEq, Eq)]
pub struct S3Bucket {
    bucket: String,
    region: Region,
    provider: StaticProvider,
}

/// Collects what an [`S3Bucket`] needs.
#[derive(Clone, Debug, PartialEq, Eq)]
pub struct S3BucketBuilder {
    provider: Option<StaticProvider>,
    region: Option<Region>,
    bucket: String,
}

/// Why no bucket could be built.
#[derive(Clone, Copy, Debug, PartialEq, Eq, Structural)]
pub enum BuildError {
    /// No keys were given to sign with.
    MissingProvider,
}

/// The name of the region where the environment names none.
pub open spec fn default_region_name() -> Seq<char> {
    seq!['u', 's', '-', 'e', 'a', 's', 't', '-', '1']
}

/// The endpoint where the environment names none:
/// `https://storage.yandexcloud.net`.
pub open spec fn default_region_endpoint() -> Seq<char> {
    seq![
        'h', 't', 't', 'p', 's', ':', '/', '/', 's', 't', 'o', 'r', 'a', 'g', 'e', '.', 'y',
        'a', 'n', 'd', 'e', 'x', 'c', 'l', 'o', 'u', 'd', '.', 'n', 'e', 't',
    ]
}

/// A request that names one object.
#[derive(Clone, Debug, PartialEq, Eq)]
pub struct ObjectRequest {
    pub bucket: String,
    pub key: String,
}

/// A request to store an object.
#[derive(Clone, Debug, PartialEq, Eq)]
pub struct PutRequest {
    pub bucket: String,
    pub key: String,
    pub body: Vec<u8>,
    pub content_length: Option<i64>,
    pub content_type: Option<String>,
}

/// A request for one page of keys.
#[derive(Clone, Debug, PartialEq, Eq)]
pub struct ListRequest {
    pub bucket: String,
    pub max_keys: Option<i64>,
    pub continuation_token: Option<String>,
    pub prefix: Option<String>,
}

impl ListRequest {
    /// What the request asks for, without the bucket.
    pub open spec fn arg(self) -> ListArgView {
        ListArgView {
            continuation_token: crate::store::list::opt_text(self.continuation_token),
            prefix: crate::store::list::opt_text(self.prefix),
            max_keys: match self.max_keys {
                Some(n) => Some(n as int),
                None => None,
            },
        }
    }
}

impl S3BucketBuilder {
    /// The name of the bucket.
    pub closed spec fn bucket_name(self) -> Seq<char> {
        self.bucket@
    }

    /// The region set so far.
    pub closed spec fn chosen_region(self) -> Option<Region> {
        self.region
    }

    /// The keys set so far.
    pub closed spec fn chosen_provider(self) -> Option<StaticProvider> {
        self.provider
    }

    /// Starts with the bucket's name; region and keys are to follow.
    pub fn new(bucket: String) -> (builder: S3BucketBuilder)
        ensures
            builder.bucket_name() == bucket@,
            builder.chosen_region() is None,
            builder.chosen_provider() is None,
    {
        S3BucketBuilder { bucket, provider: None, region: None }
    }

    /// Sets the region.
    pub fn region(self, region: Region) -> (builder: S3BucketBuilder)
        ensures
            builder.bucket_name() == self.bucket_name(),
            builder.chosen_region() == Some(region),
            builder.chosen_provider() == self.chosen_provider(),
    {
        S3BucketBuilder { bucket: self.bucket, region: Some(region), provider: self.provider }
    }

    /// Sets the keys.
    pub fn provider(self, provider: StaticProvider) -> (builder: S3BucketBuilder)
        ensures
            builder.bucket_name() == self.bucket_name(),
            builder.chosen_region() == self.chosen_region(),
            builder.chosen_provider() == Some(provider),
    {
        S3BucketBuilder { bucket: self.bucket, region: self.region, provider: Some(provider) }
    }

    /// The region that the environment describes: the name and the endpoint
    /// it gives, each replaced by its default where it gives none.
    pub fn default_region(name: Option<String>, endpoint: Option<String>) -> (region: Region)
        ensures
            region.name@ == match name {
                Some(name) => name@,
                None => default_region_name(),
            },
            region.endpoint@ == match endpoint {
                Some(endpoint) => endpoint@,
                None => default_region_endpoint(),
            },
    {
        proof {
            reveal_strlit("us-east-1");
            reveal_strlit("https://storage.yandexcloud.net");
        }
        let name = match name {
            Some(name) => name,
            None => {
                assert("us-east-1"@ =~= default_region_name());
                "us-east-1".to_owned()
            },
        };
        let endpoint = match endpoint {
            Some(endpoint) => endpoint,
            None => {
                assert("https://storage.yandexcloud.net"@ =~= default_region_endpoint());
                "https://storage.yandexcloud.net".to_owned()
            },
        };
        Region { name, endpoint }
    }

    /// Builds the bucket. Without keys there is none; without a region the
    /// one that the environment describes is taken.
    pub fn build(self, region_name: Option<String>, region_endpoint: Option<String>) -> (r: Result<
        S3Bucket,
        BuildError,
    >)
        ensures
            r is Ok <==> self.chosen_provider() is Some,
            r matches Err(e) ==> e == BuildError::MissingProvider,
            r matches Ok(b) ==> {
                &&& b.name() == self.bucket_name()
                &&& Some(b.provider()) == self.chosen_provider()
                &&& self.chosen_region() matches Some(region) ==> b.region() == region
                &&& self.chosen_region() is None ==> {
                    &&& b.region().name@ == match region_name {
                        Some(name) => name@,
                        None => default_region_name(),
                    }
                    &&& b.region().endpoint@ == match region_endpoint {
                        Some(endpoint) => endpoint@,
                        None => default_region_endpoint(),
                    }
                }
            },
    {
        let provider = match self.provider {
            Some(provider) => provider,
            None => {
                return Err(BuildError::MissingProvider);
            },
        };
        let region = match self.region {
            Some(region) => region,
            None => Self::default_region(region_name, region_endpoint),
        };
        Ok(S3Bucket { bucket: self.bucket, region, provider })
    }
}

impl S3Bucket {
    /// The name of the bucket.
    pub closed spec fn name(self) -> Seq<char> {
        self.bucket@
    }

    /// Where the bucket is reached.
    pub closed spec fn region(self) -> Region {
        self.region
    }

    /// The keys that sign for the bucket.
    pub closed spec fn provider(self) -> StaticProvider {
        self.provider
    }

    /// The name of the bucket.
    pub fn bucket_name(&self) -> (name: &String)
        ensures
            name@ == self.name(),
    {
        &self.bucket
    }

    /// Where the bucket is reached.
    pub fn get_region(&self) -> (region: &Region)
        ensures
            *region == self.region(),
    {
        &self.region
    }

    /// The keys that sign for the bucket.
    pub fn get_provider(&self) -> (provider: &StaticProvider)
        ensures
            *provider == self.provider(),
    {
        &self.provider
    }

    /// The request that names the object under `key` in this bucket: what a
    /// call for its metadata, its content or its removal sends.
    pub fn object_request(&self, key: String) -> (request: ObjectRequest)
        ensures
            request.bucket@ == self.name(),
            request.key == key,
    {
        ObjectRequest { bucket: self.bucket.clone(), key }
    }

    /// The request that stores `object` under `key`, replacing what is
    /// there.
    pub fn upload_request(&self, key: String, object: ObjectToUpload) -> (request: PutRequest)
        ensures
            request.bucket@ == self.name(),
            request.key == key,
            request.body == object.body,
            request.content_length == object.content_length,
            request.content_type == object.content_type,
    {
        PutRequest {
            body: object.body,
            content_length: object.content_length,
            content_type: object.content_type,
            bucket: self.bucket.clone(),
            key,
        }
    }

    /// The request for the page of keys that `arg` describes.
    pub fn list_request(&self, arg: &ListArg) -> (request: ListRequest)
        ensures
            request.bucket@ == self.name(),
            request.arg() == arg@,
    {
        ListRequest {
            bucket: self.bucket.clone(),
            max_keys: arg.get_max_keys(),
            continuation_token: clone_opt(arg.get_continuation_token()),
            prefix: clone_opt(arg.get_prefix()),
        }
    }

    /// What the answer to an upload means: the object is stored, or the
    /// failure is the error.
    pub fn upload(&self, reply: Result<(), StoreFailure>) -> (r: Result<(), StoreError>)
        ensures
            r == match reply {
                Ok(()) => Ok::<(), StoreError>(()),
                Err(failure) => Err(failure.as_error()),
            },
    {
        match reply {
            Ok(()) => Ok(()),
            Err(failure) => Err(failure.into_error()),
        }
    }

    /// What the answer to a removal means. To remove what is not there is
    /// no error.
    pub fn delete(&self, reply: Result<(), StoreFailure>) -> (r: Result<(), StoreError>)
        ensures
            r == match reply {
                Ok(()) => Ok::<(), StoreError>(()),
                Err(failure) => if failure.is_not_found() {
                    Ok(())
                } else {
                    Err(failure.as_error())
                },
            },
    {
        match reply {
            Ok(()) => Ok(()),
            Err(failure) => if failure.not_found() {
                Ok(())
            } else {
                Err(failure.into_error())
            },
        }
    }

    /// What the answer to a download means: the content of the object,
    /// `None` only where the object is not there.
    pub fn download(&self, reply: Result<Option<Vec<u8>>, StoreFailure>) -> (r: Result<
        Option<Vec<u8>>,
        StoreError,
    >)
        ensures
            reply matches Ok(Some(body)) ==> r == Ok::<Option<Vec<u8>>, StoreError>(Some(body)),
            reply matches Ok(None) ==> r matches Ok(Some(body)) && body@ == Seq::<u8>::empty(),
            reply matches Err(failure) ==> r == if failure.is_not_found() {
                Ok::<Option<Vec<u8>>, StoreError>(None)
            } else {
                Err(failure.as_error())
            },
    {
        match reply {
            Ok(Some(body)) => Ok(Some(body)),
            Ok(None) => Ok(Some(Vec::new())),
            Err(failure) => if failure.not_found() {
                Ok(None)
            } else {
                Err(failure.into_error())
            },
        }
    }
}

/// A copy of a string that may be missing.
fn clone_opt(s: Option<&String>) -> (copy: Option<String>)
    ensures
        crate::store::list::opt_text(copy) == crate::store::list::opt_ref_text(s),
{
    match s {
        Some(s) => Some(s.clone()),
        None => None,
    }
}

} // verus!
