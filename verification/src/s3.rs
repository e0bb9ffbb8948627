//! Bookkeeping for S3-compatible uploads: the client configuration, the
//! derived per-upload settings, and the sequencing of completed parts.
//!
//! The store-facing task that actually signs and sends requests is owned
//! by the embedding program; what can be decided locally — whether the
//! configuration is usable, which object key a file maps to, whether a
//! part arrives in order, which upload path a file takes — is verified
//! here.

use vstd::prelude::*;
use vstd::string::StringExecFns;

verus! {

/// Each part of a multi-part upload must be at least this large, so
/// anything at most this large goes out as one plain object write.
pub const MINIMUM_PART_SIZE: usize = 5 * 1024 * 1024;

/// The client-side configuration of an S3-compatible store. Optional
/// settings are empty strings when unset, as the wire form carries them.
#[derive(Debug)]
pub struct S3Config {
    pub region: String,
    pub endpoint: String,
    pub bucket: String,
    pub prefix: String,
    pub access_key: String,
    pub secret_access_key: String,
    pub acl: String,
    pub sse: String,
    pub sse_kms_key_id: String,
    pub storage_class: String,
}

/// Why a configuration is rejected.
#[derive(Debug, Clone, Copy, PartialEq, Eq, Structural)]
pub enum S3ConfigError {
    MissingBucket,
}

/// A configuration is usable exactly when it names a bucket.
pub fn check_config(config: &S3Config) -> (r: Result<(), S3ConfigError>)
    ensures
        r is Ok <==> config.bucket@.len() > 0,
        r matches Err(e) ==> e == S3ConfigError::MissingBucket,
{
    if config.bucket.as_str().is_empty() {
        Err(S3ConfigError::MissingBucket)
    } else {
        Ok(())
    }
}

/// The object key a file maps to: the configured prefix and a separating
/// slash in front of the name, or the name alone when no prefix is set.
pub fn maybe_prefix_key(config: &S3Config, key: &str) -> (r: String)
    ensures
        config.prefix@.len() == 0 ==> r@ == key@,
        config.prefix@.len() > 0 ==> r@ == config.prefix@ + "/"@ + key@,
{
    if !config.prefix.as_str().is_empty() {
        let mut prefixed = config.prefix.clone();
        prefixed.append("/");
        prefixed.append(key);
        prefixed
    } else {
        key.to_owned()
    }
}

/// Whether an upload of the estimated length takes the multi-part path;
/// anything small enough goes out as one plain object write, which is
/// cheap to retry whole.
pub fn multipart_needed(est_len: u64) -> (r: bool)
    ensures
        r == (est_len > MINIMUM_PART_SIZE as u64),
{
    est_len > MINIMUM_PART_SIZE as u64
}

/// One completed part, as the store acknowledges it.
#[derive(Debug)]
pub struct CompletedPart {
    pub e_tag: Option<String>,
    pub part_number: i64,
}

/// Why a part is refused.
#[derive(Debug, Clone, Copy, PartialEq, Eq, Structural)]
pub enum S3UploadError {
    /// Parts must arrive as 1, 2, 3, …: the part carried `got` where part
    /// number `expected` was next.
    UnexpectedPartNumber { expected: u64, got: i64 },
}

/// The local bookkeeping of one multi-part upload: the settings the upload
/// was opened with, the upload id the store assigned, and the parts
/// completed so far, in order.
pub struct S3Uploader {
    bucket: String,
    key: String,
    acl: Option<String>,
    server_side_encryption: Option<String>,
    ssekms_key_id: Option<String>,
    storage_class: Option<String>,
    upload_id: String,
    parts: Vec<CompletedPart>,
}

fn get_var(s: &String) -> (r: Option<String>)
    ensures
        s@.len() == 0 ==> r is None,
        s@.len() > 0 ==> (r matches Some(v) && v@ == s@),
{
    if s.as_str().is_empty() {
        None
    } else {
        Some(s.clone())
    }
}

impl S3Uploader {
    /// The bucket the upload writes into.
    pub closed spec fn bucket(self) -> Seq<char> {
        self.bucket@
    }

    /// The object key the upload writes to.
    pub closed spec fn key(self) -> Seq<char> {
        self.key@
    }

    /// The canned ACL, if the configuration set one.
    pub closed spec fn acl(self) -> Option<String> {
        self.acl
    }

    /// The server-side encryption mode, if set.
    pub closed spec fn server_side_encryption(self) -> Option<String> {
        self.server_side_encryption
    }

    /// The KMS key id for encryption, if set.
    pub closed spec fn ssekms_key_id(self) -> Option<String> {
        self.ssekms_key_id
    }

    /// The storage class, if set.
    pub closed spec fn storage_class(self) -> Option<String> {
        self.storage_class
    }

    /// The upload id the store assigned, empty until it did.
    pub closed spec fn upload_id(self) -> Seq<char> {
        self.upload_id@
    }

    /// The parts completed so far, in order.
    pub closed spec fn parts(self) -> Seq<CompletedPart> {
        self.parts@
    }

    /// Open the bookkeeping for an upload of `key`: every optional setting
    /// is taken from the configuration, with its empty string meaning
    /// unset; no upload id is assigned yet and no part is completed.
    pub fn new(config: &S3Config, key: String) -> (r: S3Uploader)
        ensures
            r.bucket() == config.bucket@,
            r.key() == key@,
            config.acl@.len() == 0 ==> r.acl() is None,
            config.acl@.len() > 0 ==> (r.acl() matches Some(v) && v@ == config.acl@),
            config.sse@.len() == 0 ==> r.server_side_encryption() is None,
            config.sse@.len() > 0 ==> (r.server_side_encryption() matches Some(v) && v@
                == config.sse@),
            config.sse_kms_key_id@.len() == 0 ==> r.ssekms_key_id() is None,
            config.sse_kms_key_id@.len() > 0 ==> (r.ssekms_key_id() matches Some(v) && v@
                == config.sse_kms_key_id@),
            config.storage_class@.len() == 0 ==> r.storage_class() is None,
            config.storage_class@.len() > 0 ==> (r.storage_class() matches Some(v) && v@
                == config.storage_class@),
            r.upload_id() == Seq::<char>::empty(),
            r.parts() == Seq::<CompletedPart>::empty(),
    {
        S3Uploader {
            bucket: config.bucket.clone(),
            key,
            acl: get_var(&config.acl),
            server_side_encryption: get_var(&config.sse),
            ssekms_key_id: get_var(&config.sse_kms_key_id),
            storage_class: get_var(&config.storage_class),
            upload_id: String::new(),
            parts: Vec::new(),
        }
    }

    /// Record the upload id the store assigned.
    pub fn set_upload_id(&mut self, upload_id: String)
        ensures
            final(self).upload_id() == upload_id@,
            final(self).parts() == old(self).parts(),
            final(self).bucket() == old(self).bucket(),
            final(self).key() == old(self).key(),
    {
        self.upload_id = upload_id;
    }

    /// The upload id the store assigned.
    pub fn get_upload_id(&self) -> (r: String)
        ensures
            r@ == self.upload_id(),
    {
        self.upload_id.clone()
    }

    /// Record one completed part. Parts must arrive in order — part `n`
    /// can only follow the first `n - 1` — so a part with any other number
    /// is refused and nothing is recorded.
    pub fn push_part(&mut self, part_number: i64, part: CompletedPart) -> (r: Result<
        (),
        S3UploadError,
    >)
        requires
            old(self).parts().len() + 1 <= u64::MAX,
        ensures
            final(self).upload_id() == old(self).upload_id(),
            final(self).bucket() == old(self).bucket(),
            final(self).key() == old(self).key(),
            r is Ok <==> part_number == old(self).parts().len() + 1,
            r is Ok ==> final(self).parts() == old(self).parts().push(part),
            r matches Err(e) ==> final(self).parts() == old(self).parts()
                && e == (S3UploadError::UnexpectedPartNumber {
                expected: (old(self).parts().len() + 1) as u64,
                got: part_number,
            }),
    {
        let expected: u64 = self.parts.len() as u64 + 1;
        if part_number >= 1 && part_number as u64 == expected {
            self.parts.push(part);
            Ok(())
        } else {
            Err(S3UploadError::UnexpectedPartNumber { expected, got: part_number })
        }
    }

    /// The parts completed so far, in order, for the completion request.
    pub fn get_parts(&self) -> (r: &Vec<CompletedPart>)
        ensures
            r@ == self.parts(),
    {
        &self.parts
    }
}

} // verus!
