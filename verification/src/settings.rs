//! The configured shape of the gateway, as plain values.
//!
//! Startup configuration arrives as a list of bucket entries whose
//! fields may each be absent; this module applies the documented
//! defaults and builds the ordered, immutable [`BucketList`] that every
//! request consults.  Reading the configuration file and constructing
//! live network clients from a [`Storage`] are the caller's business.

use vstd::prelude::*;

verus! {

/// One bucket entry as the configuration file gives it: every field
/// may be absent, in which case its documented default applies.
#[derive(Debug)]
pub struct BucketEntry {
    /// Bucket name; defaults to `bucket`.
    pub bucket: Option<String>,
    /// Region identifier; defaults to `us-east-1`.
    pub region: Option<String>,
    /// Custom endpoint URL; its presence switches the backend to a
    /// custom-endpoint region instead of a named one.
    pub endpoint: Option<String>,
    /// Access key; defaults to the empty string.
    pub access_key: Option<String>,
    /// Secret key; defaults to the empty string.
    pub secret_key: Option<String>,
}

/// The access credentials of one backend.
#[derive(Debug)]
pub struct Credential {
    pub key: String,
    pub secret: String,
}

/// Where a backend lives: a named region, or a custom endpoint with a
/// region name attached.
#[derive(Debug)]
pub enum Region {
    Named { name: String },
    Custom { name: String, endpoint: String },
}

/// One configured backend with every default applied: the region, the
/// credentials, and the bucket name.  Immutable once parsed.
#[derive(Debug)]
pub struct Storage {
    pub region: Region,
    pub credential: Credential,
    pub bucket: String,
}

/// The configured value when present, the fallback otherwise.
pub open spec fn string_or(value: Option<String>, fallback: Seq<char>) -> Seq<char> {
    match value {
        Some(s) => s@,
        None => fallback,
    }
}

/// How one configuration entry parses: every absent field is replaced
/// by its documented default, and the presence of an endpoint decides
/// between a named and a custom-endpoint region.
pub open spec fn parses_to(entry: BucketEntry, storage: Storage) -> bool {
    &&& storage.bucket@ == string_or(entry.bucket, "bucket"@)
    &&& storage.credential.key@ == string_or(entry.access_key, Seq::<char>::empty())
    &&& storage.credential.secret@ == string_or(entry.secret_key, Seq::<char>::empty())
    &&& (entry.endpoint matches Some(e) ==> (storage.region matches Region::Custom {
        name,
        endpoint,
    } && name@ == string_or(entry.region, "us-east-1"@) && endpoint@ == e@))
    &&& (entry.endpoint is None ==> (storage.region matches Region::Named { name } && name@
        == string_or(entry.region, "us-east-1"@)))
}

/// The entry's access and secret keys, each defaulting to the empty
/// string when absent.
pub fn parse_bucket_config_credentials(cfg: &BucketEntry) -> (credential: Credential)
    ensures
        credential.key@ == string_or(cfg.access_key, Seq::<char>::empty()),
        credential.secret@ == string_or(cfg.secret_key, Seq::<char>::empty()),
{
    let key = match &cfg.access_key {
        Some(s) => s.clone(),
        None => String::new(),
    };
    let secret = match &cfg.secret_key {
        Some(s) => s.clone(),
        None => String::new(),
    };
    Credential { key, secret }
}

/// The entry's region: a custom-endpoint region whenever an endpoint is
/// configured, a named region otherwise; the region name defaults to
/// `us-east-1` either way.
pub fn parse_bucket_config_region(cfg: &BucketEntry) -> (region: Region)
    ensures
        cfg.endpoint matches Some(e) ==> (region matches Region::Custom { name, endpoint }
            && name@ == string_or(cfg.region, "us-east-1"@) && endpoint@ == e@),
        cfg.endpoint is None ==> (region matches Region::Named { name } && name@ == string_or(
            cfg.region,
            "us-east-1"@,
        )),
{
    let name = match &cfg.region {
        Some(s) => s.clone(),
        None => String::from_str("us-east-1"),
    };
    match &cfg.endpoint {
        Some(e) => Region::Custom { name, endpoint: e.clone() },
        None => Region::Named { name },
    }
}

/// One whole entry with its defaults applied.
pub fn parse_bucket_config(cfg: &BucketEntry) -> (storage: Storage)
    ensures
        parses_to(*cfg, storage),
{
    let bucket = match &cfg.bucket {
        Some(s) => s.clone(),
        None => String::from_str("bucket"),
    };
    Storage {
        region: parse_bucket_config_region(cfg),
        credential: parse_bucket_config_credentials(cfg),
        bucket,
    }
}

/// The ordered list of configured backends: insertion order is
/// configuration order is search priority, and nothing is ever added,
/// removed or reordered after construction.
#[derive(Debug)]
pub struct BucketList {
    backends: Vec<Storage>,
}

impl View for BucketList {
    type V = Seq<Storage>;

    closed spec fn view(&self) -> Seq<Storage> {
        self.backends@
    }
}

impl BucketList {
    /// Parse every configuration entry, in order, into the backend list.
    pub fn from_entries(entries: &Vec<BucketEntry>) -> (list: BucketList)
        ensures
            list@.len() == entries@.len(),
            forall|i: int| 0 <= i < entries@.len() ==> parses_to(entries@[i], list@[i]),
    {
        let mut backends: Vec<Storage> = Vec::new();
        let mut i: usize = 0;
        while i < entries.len()
            invariant
                i <= entries@.len(),
                backends@.len() == i,
                forall|j: int| 0 <= j < i ==> parses_to(entries@[j], backends@[j]),
            decreases entries@.len() - i,
        {
            let storage = parse_bucket_config(&entries[i]);
            backends.push(storage);
            i = i + 1;
        }
        BucketList { backends }
    }

    /// How many backends are configured.
    pub fn len(&self) -> (n: usize)
        ensures
            n == self@.len(),
    {
        self.backends.len()
    }

    /// The backend at priority position `i`.
    pub fn get(&self, i: usize) -> (storage: &Storage)
        requires
            i < self@.len(),
        ensures
            *storage == self@[i as int],
    {
        &self.backends[i]
    }
}

/// The address the gateway binds to: the configured host, or
/// `127.0.0.1:8080` when none is configured.
pub fn bind_address(host: &Option<String>) -> (address: String)
    ensures
        address@ == string_or(*host, "127.0.0.1:8080"@),
{
    match host {
        Some(s) => s.clone(),
        None => String::from_str("127.0.0.1:8080"),
    }
}

} // verus!
