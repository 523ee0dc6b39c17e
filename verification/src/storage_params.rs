use vstd::prelude::*;
use vstd::utf8::*;
use vstd::string::StringSliceAdditionalSpecFns;

use crate::text::{has_prefix, string_of};

verus! {

/// Storage params which contains the detailed storage info.
#[derive(Clone, PartialEq, Eq)]
pub enum StorageParams {
    Azblob(StorageAzblobConfig),
    Fs(StorageFsConfig),
    Ftp(StorageFtpConfig),
    Gcs(StorageGcsConfig),
    Hdfs(StorageHdfsConfig),
    Http(StorageHttpConfig),
    Ipfs(StorageIpfsConfig),
    Memory,
    Moka(StorageMokaConfig),
    Obs(StorageObsConfig),
    Oss(StorageOssConfig),
    S3(StorageS3Config),
    Redis(StorageRedisConfig),
    Webhdfs(StorageWebhdfsConfig),
    /// No storage: this storage type is none.
    ///
    /// This type is mostly for cache which mean bypass the cache logic.
    NoStorage,
}

/// Config for storage backend azblob.
#[derive(Clone, Default, PartialEq, Eq)]
pub struct StorageAzblobConfig {
    pub endpoint_url: String,
    pub container: String,
    pub account_name: String,
    pub account_key: String,
    pub root: String,
}

/// Config for storage backend fs.
#[derive(Clone, Debug, PartialEq, Eq)]
pub struct StorageFsConfig {
    pub root: String,
}

pub const STORAGE_FTP_DEFAULT_ENDPOINT: &'static str = "ftps://127.0.0.1";

/// Config for FTP and FTPS data source
#[derive(Clone, PartialEq, Eq)]
pub struct StorageFtpConfig {
    pub endpoint: String,
    pub root: String,
    pub username: String,
    pub password: String,
}

pub const STORAGE_GCS_DEFAULT_ENDPOINT: &'static str = "https://storage.googleapis.com";

/// Config for storage backend GCS.
#[derive(Clone, PartialEq, Eq)]
pub struct StorageGcsConfig {
    pub endpoint_url: String,
    pub bucket: String,
    pub root: String,
    pub credential: String,
}

/// Config for storage backend hdfs.
#[derive(Clone, Debug, Default, PartialEq, Eq)]
pub struct StorageHdfsConfig {
    pub name_node: String,
    pub root: String,
}

pub const STORAGE_S3_DEFAULT_ENDPOINT: &'static str = "https://s3.amazonaws.com";

/// Config for storage backend s3.
#[derive(Clone, PartialEq, Eq)]
pub struct StorageS3Config {
    pub endpoint_url: String,
    pub region: String,
    pub bucket: String,
    pub access_key_id: String,
    pub secret_access_key: String,
    /// Temporary security token used for authentications
    ///
    /// This recommended to use since users don't need to store their permanent credentials in their
    /// scripts or worksheets.
    pub security_token: String,
    pub master_key: String,
    pub root: String,
    /// This flag is used internally to control whether credentials are
    /// loaded from the environment like env, profile and web token.
    pub disable_credential_loader: bool,
    /// Enable this flag to send API in virtual host style.
    ///
    /// - Virtual Host Style: `https://bucket.s3.amazonaws.com`
    /// - Path Style: `https://s3.amazonaws.com/bucket`
    pub enable_virtual_host_style: bool,
    /// The RoleArn that used for AssumeRole.
    pub role_arn: String,
    /// The ExternalId that used for AssumeRole.
    pub external_id: String,
}

/// Config for storage backend http.
#[derive(Clone, Debug, Default, PartialEq, Eq)]
pub struct StorageHttpConfig {
    pub endpoint_url: String,
    pub paths: Vec<String>,
}

pub const STORAGE_IPFS_DEFAULT_ENDPOINT: &'static str = "https://ipfs.io";

/// Config for IPFS storage backend
#[derive(Clone, Debug, Default, PartialEq, Eq)]
pub struct StorageIpfsConfig {
    pub endpoint_url: String,
    pub root: String,
}

/// Config for storage backend obs.
#[derive(Clone, Default, PartialEq, Eq)]
pub struct StorageObsConfig {
    pub endpoint_url: String,
    pub bucket: String,
    pub access_key_id: String,
    pub secret_access_key: String,
    pub root: String,
}

/// config for Aliyun Object Storage Service
#[derive(Clone, Default, PartialEq, Eq)]
pub struct StorageOssConfig {
    pub endpoint_url: String,
    pub presign_endpoint_url: String,
    pub bucket: String,
    pub access_key_id: String,
    pub access_key_secret: String,
    pub root: String,
}

/// config for Moka Object Storage Service
#[derive(Clone, Debug, PartialEq, Eq)]
pub struct StorageMokaConfig {
    pub max_capacity: u64,
    pub time_to_live: i64,
    pub time_to_idle: i64,
}

/// config for Redis Storage Service
#[derive(Clone, Default, PartialEq, Eq)]
pub struct StorageRedisConfig {
    pub endpoint_url: String,
    pub username: Option<String>,
    pub password: Option<String>,
    pub root: String,
    pub db: i64,
    /// TTL in seconds
    pub default_ttl: Option<i64>,
}

/// config for WebHDFS Storage Service
#[derive(Clone, Default, PartialEq, Eq)]
pub struct StorageWebhdfsConfig {
    pub endpoint_url: String,
    pub root: String,
    pub delegation: String,
}

/// Whether an endpoint is reached over TLS: it starts with `https://`.
pub open spec fn https_endpoint(endpoint: Seq<char>) -> bool {
    "https://"@.is_prefix_of(endpoint)
}

/// Whether the storage params are secure, by backend.
pub open spec fn spec_is_secure(p: StorageParams) -> bool {
    match p {
        StorageParams::Azblob(v) => https_endpoint(v.endpoint_url@),
        StorageParams::Fs(_) => false,
        StorageParams::Ftp(v) => "ftps://"@.is_prefix_of(v.endpoint@),
        StorageParams::Gcs(v) => https_endpoint(v.endpoint_url@),
        StorageParams::Hdfs(_) => false,
        StorageParams::Http(v) => https_endpoint(v.endpoint_url@),
        StorageParams::Ipfs(v) => https_endpoint(v.endpoint_url@),
        StorageParams::Memory => false,
        StorageParams::Moka(_) => false,
        StorageParams::Obs(v) => https_endpoint(v.endpoint_url@),
        StorageParams::Oss(v) => https_endpoint(v.endpoint_url@),
        StorageParams::S3(v) => https_endpoint(v.endpoint_url@),
        StorageParams::Redis(_) => false,
        StorageParams::Webhdfs(v) => https_endpoint(v.endpoint_url@),
        StorageParams::NoStorage => false,
    }
}

/// The root of the backends that have one.
pub open spec fn spec_root(p: StorageParams) -> Option<Seq<char>> {
    match p {
        StorageParams::Azblob(v) => Some(v.root@),
        StorageParams::Fs(v) => Some(v.root@),
        StorageParams::Ftp(v) => Some(v.root@),
        StorageParams::Gcs(v) => Some(v.root@),
        StorageParams::Hdfs(v) => Some(v.root@),
        StorageParams::Http(_) => None,
        StorageParams::Ipfs(v) => Some(v.root@),
        StorageParams::Memory => None,
        StorageParams::Moka(_) => None,
        StorageParams::Obs(v) => Some(v.root@),
        StorageParams::Oss(v) => Some(v.root@),
        StorageParams::S3(v) => Some(v.root@),
        StorageParams::Redis(v) => Some(v.root@),
        StorageParams::Webhdfs(v) => Some(v.root@),
        StorageParams::NoStorage => None,
    }
}

/// `q` is `p` with its root replaced by `new_root`: the same backend, every
/// other field unchanged. Backends without a root are left as they are.
pub open spec fn with_root(p: StorageParams, q: StorageParams, new_root: String) -> bool {
    match p {
        StorageParams::Azblob(v) => q == StorageParams::Azblob(StorageAzblobConfig { root: new_root, ..v }),
        StorageParams::Fs(v) => q == StorageParams::Fs(StorageFsConfig { root: new_root, ..v }),
        StorageParams::Ftp(v) => q == StorageParams::Ftp(StorageFtpConfig { root: new_root, ..v }),
        StorageParams::Gcs(v) => q == StorageParams::Gcs(StorageGcsConfig { root: new_root, ..v }),
        StorageParams::Hdfs(v) => q == StorageParams::Hdfs(StorageHdfsConfig { root: new_root, ..v }),
        StorageParams::Ipfs(v) => q == StorageParams::Ipfs(StorageIpfsConfig { root: new_root, ..v }),
        StorageParams::Obs(v) => q == StorageParams::Obs(StorageObsConfig { root: new_root, ..v }),
        StorageParams::Oss(v) => q == StorageParams::Oss(StorageOssConfig { root: new_root, ..v }),
        StorageParams::S3(v) => q == StorageParams::S3(StorageS3Config { root: new_root, ..v }),
        StorageParams::Redis(v) => q == StorageParams::Redis(StorageRedisConfig { root: new_root, ..v }),
        StorageParams::Webhdfs(v) => q == StorageParams::Webhdfs(StorageWebhdfsConfig { root: new_root, ..v }),
        _ => q == p,
    }
}

/// `q` is what `map_root` gives for `p` and `f`: where `p` has a root,
/// the root of `q` is a value that `f` can return for the old root.
pub open spec fn root_mapped<F: Fn(&str) -> String>(p: StorageParams, q: StorageParams, f: F) -> bool {
    match spec_root(p) {
        Some(old_root) => exists|arg: &str, new_root: String|
            arg@ == old_root && #[trigger] f.ensures((arg,), new_root) && with_root(p, q, new_root),
        None => q == p,
    }
}

impl StorageParams {
    /// Whether this storage params is secure.
    ///
    /// Query will forbid this storage config unless `allow_insecure` has been enabled.
    pub fn is_secure(&self) -> (r: bool)
        ensures
            r == spec_is_secure(*self),
    {
        match self {
            StorageParams::Azblob(v) => has_prefix(v.endpoint_url.as_str(), "https://"),
            StorageParams::Fs(_) => false,
            StorageParams::Ftp(v) => has_prefix(v.endpoint.as_str(), "ftps://"),
            StorageParams::Gcs(v) => has_prefix(v.endpoint_url.as_str(), "https://"),
            StorageParams::Hdfs(_) => false,
            StorageParams::Http(v) => has_prefix(v.endpoint_url.as_str(), "https://"),
            StorageParams::Ipfs(c) => has_prefix(c.endpoint_url.as_str(), "https://"),
            StorageParams::Memory => false,
            StorageParams::Moka(_) => false,
            StorageParams::Obs(v) => has_prefix(v.endpoint_url.as_str(), "https://"),
            StorageParams::Oss(v) => has_prefix(v.endpoint_url.as_str(), "https://"),
            StorageParams::S3(v) => has_prefix(v.endpoint_url.as_str(), "https://"),
            StorageParams::Redis(_) => false,
            StorageParams::Webhdfs(v) => has_prefix(v.endpoint_url.as_str(), "https://"),
            StorageParams::NoStorage => false,
        }
    }

    /// map the given root with.
    pub fn map_root<F: Fn(&str) -> String>(self, f: F) -> (r: Self)
        requires
            forall|arg: &str| #[trigger] f.requires((arg,)),
        ensures
            root_mapped(self, r, f),
    {
        let ghost p = self;
        match self {
            StorageParams::Azblob(v) => {
                let new_root = f(v.root.as_str());
                let r = StorageParams::Azblob(StorageAzblobConfig { root: new_root, ..v });
                assert(with_root(p, r, new_root));
                r
            },
            StorageParams::Fs(v) => {
                let new_root = f(v.root.as_str());
                let r = StorageParams::Fs(StorageFsConfig { root: new_root, ..v });
                assert(with_root(p, r, new_root));
                r
            },
            StorageParams::Ftp(v) => {
                let new_root = f(v.root.as_str());
                let r = StorageParams::Ftp(StorageFtpConfig { root: new_root, ..v });
                assert(with_root(p, r, new_root));
                r
            },
            StorageParams::Gcs(v) => {
                let new_root = f(v.root.as_str());
                let r = StorageParams::Gcs(StorageGcsConfig { root: new_root, ..v });
                assert(with_root(p, r, new_root));
                r
            },
            StorageParams::Hdfs(v) => {
                let new_root = f(v.root.as_str());
                let r = StorageParams::Hdfs(StorageHdfsConfig { root: new_root, ..v });
                assert(with_root(p, r, new_root));
                r
            },
            StorageParams::Http(v) => StorageParams::Http(v),
            StorageParams::Ipfs(v) => {
                let new_root = f(v.root.as_str());
                let r = StorageParams::Ipfs(StorageIpfsConfig { root: new_root, ..v });
                assert(with_root(p, r, new_root));
                r
            },
            StorageParams::Memory => StorageParams::Memory,
            StorageParams::Moka(v) => StorageParams::Moka(v),
            StorageParams::Obs(v) => {
                let new_root = f(v.root.as_str());
                let r = StorageParams::Obs(StorageObsConfig { root: new_root, ..v });
                assert(with_root(p, r, new_root));
                r
            },
            StorageParams::Oss(v) => {
                let new_root = f(v.root.as_str());
                let r = StorageParams::Oss(StorageOssConfig { root: new_root, ..v });
                assert(with_root(p, r, new_root));
                r
            },
            StorageParams::S3(v) => {
                let new_root = f(v.root.as_str());
                let r = StorageParams::S3(StorageS3Config { root: new_root, ..v });
                assert(with_root(p, r, new_root));
                r
            },
            StorageParams::Redis(v) => {
                let new_root = f(v.root.as_str());
                let r = StorageParams::Redis(StorageRedisConfig { root: new_root, ..v });
                assert(with_root(p, r, new_root));
                r
            },
            StorageParams::Webhdfs(v) => {
                let new_root = f(v.root.as_str());
                let r = StorageParams::Webhdfs(StorageWebhdfsConfig { root: new_root, ..v });
                assert(with_root(p, r, new_root));
                r
            },
            StorageParams::NoStorage => StorageParams::NoStorage,
        }
    }

    pub fn is_fs(&self) -> (r: bool)
        ensures
            r == (*self is Fs),
    {
        match self {
            StorageParams::Fs(_) => true,
            _ => false,
        }
    }
}

} // verus!

verus! {

/// The characters that `mask_string` keeps of `s`: those whose UTF-8 bytes
/// are the last `unmask_len` bytes of its encoding.
pub open spec fn kept_suffix(s: Seq<char>, unmask_len: nat) -> Seq<char> {
    let bytes = encode_utf8(s);
    decode_utf8(bytes.subrange(bytes.len() - unmask_len, bytes.len() as int))
}

/// `mask_string` of `s` and `unmask_len`: `s` itself when its UTF-8 encoding
/// has at most `unmask_len` bytes, else `******` followed by the characters
/// of its last `unmask_len` bytes.
pub open spec fn spec_mask_string(s: Seq<char>, unmask_len: nat) -> Seq<char> {
    if encode_utf8(s).len() <= unmask_len {
        s
    } else {
        "******"@ + kept_suffix(s, unmask_len)
    }
}

/// Whether `mask_string` can cut `s`: the byte at which the kept suffix starts
/// is the first byte of a character (else slicing there panics).
pub open spec fn mask_cut_on_boundary(s: Seq<char>, unmask_len: nat) -> bool {
    let bytes = encode_utf8(s);
    bytes.len() > unmask_len ==> is_char_boundary(bytes, bytes.len() - unmask_len)
}

/// Mask a string by "******", but keep `unmask_len` of suffix.
///
/// Lengths are counted in bytes of the UTF-8 encoding.
pub fn mask_string(s: &str, unmask_len: usize) -> (r: String)
    requires
        encode_utf8(s@).len() <= usize::MAX,
        mask_cut_on_boundary(s@, unmask_len as nat),
    ensures
        r@ == spec_mask_string(s@, unmask_len as nat),
{
    if s.len() <= unmask_len {
        string_of(s)
    } else {
        assert(s.spec_bytes() == encode_utf8(s@));
        let mut ret = string_of("******");
        let (_, tail) = s.split_at(s.len() - unmask_len);
        proof {
            encode_utf8_decode_utf8(tail@);
        }
        ret.append(tail);
        ret
    }
}

} // verus!

verus! {

impl Default for StorageParams {
    /// A local file system under `_data`.
    fn default() -> (r: Self)
        ensures
            r matches StorageParams::Fs(v) && v.root@ == "_data"@,
    {
        StorageParams::Fs(StorageFsConfig::default())
    }
}

impl Default for StorageFsConfig {
    fn default() -> (r: Self)
        ensures
            r.root@ == "_data"@,
    {
        StorageFsConfig { root: string_of("_data") }
    }
}

impl Default for StorageFtpConfig {
    fn default() -> (r: Self)
        ensures
            r.endpoint@ == STORAGE_FTP_DEFAULT_ENDPOINT@,
            r.username@ == Seq::<char>::empty(),
            r.password@ == Seq::<char>::empty(),
            r.root@ == "/"@,
    {
        StorageFtpConfig {
            endpoint: string_of(STORAGE_FTP_DEFAULT_ENDPOINT),
            username: String::new(),
            password: String::new(),
            root: string_of("/"),
        }
    }
}

impl Default for StorageGcsConfig {
    fn default() -> (r: Self)
        ensures
            r.endpoint_url@ == STORAGE_GCS_DEFAULT_ENDPOINT@,
            r.bucket@ == Seq::<char>::empty(),
            r.root@ == Seq::<char>::empty(),
            r.credential@ == Seq::<char>::empty(),
    {
        StorageGcsConfig {
            endpoint_url: string_of(STORAGE_GCS_DEFAULT_ENDPOINT),
            bucket: String::new(),
            root: String::new(),
            credential: String::new(),
        }
    }
}

impl Default for StorageS3Config {
    fn default() -> (r: Self)
        ensures
            r.endpoint_url@ == STORAGE_S3_DEFAULT_ENDPOINT@,
            r.region@ == Seq::<char>::empty(),
            r.bucket@ == Seq::<char>::empty(),
            r.access_key_id@ == Seq::<char>::empty(),
            r.secret_access_key@ == Seq::<char>::empty(),
            r.security_token@ == Seq::<char>::empty(),
            r.master_key@ == Seq::<char>::empty(),
            r.root@ == Seq::<char>::empty(),
            !r.disable_credential_loader,
            !r.enable_virtual_host_style,
            r.role_arn@ == Seq::<char>::empty(),
            r.external_id@ == Seq::<char>::empty(),
    {
        StorageS3Config {
            endpoint_url: string_of(STORAGE_S3_DEFAULT_ENDPOINT),
            region: String::new(),
            bucket: String::new(),
            access_key_id: String::new(),
            secret_access_key: String::new(),
            security_token: String::new(),
            master_key: String::new(),
            root: String::new(),
            disable_credential_loader: false,
            enable_virtual_host_style: false,
            role_arn: String::new(),
            external_id: String::new(),
        }
    }
}

impl Default for StorageMokaConfig {
    fn default() -> (r: Self)
        ensures
            r.max_capacity == 1024 * 1024 * 1024,
            r.time_to_live == 3600,
            r.time_to_idle == 600,
    {
        StorageMokaConfig {
            // Use 1G as default.
            max_capacity: 1024 * 1024 * 1024,
            // Use 1 hour as default time to live
            time_to_live: 3600,
            // Use 10 minutes as default time to idle.
            time_to_idle: 600,
        }
    }
}

} // verus!

verus! {

/// The UTF-8 encoding of a concatenation is the concatenation of the encodings.
proof fn lemma_encode_utf8_concat(a: Seq<char>, b: Seq<char>)
    ensures
        encode_utf8(a + b) == encode_utf8(a) + encode_utf8(b),
    decreases a.len(),
{
    if a.len() == 0 {
        assert(a + b =~= b);
        assert(encode_utf8(a) =~= Seq::<u8>::empty());
        assert(encode_utf8(a) + encode_utf8(b) =~= encode_utf8(b));
    } else {
        lemma_encode_utf8_concat(a.drop_first(), b);
        assert((a + b).drop_first() =~= a.drop_first() + b);
        assert((a + b)[0] == a[0]);
        assert(encode_utf8(a + b) =~= encode_scalar(a[0] as u32) + encode_utf8(a.drop_first() + b));
        assert(encode_utf8(a) =~= encode_scalar(a[0] as u32) + encode_utf8(a.drop_first()));
    }
}

/// What a masked string reveals: a string of at most `unmask_len` bytes comes
/// back whole; a longer one becomes the six bytes of `******` followed by
/// exactly its last `unmask_len` bytes, so `6 + unmask_len` bytes in all.
pub proof fn lemma_mask_string_reveals_only_suffix(s: Seq<char>, unmask_len: nat)
    requires
        mask_cut_on_boundary(s, unmask_len),
    ensures
        encode_utf8(s).len() <= unmask_len ==> spec_mask_string(s, unmask_len) == s,
        encode_utf8(s).len() > unmask_len ==> encode_utf8(spec_mask_string(s, unmask_len))
            == encode_utf8("******"@) + encode_utf8(s).subrange(
            encode_utf8(s).len() - unmask_len,
            encode_utf8(s).len() as int,
        ),
        encode_utf8(s).len() > unmask_len ==> encode_utf8(spec_mask_string(s, unmask_len)).len()
            == 6 + unmask_len,
{
    let bytes = encode_utf8(s);
    if bytes.len() > unmask_len {
        let cut = bytes.len() - unmask_len;
        let tail = bytes.subrange(cut, bytes.len() as int);
        encode_utf8_valid_utf8(s);
        valid_utf8_split(bytes, cut);
        decode_utf8_encode_utf8(tail);
        lemma_encode_utf8_concat("******"@, decode_utf8(tail));
        reveal_strlit("******");
        assert(encode_utf8("******"@).len() == 6) by {
            reveal_with_fuel(encode_utf8, 7);
        }
    }
}

/// Backends without an endpoint are never secure.
pub proof fn lemma_local_backends_insecure(p: StorageParams)
    requires
        p is Fs || p is Hdfs || p is Memory || p is Moka || p is Redis || p is NoStorage,
    ensures
        !spec_is_secure(p),
{
}

/// Mapping the root keeps the backend, its endpoint and so whether it is
/// secure, and whether it has a root at all.
pub proof fn lemma_map_root_keeps_backend<F: Fn(&str) -> String>(p: StorageParams, q: StorageParams, f: F)
    requires
        root_mapped(p, q, f),
    ensures
        spec_is_secure(q) == spec_is_secure(p),
        (q is Fs) == (p is Fs),
        spec_root(q) is Some == spec_root(p) is Some,
{
    if spec_root(p) is Some {
        let (arg, new_root) = choose|arg: &str, new_root: String|
            arg@ == spec_root(p)->0 && #[trigger] f.ensures((arg,), new_root) && with_root(p, q, new_root);
        assert(with_root(p, q, new_root));
    }
}

/// Mapping the root replaces exactly the root: where the backend has one,
/// the new root is what `f` returned.
pub proof fn lemma_map_root_sets_root<F: Fn(&str) -> String>(p: StorageParams, q: StorageParams, f: F)
    requires
        root_mapped(p, q, f),
        spec_root(p) is Some,
    ensures
        exists|arg: &str, new_root: String|
            arg@ == spec_root(p)->0 && #[trigger] f.ensures((arg,), new_root) && spec_root(q) == Some(new_root@),
{
    let (arg, new_root) = choose|arg: &str, new_root: String|
        arg@ == spec_root(p)->0 && #[trigger] f.ensures((arg,), new_root) && with_root(p, q, new_root);
    assert(with_root(p, q, new_root));
    assert(spec_root(q) == Some(new_root@));
}

} // verus!

verus! {

/// Masking is idempotent: masking a masked string with the same length gives
/// it back unchanged, and the second cut never falls inside a character.
pub proof fn lemma_mask_string_idempotent(s: Seq<char>, unmask_len: nat)
    requires
        mask_cut_on_boundary(s, unmask_len),
    ensures
        mask_cut_on_boundary(spec_mask_string(s, unmask_len), unmask_len),
        spec_mask_string(spec_mask_string(s, unmask_len), unmask_len) == spec_mask_string(s, unmask_len),
{
    let bytes = encode_utf8(s);
    if bytes.len() > unmask_len {
        let cut = bytes.len() - unmask_len;
        let tail = bytes.subrange(cut, bytes.len() as int);
        let t = decode_utf8(tail);
        let stars = "******"@;
        let m = stars + t;
        encode_utf8_valid_utf8(s);
        valid_utf8_split(bytes, cut);
        decode_utf8_encode_utf8(tail);
        lemma_encode_utf8_concat(stars, t);
        reveal_strlit("******");
        assert(encode_utf8(stars).len() == 6) by {
            reveal_with_fuel(encode_utf8, 7);
        }
        let mb = encode_utf8(m);
        assert(mb == encode_utf8(stars) + tail);
        assert(mb.len() == 6 + unmask_len);
        encode_utf8_valid_utf8(m);
        assert(mb.len() - unmask_len == 6);
        if unmask_len == 0 {
            is_char_boundary_start_end_of_seq(mb);
            assert(is_char_boundary(mb, mb.len() as int));
        } else {
            is_char_boundary_start_end_of_seq(tail);
            is_char_boundary_iff_not_is_continuation_byte(tail, 0);
            assert(mb[6] == tail[0]);
            is_char_boundary_iff_not_is_continuation_byte(mb, 6);
        }
        assert(mb.subrange(6, mb.len() as int) =~= tail);
        assert(spec_mask_string(m, unmask_len) == stars + decode_utf8(tail));
    }
}

} // verus!

verus! {

/// The root string of the backends that have one.
pub open spec fn root_string(p: StorageParams) -> Option<String> {
    match p {
        StorageParams::Azblob(v) => Some(v.root),
        StorageParams::Fs(v) => Some(v.root),
        StorageParams::Ftp(v) => Some(v.root),
        StorageParams::Gcs(v) => Some(v.root),
        StorageParams::Hdfs(v) => Some(v.root),
        StorageParams::Ipfs(v) => Some(v.root),
        StorageParams::Obs(v) => Some(v.root),
        StorageParams::Oss(v) => Some(v.root),
        StorageParams::S3(v) => Some(v.root),
        StorageParams::Redis(v) => Some(v.root),
        StorageParams::Webhdfs(v) => Some(v.root),
        _ => None,
    }
}

/// `f` behaves as a function of the text of its argument: two calls on the
/// same text return the same text.
pub open spec fn acts_as_function<F: Fn(&str) -> String>(f: F) -> bool {
    forall|a1: &str, a2: &str, r1: String, r2: String|
        a1@ == a2@ && #[trigger] f.ensures((a1,), r1) && #[trigger] f.ensures((a2,), r2) ==> r1@ == r2@
}

/// `h` is `g` after `f`: whatever `h` returns for an argument, `g` returns for
/// what `f` returned for it.
pub open spec fn composes<F: Fn(&str) -> String, G: Fn(&str) -> String, H: Fn(&str) -> String>(
    h: H,
    f: F,
    g: G,
) -> bool {
    forall|a: &str, r: String| #[trigger] h.ensures((a,), r) ==> exists|b: &str, mid: String|
        #![trigger f.ensures((a,), mid), g.ensures((b,), r)]
        f.ensures((a,), mid) && b@ == mid@ && g.ensures((b,), r)
}

proof fn lemma_with_root_facts(p: StorageParams, q: StorageParams, r: String)
    requires
        spec_root(p) is Some,
        with_root(p, q, r),
    ensures
        spec_root(q) == Some(r@),
        root_string(q) == Some(r),
        forall|q2: StorageParams, r2: String| #[trigger] with_root(q, q2, r2) ==> with_root(p, q2, r2),
        forall|q2: StorageParams, r2: String| #[trigger] with_root(p, q2, r2) ==> with_root(q, q2, r2),
{
}

/// Mapping the root with `f` and then with `g` is mapping it once with `g`
/// after `f`, where `f` and `g` act as functions: the two results have the
/// same root text and agree on every other field.
pub proof fn lemma_map_root_composes<F: Fn(&str) -> String, G: Fn(&str) -> String, H: Fn(&str) -> String>(
    p: StorageParams,
    q1: StorageParams,
    q2: StorageParams,
    q3: StorageParams,
    f: F,
    g: G,
    h: H,
)
    requires
        root_mapped(p, q1, f),
        root_mapped(q1, q2, g),
        root_mapped(p, q3, h),
        acts_as_function(f),
        acts_as_function(g),
        composes(h, f, g),
    ensures
        spec_root(q2) == spec_root(q3),
        match root_string(q2) {
            Some(r) => with_root(q3, q2, r),
            None => q2 == q3,
        },
{
    if spec_root(p) is Some {
        let (a1, r1) = choose|arg: &str, new_root: String|
            arg@ == spec_root(p)->0 && #[trigger] f.ensures((arg,), new_root) && with_root(p, q1, new_root);
        lemma_with_root_facts(p, q1, r1);
        let (a2, r2) = choose|arg: &str, new_root: String|
            arg@ == spec_root(q1)->0 && #[trigger] g.ensures((arg,), new_root) && with_root(q1, q2, new_root);
        lemma_with_root_facts(q1, q2, r2);
        let (a3, r3) = choose|arg: &str, new_root: String|
            arg@ == spec_root(p)->0 && #[trigger] h.ensures((arg,), new_root) && with_root(p, q3, new_root);
        lemma_with_root_facts(p, q3, r3);
        let (b, mid) = choose|b: &str, mid: String|
            #![trigger f.ensures((a3,), mid), g.ensures((b,), r3)]
            f.ensures((a3,), mid) && b@ == mid@ && g.ensures((b,), r3);
        assert(r1@ == mid@);
        assert(r2@ == r3@);
        assert(with_root(p, q2, r2));
        assert(with_root(q3, q2, r2));
    } else {
        assert(q1 == p);
        assert(spec_root(q1) is None);
    }
}

} // verus!

verus! {

/// Which backends are secure, field by field: a backend with an endpoint URL
/// is secure exactly when that URL starts with `https://` (FTP: when its
/// endpoint starts with `ftps://`), whatever its other fields hold; the
/// backends without an endpoint never are.
pub proof fn lemma_is_secure_reads_only_the_endpoint(p: StorageParams)
    ensures
        p matches StorageParams::Azblob(v) ==> spec_is_secure(p) == "https://"@.is_prefix_of(v.endpoint_url@),
        p matches StorageParams::Ftp(v) ==> spec_is_secure(p) == "ftps://"@.is_prefix_of(v.endpoint@),
        p matches StorageParams::Gcs(v) ==> spec_is_secure(p) == "https://"@.is_prefix_of(v.endpoint_url@),
        p matches StorageParams::Http(v) ==> spec_is_secure(p) == "https://"@.is_prefix_of(v.endpoint_url@),
        p matches StorageParams::Ipfs(v) ==> spec_is_secure(p) == "https://"@.is_prefix_of(v.endpoint_url@),
        p matches StorageParams::Obs(v) ==> spec_is_secure(p) == "https://"@.is_prefix_of(v.endpoint_url@),
        p matches StorageParams::Oss(v) ==> spec_is_secure(p) == "https://"@.is_prefix_of(v.endpoint_url@),
        p matches StorageParams::S3(v) ==> spec_is_secure(p) == "https://"@.is_prefix_of(v.endpoint_url@),
        p matches StorageParams::Webhdfs(v) ==> spec_is_secure(p) == "https://"@.is_prefix_of(v.endpoint_url@),
        (p is Fs || p is Hdfs || p is Memory || p is Moka || p is Redis || p is NoStorage) ==> !spec_is_secure(p),
{
}

/// Two Oss configs with the same endpoint URL are equally secure, whatever
/// their presign endpoint, bucket, keys and root.
pub proof fn lemma_oss_security_ignores_other_fields(v: StorageOssConfig, w: StorageOssConfig)
    requires
        v.endpoint_url@ == w.endpoint_url@,
    ensures
        spec_is_secure(StorageParams::Oss(v)) == spec_is_secure(StorageParams::Oss(w)),
{
}

/// What `map_root` gives, backend by backend: every backend with a root field
/// comes back as the same backend, every other field unchanged, with the root
/// replaced by what `f` returned for the old root; Http, Memory, Moka and
/// NoStorage come back unchanged.
pub proof fn lemma_map_root_by_backend<F: Fn(&str) -> String>(p: StorageParams, q: StorageParams, f: F)
    requires
        root_mapped(p, q, f),
    ensures
        p matches StorageParams::Azblob(v) ==> exists|a: &str, r: String|
            a@ == v.root@ && #[trigger] f.ensures((a,), r)
                && q == StorageParams::Azblob(StorageAzblobConfig { root: r, ..v }),
        p matches StorageParams::Fs(v) ==> exists|a: &str, r: String|
            a@ == v.root@ && #[trigger] f.ensures((a,), r)
                && q == StorageParams::Fs(StorageFsConfig { root: r, ..v }),
        p matches StorageParams::Ftp(v) ==> exists|a: &str, r: String|
            a@ == v.root@ && #[trigger] f.ensures((a,), r)
                && q == StorageParams::Ftp(StorageFtpConfig { root: r, ..v }),
        p matches StorageParams::Gcs(v) ==> exists|a: &str, r: String|
            a@ == v.root@ && #[trigger] f.ensures((a,), r)
                && q == StorageParams::Gcs(StorageGcsConfig { root: r, ..v }),
        p matches StorageParams::Hdfs(v) ==> exists|a: &str, r: String|
            a@ == v.root@ && #[trigger] f.ensures((a,), r)
                && q == StorageParams::Hdfs(StorageHdfsConfig { root: r, ..v }),
        p matches StorageParams::Ipfs(v) ==> exists|a: &str, r: String|
            a@ == v.root@ && #[trigger] f.ensures((a,), r)
                && q == StorageParams::Ipfs(StorageIpfsConfig { root: r, ..v }),
        p matches StorageParams::Obs(v) ==> exists|a: &str, r: String|
            a@ == v.root@ && #[trigger] f.ensures((a,), r)
                && q == StorageParams::Obs(StorageObsConfig { root: r, ..v }),
        p matches StorageParams::Oss(v) ==> exists|a: &str, r: String|
            a@ == v.root@ && #[trigger] f.ensures((a,), r)
                && q == StorageParams::Oss(StorageOssConfig { root: r, ..v }),
        p matches StorageParams::S3(v) ==> exists|a: &str, r: String|
            a@ == v.root@ && #[trigger] f.ensures((a,), r)
                && q == StorageParams::S3(StorageS3Config { root: r, ..v }),
        p matches StorageParams::Redis(v) ==> exists|a: &str, r: String|
            a@ == v.root@ && #[trigger] f.ensures((a,), r)
                && q == StorageParams::Redis(StorageRedisConfig { root: r, ..v }),
        p matches StorageParams::Webhdfs(v) ==> exists|a: &str, r: String|
            a@ == v.root@ && #[trigger] f.ensures((a,), r)
                && q == StorageParams::Webhdfs(StorageWebhdfsConfig { root: r, ..v }),
        (p is Http || p is Memory || p is Moka || p is NoStorage) ==> q == p,
{
    if spec_root(p) is Some {
        let (a, r) = choose|arg: &str, new_root: String|
            arg@ == spec_root(p)->0 && #[trigger] f.ensures((arg,), new_root) && with_root(p, q, new_root);
        assert(f.ensures((a,), r));
    }
}

} // verus!
