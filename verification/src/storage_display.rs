use vstd::prelude::*;

use crate::storage_params::{
    StorageAzblobConfig, StorageFsConfig, StorageFtpConfig, StorageGcsConfig, StorageHdfsConfig,
    StorageHttpConfig, StorageIpfsConfig, StorageMokaConfig, StorageObsConfig, StorageOssConfig,
    StorageParams, StorageRedisConfig, StorageS3Config, StorageWebhdfsConfig,
};
use crate::text::{
    debug_string_list, i64_decimal, int_decimal, nat_decimal, string_list_debug_text,
    string_views, u64_decimal, lemma_shows, shows,
};

verus! {

/// How storage params are displayed: `{protocol}://{key1=value1},{key2=value2}`;
/// the backends without keys show their protocol alone.
pub open spec fn spec_display(p: StorageParams) -> Seq<char> {
    match p {
        StorageParams::Azblob(v) => "azblob://container="@ + v.container@ + ",root="@ + v.root@
            + ",endpoint="@ + v.endpoint_url@,
        StorageParams::Fs(v) => "fs://root="@ + v.root@,
        StorageParams::Ftp(v) => "ftp://root="@ + v.root@ + ",endpoint="@ + v.endpoint@,
        StorageParams::Gcs(v) => "gcs://bucket="@ + v.bucket@ + ",root="@ + v.root@
            + ",endpoint="@ + v.endpoint_url@,
        StorageParams::Hdfs(v) => "hdfs://root="@ + v.root@ + ",name_node="@ + v.name_node@,
        StorageParams::Http(v) => "http://endpoint="@ + v.endpoint_url@ + ",paths="@
            + string_list_debug_text(string_views(v.paths@)),
        StorageParams::Ipfs(v) => "ipfs://endpoint="@ + v.endpoint_url@ + ",root="@ + v.root@,
        StorageParams::Memory => "memory"@,
        StorageParams::Moka(v) => "moka://max_capacity="@ + nat_decimal(v.max_capacity as nat),
        StorageParams::Obs(v) => "obs://bucket="@ + v.bucket@ + ",root="@ + v.root@
            + ",endpoint="@ + v.endpoint_url@,
        StorageParams::Oss(v) => "oss://bucket="@ + v.bucket@ + ",root="@ + v.root@
            + ",endpoint="@ + v.endpoint_url@,
        StorageParams::S3(v) => "s3://bucket="@ + v.bucket@ + ",root="@ + v.root@
            + ",endpoint="@ + v.endpoint_url@,
        StorageParams::Redis(v) => "redis://db="@ + int_decimal(v.db as int) + ",root="@ + v.root@
            + ",endpoint="@ + v.endpoint_url@,
        StorageParams::Webhdfs(v) => "webhdfs://root="@ + v.root@ + ",endpoint="@
            + v.endpoint_url@,
        StorageParams::NoStorage => "none"@,
    }
}

impl StorageParams {
    /// The text that displays these storage params (see [`spec_display`]).
    pub fn to_display_string(&self) -> (r: String)
        ensures
            r@ == spec_display(*self),
    {
        let mut out = String::new();
        match self {
            StorageParams::Azblob(v) => {
                out.append("azblob://container=");
                out.append(v.container.as_str());
                out.append(",root=");
                out.append(v.root.as_str());
                out.append(",endpoint=");
                out.append(v.endpoint_url.as_str());
            },
            StorageParams::Fs(v) => {
                out.append("fs://root=");
                out.append(v.root.as_str());
            },
            StorageParams::Ftp(v) => {
                out.append("ftp://root=");
                out.append(v.root.as_str());
                out.append(",endpoint=");
                out.append(v.endpoint.as_str());
            },
            StorageParams::Gcs(v) => {
                out.append("gcs://bucket=");
                out.append(v.bucket.as_str());
                out.append(",root=");
                out.append(v.root.as_str());
                out.append(",endpoint=");
                out.append(v.endpoint_url.as_str());
            },
            StorageParams::Hdfs(v) => {
                out.append("hdfs://root=");
                out.append(v.root.as_str());
                out.append(",name_node=");
                out.append(v.name_node.as_str());
            },
            StorageParams::Http(v) => {
                out.append("http://endpoint=");
                out.append(v.endpoint_url.as_str());
                out.append(",paths=");
                let paths = debug_string_list(&v.paths);
                out.append(paths.as_str());
            },
            StorageParams::Ipfs(c) => {
                out.append("ipfs://endpoint=");
                out.append(c.endpoint_url.as_str());
                out.append(",root=");
                out.append(c.root.as_str());
            },
            StorageParams::Memory => {
                out.append("memory");
            },
            StorageParams::Moka(v) => {
                out.append("moka://max_capacity=");
                let cap = u64_decimal(v.max_capacity);
                out.append(cap.as_str());
            },
            StorageParams::Obs(v) => {
                out.append("obs://bucket=");
                out.append(v.bucket.as_str());
                out.append(",root=");
                out.append(v.root.as_str());
                out.append(",endpoint=");
                out.append(v.endpoint_url.as_str());
            },
            StorageParams::Oss(v) => {
                out.append("oss://bucket=");
                out.append(v.bucket.as_str());
                out.append(",root=");
                out.append(v.root.as_str());
                out.append(",endpoint=");
                out.append(v.endpoint_url.as_str());
            },
            StorageParams::S3(v) => {
                out.append("s3://bucket=");
                out.append(v.bucket.as_str());
                out.append(",root=");
                out.append(v.root.as_str());
                out.append(",endpoint=");
                out.append(v.endpoint_url.as_str());
            },
            StorageParams::Redis(v) => {
                out.append("redis://db=");
                let db = i64_decimal(v.db);
                out.append(db.as_str());
                out.append(",root=");
                out.append(v.root.as_str());
                out.append(",endpoint=");
                out.append(v.endpoint_url.as_str());
            },
            StorageParams::Webhdfs(v) => {
                out.append("webhdfs://root=");
                out.append(v.root.as_str());
                out.append(",endpoint=");
                out.append(v.endpoint_url.as_str());
            },
            StorageParams::NoStorage => {
                out.append("none");
            },
        }
        out
    }
}

} // verus!


verus! {

/// Azblob params display as `azblob://` followed by their `container`, `root`, `endpoint`, each as
/// `key=value`, separated by commas, and nothing else.
pub proof fn lemma_display_azblob(v: StorageAzblobConfig)
    ensures
        "azblob://"@.is_prefix_of(spec_display(StorageParams::Azblob(v))),
        shows(spec_display(StorageParams::Azblob(v)), "container="@ + v.container@),
        shows(spec_display(StorageParams::Azblob(v)), "root="@ + v.root@),
        shows(spec_display(StorageParams::Azblob(v)), "endpoint="@ + v.endpoint_url@),
        spec_display(StorageParams::Azblob(v)).len() == "azblob://"@.len() + "container="@.len() + (v.container@).len() + "root="@.len() + (v.root@).len() + "endpoint="@.len() + (v.endpoint_url@).len() + 2,
{
    let text = spec_display(StorageParams::Azblob(v));
    reveal_strlit("azblob://");
    reveal_strlit(",");
    reveal_strlit(",endpoint=");
    reveal_strlit(",root=");
    reveal_strlit("azblob://container=");
    reveal_strlit("container=");
    reveal_strlit("endpoint=");
    reveal_strlit("root=");
    assert(text =~= "azblob://container="@ + v.container@ + ",root="@ + v.root@ + ",endpoint="@ + v.endpoint_url@);
    assert(text =~= "azblob://"@ + ("container="@ + v.container@ + ",root="@ + v.root@ + ",endpoint="@ + v.endpoint_url@));
    lemma_prefix("azblob://"@, "container="@ + v.container@ + ",root="@ + v.root@ + ",endpoint="@ + v.endpoint_url@);
    assert(text =~= ("azblob://"@) + ("container="@ + v.container@) + (Seq::<char>::empty() + ",root="@ + v.root@ + ",endpoint="@ + v.endpoint_url@));
    lemma_shows("azblob://"@, "container="@ + v.container@, Seq::<char>::empty() + ",root="@ + v.root@ + ",endpoint="@ + v.endpoint_url@);
    assert(text =~= ("azblob://"@ + "container="@ + v.container@ + ","@) + ("root="@ + v.root@) + (Seq::<char>::empty() + ",endpoint="@ + v.endpoint_url@));
    lemma_shows("azblob://"@ + "container="@ + v.container@ + ","@, "root="@ + v.root@, Seq::<char>::empty() + ",endpoint="@ + v.endpoint_url@);
    assert(text =~= ("azblob://"@ + "container="@ + v.container@ + ","@ + "root="@ + v.root@ + ","@) + ("endpoint="@ + v.endpoint_url@) + (Seq::<char>::empty()));
    lemma_shows("azblob://"@ + "container="@ + v.container@ + ","@ + "root="@ + v.root@ + ","@, "endpoint="@ + v.endpoint_url@, Seq::<char>::empty());
}

/// Fs params display as `fs://` followed by their `root`, each as
/// `key=value`, separated by commas, and nothing else.
pub proof fn lemma_display_fs(v: StorageFsConfig)
    ensures
        "fs://"@.is_prefix_of(spec_display(StorageParams::Fs(v))),
        shows(spec_display(StorageParams::Fs(v)), "root="@ + v.root@),
        spec_display(StorageParams::Fs(v)).len() == "fs://"@.len() + "root="@.len() + (v.root@).len(),
{
    let text = spec_display(StorageParams::Fs(v));
    reveal_strlit("fs://");
    reveal_strlit(",");
    reveal_strlit("fs://root=");
    reveal_strlit("root=");
    assert(text =~= "fs://root="@ + v.root@);
    assert(text =~= "fs://"@ + ("root="@ + v.root@));
    lemma_prefix("fs://"@, "root="@ + v.root@);
    assert(text =~= ("fs://"@) + ("root="@ + v.root@) + (Seq::<char>::empty()));
    lemma_shows("fs://"@, "root="@ + v.root@, Seq::<char>::empty());
}

/// Ftp params display as `ftp://` followed by their `root`, `endpoint`, each as
/// `key=value`, separated by commas, and nothing else.
pub proof fn lemma_display_ftp(v: StorageFtpConfig)
    ensures
        "ftp://"@.is_prefix_of(spec_display(StorageParams::Ftp(v))),
        shows(spec_display(StorageParams::Ftp(v)), "root="@ + v.root@),
        shows(spec_display(StorageParams::Ftp(v)), "endpoint="@ + v.endpoint@),
        spec_display(StorageParams::Ftp(v)).len() == "ftp://"@.len() + "root="@.len() + (v.root@).len() + "endpoint="@.len() + (v.endpoint@).len() + 1,
{
    let text = spec_display(StorageParams::Ftp(v));
    reveal_strlit("ftp://");
    reveal_strlit(",");
    reveal_strlit(",endpoint=");
    reveal_strlit("endpoint=");
    reveal_strlit("ftp://root=");
    reveal_strlit("root=");
    assert(text =~= "ftp://root="@ + v.root@ + ",endpoint="@ + v.endpoint@);
    assert(text =~= "ftp://"@ + ("root="@ + v.root@ + ",endpoint="@ + v.endpoint@));
    lemma_prefix("ftp://"@, "root="@ + v.root@ + ",endpoint="@ + v.endpoint@);
    assert(text =~= ("ftp://"@) + ("root="@ + v.root@) + (Seq::<char>::empty() + ",endpoint="@ + v.endpoint@));
    lemma_shows("ftp://"@, "root="@ + v.root@, Seq::<char>::empty() + ",endpoint="@ + v.endpoint@);
    assert(text =~= ("ftp://"@ + "root="@ + v.root@ + ","@) + ("endpoint="@ + v.endpoint@) + (Seq::<char>::empty()));
    lemma_shows("ftp://"@ + "root="@ + v.root@ + ","@, "endpoint="@ + v.endpoint@, Seq::<char>::empty());
}

/// Gcs params display as `gcs://` followed by their `bucket`, `root`, `endpoint`, each as
/// `key=value`, separated by commas, and nothing else.
pub proof fn lemma_display_gcs(v: StorageGcsConfig)
    ensures
        "gcs://"@.is_prefix_of(spec_display(StorageParams::Gcs(v))),
        shows(spec_display(StorageParams::Gcs(v)), "bucket="@ + v.bucket@),
        shows(spec_display(StorageParams::Gcs(v)), "root="@ + v.root@),
        shows(spec_display(StorageParams::Gcs(v)), "endpoint="@ + v.endpoint_url@),
        spec_display(StorageParams::Gcs(v)).len() == "gcs://"@.len() + "bucket="@.len() + (v.bucket@).len() + "root="@.len() + (v.root@).len() + "endpoint="@.len() + (v.endpoint_url@).len() + 2,
{
    let text = spec_display(StorageParams::Gcs(v));
    reveal_strlit("gcs://");
    reveal_strlit(",");
    reveal_strlit(",endpoint=");
    reveal_strlit(",root=");
    reveal_strlit("bucket=");
    reveal_strlit("endpoint=");
    reveal_strlit("gcs://bucket=");
    reveal_strlit("root=");
    assert(text =~= "gcs://bucket="@ + v.bucket@ + ",root="@ + v.root@ + ",endpoint="@ + v.endpoint_url@);
    assert(text =~= "gcs://"@ + ("bucket="@ + v.bucket@ + ",root="@ + v.root@ + ",endpoint="@ + v.endpoint_url@));
    lemma_prefix("gcs://"@, "bucket="@ + v.bucket@ + ",root="@ + v.root@ + ",endpoint="@ + v.endpoint_url@);
    assert(text =~= ("gcs://"@) + ("bucket="@ + v.bucket@) + (Seq::<char>::empty() + ",root="@ + v.root@ + ",endpoint="@ + v.endpoint_url@));
    lemma_shows("gcs://"@, "bucket="@ + v.bucket@, Seq::<char>::empty() + ",root="@ + v.root@ + ",endpoint="@ + v.endpoint_url@);
    assert(text =~= ("gcs://"@ + "bucket="@ + v.bucket@ + ","@) + ("root="@ + v.root@) + (Seq::<char>::empty() + ",endpoint="@ + v.endpoint_url@));
    lemma_shows("gcs://"@ + "bucket="@ + v.bucket@ + ","@, "root="@ + v.root@, Seq::<char>::empty() + ",endpoint="@ + v.endpoint_url@);
    assert(text =~= ("gcs://"@ + "bucket="@ + v.bucket@ + ","@ + "root="@ + v.root@ + ","@) + ("endpoint="@ + v.endpoint_url@) + (Seq::<char>::empty()));
    lemma_shows("gcs://"@ + "bucket="@ + v.bucket@ + ","@ + "root="@ + v.root@ + ","@, "endpoint="@ + v.endpoint_url@, Seq::<char>::empty());
}

/// Hdfs params display as `hdfs://` followed by their `root`, `name_node`, each as
/// `key=value`, separated by commas, and nothing else.
pub proof fn lemma_display_hdfs(v: StorageHdfsConfig)
    ensures
        "hdfs://"@.is_prefix_of(spec_display(StorageParams::Hdfs(v))),
        shows(spec_display(StorageParams::Hdfs(v)), "root="@ + v.root@),
        shows(spec_display(StorageParams::Hdfs(v)), "name_node="@ + v.name_node@),
        spec_display(StorageParams::Hdfs(v)).len() == "hdfs://"@.len() + "root="@.len() + (v.root@).len() + "name_node="@.len() + (v.name_node@).len() + 1,
{
    let text = spec_display(StorageParams::Hdfs(v));
    reveal_strlit("hdfs://");
    reveal_strlit(",");
    reveal_strlit(",name_node=");
    reveal_strlit("hdfs://root=");
    reveal_strlit("name_node=");
    reveal_strlit("root=");
    assert(text =~= "hdfs://root="@ + v.root@ + ",name_node="@ + v.name_node@);
    assert(text =~= "hdfs://"@ + ("root="@ + v.root@ + ",name_node="@ + v.name_node@));
    lemma_prefix("hdfs://"@, "root="@ + v.root@ + ",name_node="@ + v.name_node@);
    assert(text =~= ("hdfs://"@) + ("root="@ + v.root@) + (Seq::<char>::empty() + ",name_node="@ + v.name_node@));
    lemma_shows("hdfs://"@, "root="@ + v.root@, Seq::<char>::empty() + ",name_node="@ + v.name_node@);
    assert(text =~= ("hdfs://"@ + "root="@ + v.root@ + ","@) + ("name_node="@ + v.name_node@) + (Seq::<char>::empty()));
    lemma_shows("hdfs://"@ + "root="@ + v.root@ + ","@, "name_node="@ + v.name_node@, Seq::<char>::empty());
}

/// Http params display as `http://` followed by their `endpoint`, `paths`, each as
/// `key=value`, separated by commas, and nothing else.
pub proof fn lemma_display_http(v: StorageHttpConfig)
    ensures
        "http://"@.is_prefix_of(spec_display(StorageParams::Http(v))),
        shows(spec_display(StorageParams::Http(v)), "endpoint="@ + v.endpoint_url@),
        shows(spec_display(StorageParams::Http(v)), "paths="@ + string_list_debug_text(string_views(v.paths@))),
        spec_display(StorageParams::Http(v)).len() == "http://"@.len() + "endpoint="@.len() + (v.endpoint_url@).len() + "paths="@.len() + (string_list_debug_text(string_views(v.paths@))).len() + 1,
{
    let text = spec_display(StorageParams::Http(v));
    reveal_strlit("http://");
    reveal_strlit(",");
    reveal_strlit(",paths=");
    reveal_strlit("endpoint=");
    reveal_strlit("http://endpoint=");
    reveal_strlit("paths=");
    assert(text =~= "http://endpoint="@ + v.endpoint_url@ + ",paths="@ + string_list_debug_text(string_views(v.paths@)));
    assert(text =~= "http://"@ + ("endpoint="@ + v.endpoint_url@ + ",paths="@ + string_list_debug_text(string_views(v.paths@))));
    lemma_prefix("http://"@, "endpoint="@ + v.endpoint_url@ + ",paths="@ + string_list_debug_text(string_views(v.paths@)));
    assert(text =~= ("http://"@) + ("endpoint="@ + v.endpoint_url@) + (Seq::<char>::empty() + ",paths="@ + string_list_debug_text(string_views(v.paths@))));
    lemma_shows("http://"@, "endpoint="@ + v.endpoint_url@, Seq::<char>::empty() + ",paths="@ + string_list_debug_text(string_views(v.paths@)));
    assert(text =~= ("http://"@ + "endpoint="@ + v.endpoint_url@ + ","@) + ("paths="@ + string_list_debug_text(string_views(v.paths@))) + (Seq::<char>::empty()));
    lemma_shows("http://"@ + "endpoint="@ + v.endpoint_url@ + ","@, "paths="@ + string_list_debug_text(string_views(v.paths@)), Seq::<char>::empty());
}

/// Ipfs params display as `ipfs://` followed by their `endpoint`, `root`, each as
/// `key=value`, separated by commas, and nothing else.
pub proof fn lemma_display_ipfs(v: StorageIpfsConfig)
    ensures
        "ipfs://"@.is_prefix_of(spec_display(StorageParams::Ipfs(v))),
        shows(spec_display(StorageParams::Ipfs(v)), "endpoint="@ + v.endpoint_url@),
        shows(spec_display(StorageParams::Ipfs(v)), "root="@ + v.root@),
        spec_display(StorageParams::Ipfs(v)).len() == "ipfs://"@.len() + "endpoint="@.len() + (v.endpoint_url@).len() + "root="@.len() + (v.root@).len() + 1,
{
    let text = spec_display(StorageParams::Ipfs(v));
    reveal_strlit("ipfs://");
    reveal_strlit(",");
    reveal_strlit(",root=");
    reveal_strlit("endpoint=");
    reveal_strlit("ipfs://endpoint=");
    reveal_strlit("root=");
    assert(text =~= "ipfs://endpoint="@ + v.endpoint_url@ + ",root="@ + v.root@);
    assert(text =~= "ipfs://"@ + ("endpoint="@ + v.endpoint_url@ + ",root="@ + v.root@));
    lemma_prefix("ipfs://"@, "endpoint="@ + v.endpoint_url@ + ",root="@ + v.root@);
    assert(text =~= ("ipfs://"@) + ("endpoint="@ + v.endpoint_url@) + (Seq::<char>::empty() + ",root="@ + v.root@));
    lemma_shows("ipfs://"@, "endpoint="@ + v.endpoint_url@, Seq::<char>::empty() + ",root="@ + v.root@);
    assert(text =~= ("ipfs://"@ + "endpoint="@ + v.endpoint_url@ + ","@) + ("root="@ + v.root@) + (Seq::<char>::empty()));
    lemma_shows("ipfs://"@ + "endpoint="@ + v.endpoint_url@ + ","@, "root="@ + v.root@, Seq::<char>::empty());
}

/// Moka params display as `moka://` followed by their `max_capacity`, each as
/// `key=value`, separated by commas, and nothing else.
pub proof fn lemma_display_moka(v: StorageMokaConfig)
    ensures
        "moka://"@.is_prefix_of(spec_display(StorageParams::Moka(v))),
        shows(spec_display(StorageParams::Moka(v)), "max_capacity="@ + nat_decimal(v.max_capacity as nat)),
        spec_display(StorageParams::Moka(v)).len() == "moka://"@.len() + "max_capacity="@.len() + (nat_decimal(v.max_capacity as nat)).len(),
{
    let text = spec_display(StorageParams::Moka(v));
    reveal_strlit("moka://");
    reveal_strlit(",");
    reveal_strlit("max_capacity=");
    reveal_strlit("moka://max_capacity=");
    assert(text =~= "moka://max_capacity="@ + nat_decimal(v.max_capacity as nat));
    assert(text =~= "moka://"@ + ("max_capacity="@ + nat_decimal(v.max_capacity as nat)));
    lemma_prefix("moka://"@, "max_capacity="@ + nat_decimal(v.max_capacity as nat));
    assert(text =~= ("moka://"@) + ("max_capacity="@ + nat_decimal(v.max_capacity as nat)) + (Seq::<char>::empty()));
    lemma_shows("moka://"@, "max_capacity="@ + nat_decimal(v.max_capacity as nat), Seq::<char>::empty());
}

/// Obs params display as `obs://` followed by their `bucket`, `root`, `endpoint`, each as
/// `key=value`, separated by commas, and nothing else.
pub proof fn lemma_display_obs(v: StorageObsConfig)
    ensures
        "obs://"@.is_prefix_of(spec_display(StorageParams::Obs(v))),
        shows(spec_display(StorageParams::Obs(v)), "bucket="@ + v.bucket@),
        shows(spec_display(StorageParams::Obs(v)), "root="@ + v.root@),
        shows(spec_display(StorageParams::Obs(v)), "endpoint="@ + v.endpoint_url@),
        spec_display(StorageParams::Obs(v)).len() == "obs://"@.len() + "bucket="@.len() + (v.bucket@).len() + "root="@.len() + (v.root@).len() + "endpoint="@.len() + (v.endpoint_url@).len() + 2,
{
    let text = spec_display(StorageParams::Obs(v));
    reveal_strlit("obs://");
    reveal_strlit(",");
    reveal_strlit(",endpoint=");
    reveal_strlit(",root=");
    reveal_strlit("bucket=");
    reveal_strlit("endpoint=");
    reveal_strlit("obs://bucket=");
    reveal_strlit("root=");
    assert(text =~= "obs://bucket="@ + v.bucket@ + ",root="@ + v.root@ + ",endpoint="@ + v.endpoint_url@);
    assert(text =~= "obs://"@ + ("bucket="@ + v.bucket@ + ",root="@ + v.root@ + ",endpoint="@ + v.endpoint_url@));
    lemma_prefix("obs://"@, "bucket="@ + v.bucket@ + ",root="@ + v.root@ + ",endpoint="@ + v.endpoint_url@);
    assert(text =~= ("obs://"@) + ("bucket="@ + v.bucket@) + (Seq::<char>::empty() + ",root="@ + v.root@ + ",endpoint="@ + v.endpoint_url@));
    lemma_shows("obs://"@, "bucket="@ + v.bucket@, Seq::<char>::empty() + ",root="@ + v.root@ + ",endpoint="@ + v.endpoint_url@);
    assert(text =~= ("obs://"@ + "bucket="@ + v.bucket@ + ","@) + ("root="@ + v.root@) + (Seq::<char>::empty() + ",endpoint="@ + v.endpoint_url@));
    lemma_shows("obs://"@ + "bucket="@ + v.bucket@ + ","@, "root="@ + v.root@, Seq::<char>::empty() + ",endpoint="@ + v.endpoint_url@);
    assert(text =~= ("obs://"@ + "bucket="@ + v.bucket@ + ","@ + "root="@ + v.root@ + ","@) + ("endpoint="@ + v.endpoint_url@) + (Seq::<char>::empty()));
    lemma_shows("obs://"@ + "bucket="@ + v.bucket@ + ","@ + "root="@ + v.root@ + ","@, "endpoint="@ + v.endpoint_url@, Seq::<char>::empty());
}

/// Oss params display as `oss://` followed by their `bucket`, `root`, `endpoint`, each as
/// `key=value`, separated by commas, and nothing else.
pub proof fn lemma_display_oss(v: StorageOssConfig)
    ensures
        "oss://"@.is_prefix_of(spec_display(StorageParams::Oss(v))),
        shows(spec_display(StorageParams::Oss(v)), "bucket="@ + v.bucket@),
        shows(spec_display(StorageParams::Oss(v)), "root="@ + v.root@),
        shows(spec_display(StorageParams::Oss(v)), "endpoint="@ + v.endpoint_url@),
        spec_display(StorageParams::Oss(v)).len() == "oss://"@.len() + "bucket="@.len() + (v.bucket@).len() + "root="@.len() + (v.root@).len() + "endpoint="@.len() + (v.endpoint_url@).len() + 2,
{
    let text = spec_display(StorageParams::Oss(v));
    reveal_strlit("oss://");
    reveal_strlit(",");
    reveal_strlit(",endpoint=");
    reveal_strlit(",root=");
    reveal_strlit("bucket=");
    reveal_strlit("endpoint=");
    reveal_strlit("oss://bucket=");
    reveal_strlit("root=");
    assert(text =~= "oss://bucket="@ + v.bucket@ + ",root="@ + v.root@ + ",endpoint="@ + v.endpoint_url@);
    assert(text =~= "oss://"@ + ("bucket="@ + v.bucket@ + ",root="@ + v.root@ + ",endpoint="@ + v.endpoint_url@));
    lemma_prefix("oss://"@, "bucket="@ + v.bucket@ + ",root="@ + v.root@ + ",endpoint="@ + v.endpoint_url@);
    assert(text =~= ("oss://"@) + ("bucket="@ + v.bucket@) + (Seq::<char>::empty() + ",root="@ + v.root@ + ",endpoint="@ + v.endpoint_url@));
    lemma_shows("oss://"@, "bucket="@ + v.bucket@, Seq::<char>::empty() + ",root="@ + v.root@ + ",endpoint="@ + v.endpoint_url@);
    assert(text =~= ("oss://"@ + "bucket="@ + v.bucket@ + ","@) + ("root="@ + v.root@) + (Seq::<char>::empty() + ",endpoint="@ + v.endpoint_url@));
    lemma_shows("oss://"@ + "bucket="@ + v.bucket@ + ","@, "root="@ + v.root@, Seq::<char>::empty() + ",endpoint="@ + v.endpoint_url@);
    assert(text =~= ("oss://"@ + "bucket="@ + v.bucket@ + ","@ + "root="@ + v.root@ + ","@) + ("endpoint="@ + v.endpoint_url@) + (Seq::<char>::empty()));
    lemma_shows("oss://"@ + "bucket="@ + v.bucket@ + ","@ + "root="@ + v.root@ + ","@, "endpoint="@ + v.endpoint_url@, Seq::<char>::empty());
}

/// S3 params display as `s3://` followed by their `bucket`, `root`, `endpoint`, each as
/// `key=value`, separated by commas, and nothing else.
pub proof fn lemma_display_s3(v: StorageS3Config)
    ensures
        "s3://"@.is_prefix_of(spec_display(StorageParams::S3(v))),
        shows(spec_display(StorageParams::S3(v)), "bucket="@ + v.bucket@),
        shows(spec_display(StorageParams::S3(v)), "root="@ + v.root@),
        shows(spec_display(StorageParams::S3(v)), "endpoint="@ + v.endpoint_url@),
        spec_display(StorageParams::S3(v)).len() == "s3://"@.len() + "bucket="@.len() + (v.bucket@).len() + "root="@.len() + (v.root@).len() + "endpoint="@.len() + (v.endpoint_url@).len() + 2,
{
    let text = spec_display(StorageParams::S3(v));
    reveal_strlit("s3://");
    reveal_strlit(",");
    reveal_strlit(",endpoint=");
    reveal_strlit(",root=");
    reveal_strlit("bucket=");
    reveal_strlit("endpoint=");
    reveal_strlit("root=");
    reveal_strlit("s3://bucket=");
    assert(text =~= "s3://bucket="@ + v.bucket@ + ",root="@ + v.root@ + ",endpoint="@ + v.endpoint_url@);
    assert(text =~= "s3://"@ + ("bucket="@ + v.bucket@ + ",root="@ + v.root@ + ",endpoint="@ + v.endpoint_url@));
    lemma_prefix("s3://"@, "bucket="@ + v.bucket@ + ",root="@ + v.root@ + ",endpoint="@ + v.endpoint_url@);
    assert(text =~= ("s3://"@) + ("bucket="@ + v.bucket@) + (Seq::<char>::empty() + ",root="@ + v.root@ + ",endpoint="@ + v.endpoint_url@));
    lemma_shows("s3://"@, "bucket="@ + v.bucket@, Seq::<char>::empty() + ",root="@ + v.root@ + ",endpoint="@ + v.endpoint_url@);
    assert(text =~= ("s3://"@ + "bucket="@ + v.bucket@ + ","@) + ("root="@ + v.root@) + (Seq::<char>::empty() + ",endpoint="@ + v.endpoint_url@));
    lemma_shows("s3://"@ + "bucket="@ + v.bucket@ + ","@, "root="@ + v.root@, Seq::<char>::empty() + ",endpoint="@ + v.endpoint_url@);
    assert(text =~= ("s3://"@ + "bucket="@ + v.bucket@ + ","@ + "root="@ + v.root@ + ","@) + ("endpoint="@ + v.endpoint_url@) + (Seq::<char>::empty()));
    lemma_shows("s3://"@ + "bucket="@ + v.bucket@ + ","@ + "root="@ + v.root@ + ","@, "endpoint="@ + v.endpoint_url@, Seq::<char>::empty());
}

/// Redis params display as `redis://` followed by their `db`, `root`, `endpoint`, each as
/// `key=value`, separated by commas, and nothing else.
pub proof fn lemma_display_redis(v: StorageRedisConfig)
    ensures
        "redis://"@.is_prefix_of(spec_display(StorageParams::Redis(v))),
        shows(spec_display(StorageParams::Redis(v)), "db="@ + int_decimal(v.db as int)),
        shows(spec_display(StorageParams::Redis(v)), "root="@ + v.root@),
        shows(spec_display(StorageParams::Redis(v)), "endpoint="@ + v.endpoint_url@),
        spec_display(StorageParams::Redis(v)).len() == "redis://"@.len() + "db="@.len() + (int_decimal(v.db as int)).len() + "root="@.len() + (v.root@).len() + "endpoint="@.len() + (v.endpoint_url@).len() + 2,
{
    let text = spec_display(StorageParams::Redis(v));
    reveal_strlit("redis://");
    reveal_strlit(",");
    reveal_strlit(",endpoint=");
    reveal_strlit(",root=");
    reveal_strlit("db=");
    reveal_strlit("endpoint=");
    reveal_strlit("redis://db=");
    reveal_strlit("root=");
    assert(text =~= "redis://db="@ + int_decimal(v.db as int) + ",root="@ + v.root@ + ",endpoint="@ + v.endpoint_url@);
    assert(text =~= "redis://"@ + ("db="@ + int_decimal(v.db as int) + ",root="@ + v.root@ + ",endpoint="@ + v.endpoint_url@));
    lemma_prefix("redis://"@, "db="@ + int_decimal(v.db as int) + ",root="@ + v.root@ + ",endpoint="@ + v.endpoint_url@);
    assert(text =~= ("redis://"@) + ("db="@ + int_decimal(v.db as int)) + (Seq::<char>::empty() + ",root="@ + v.root@ + ",endpoint="@ + v.endpoint_url@));
    lemma_shows("redis://"@, "db="@ + int_decimal(v.db as int), Seq::<char>::empty() + ",root="@ + v.root@ + ",endpoint="@ + v.endpoint_url@);
    assert(text =~= ("redis://"@ + "db="@ + int_decimal(v.db as int) + ","@) + ("root="@ + v.root@) + (Seq::<char>::empty() + ",endpoint="@ + v.endpoint_url@));
    lemma_shows("redis://"@ + "db="@ + int_decimal(v.db as int) + ","@, "root="@ + v.root@, Seq::<char>::empty() + ",endpoint="@ + v.endpoint_url@);
    assert(text =~= ("redis://"@ + "db="@ + int_decimal(v.db as int) + ","@ + "root="@ + v.root@ + ","@) + ("endpoint="@ + v.endpoint_url@) + (Seq::<char>::empty()));
    lemma_shows("redis://"@ + "db="@ + int_decimal(v.db as int) + ","@ + "root="@ + v.root@ + ","@, "endpoint="@ + v.endpoint_url@, Seq::<char>::empty());
}

/// Webhdfs params display as `webhdfs://` followed by their `root`, `endpoint`, each as
/// `key=value`, separated by commas, and nothing else.
pub proof fn lemma_display_webhdfs(v: StorageWebhdfsConfig)
    ensures
        "webhdfs://"@.is_prefix_of(spec_display(StorageParams::Webhdfs(v))),
        shows(spec_display(StorageParams::Webhdfs(v)), "root="@ + v.root@),
        shows(spec_display(StorageParams::Webhdfs(v)), "endpoint="@ + v.endpoint_url@),
        spec_display(StorageParams::Webhdfs(v)).len() == "webhdfs://"@.len() + "root="@.len() + (v.root@).len() + "endpoint="@.len() + (v.endpoint_url@).len() + 1,
{
    let text = spec_display(StorageParams::Webhdfs(v));
    reveal_strlit("webhdfs://");
    reveal_strlit(",");
    reveal_strlit(",endpoint=");
    reveal_strlit("endpoint=");
    reveal_strlit("root=");
    reveal_strlit("webhdfs://root=");
    assert(text =~= "webhdfs://root="@ + v.root@ + ",endpoint="@ + v.endpoint_url@);
    assert(text =~= "webhdfs://"@ + ("root="@ + v.root@ + ",endpoint="@ + v.endpoint_url@));
    lemma_prefix("webhdfs://"@, "root="@ + v.root@ + ",endpoint="@ + v.endpoint_url@);
    assert(text =~= ("webhdfs://"@) + ("root="@ + v.root@) + (Seq::<char>::empty() + ",endpoint="@ + v.endpoint_url@));
    lemma_shows("webhdfs://"@, "root="@ + v.root@, Seq::<char>::empty() + ",endpoint="@ + v.endpoint_url@);
    assert(text =~= ("webhdfs://"@ + "root="@ + v.root@ + ","@) + ("endpoint="@ + v.endpoint_url@) + (Seq::<char>::empty()));
    lemma_shows("webhdfs://"@ + "root="@ + v.root@ + ","@, "endpoint="@ + v.endpoint_url@, Seq::<char>::empty());
}

/// A sequence is a prefix of itself followed by anything.
proof fn lemma_prefix(a: Seq<char>, b: Seq<char>)
    ensures
        a.is_prefix_of(a + b),
{
    assert((a + b).subrange(0, a.len() as int) =~= a);
}

/// The backends without keys show their protocol alone.
pub proof fn lemma_display_keyless()
    ensures
        spec_display(StorageParams::Memory) == "memory"@,
        spec_display(StorageParams::NoStorage) == "none"@,
{
}

} // verus!
