use databend_meta::storage_params::{
    mask_string, StorageAzblobConfig, StorageFsConfig, StorageFtpConfig, StorageGcsConfig,
    StorageHdfsConfig, StorageHttpConfig, StorageIpfsConfig, StorageMokaConfig, StorageObsConfig,
    StorageOssConfig, StorageParams, StorageRedisConfig, StorageS3Config, StorageWebhdfsConfig,
    STORAGE_FTP_DEFAULT_ENDPOINT, STORAGE_GCS_DEFAULT_ENDPOINT, STORAGE_S3_DEFAULT_ENDPOINT,
};

fn s3_with_endpoint(endpoint: &str) -> StorageS3Config {
    StorageS3Config {
        endpoint_url: endpoint.to_string(),
        bucket: "bkt".to_string(),
        root: "/data".to_string(),
        ..StorageS3Config::default()
    }
}

#[test]
fn mask_string_keeps_short_strings_whole() {
    assert_eq!(mask_string("", 3), "");
    assert_eq!(mask_string("ab", 3), "ab");
    assert_eq!(mask_string("abc", 3), "abc");
}

#[test]
fn mask_string_masks_all_but_suffix() {
    assert_eq!(mask_string("abcd", 3), "******bcd");
    assert_eq!(mask_string("abcdef", 3), "******def");
    assert_eq!(mask_string("secret", 0), "******");
    assert_eq!(mask_string("secret", 6), "secret");
}

#[test]
fn mask_string_counts_bytes() {
    // "é" takes two bytes: "héllo" has six bytes, of which the last three are "llo".
    assert_eq!(mask_string("héllo", 3), "******llo");
    // each of these characters takes three bytes
    assert_eq!(mask_string("日本語", 3), "******語");
    assert_eq!(mask_string("日本", 6), "日本");
}

#[test]
fn mask_string_reveals_only_the_suffix_bytes() {
    let secret = "a-long-secret-key";
    let masked = mask_string(secret, 3);
    assert_eq!(masked.len(), 6 + 3);
    assert!(masked.ends_with(&secret[secret.len() - 3..]));
    assert!(masked.starts_with("******"));
}

#[test]
fn is_secure_by_endpoint() {
    assert!(StorageParams::S3(StorageS3Config::default()).is_secure());
    assert!(!StorageParams::S3(s3_with_endpoint("http://127.0.0.1:9000")).is_secure());
    assert!(StorageParams::S3(s3_with_endpoint("https://127.0.0.1:9000")).is_secure());
    assert!(StorageParams::Gcs(StorageGcsConfig::default()).is_secure());
    assert!(StorageParams::Ftp(StorageFtpConfig::default()).is_secure());
    let ftp = StorageFtpConfig { endpoint: "ftp://127.0.0.1".to_string(), ..StorageFtpConfig::default() };
    assert!(!StorageParams::Ftp(ftp).is_secure());
    let http = StorageHttpConfig { endpoint_url: "https://example.com".to_string(), paths: vec![] };
    assert!(StorageParams::Http(http).is_secure());
    let azblob = StorageAzblobConfig { endpoint_url: "HTTPS://x".to_string(), ..Default::default() };
    assert!(!StorageParams::Azblob(azblob).is_secure());
    let webhdfs = StorageWebhdfsConfig { endpoint_url: "https:/".to_string(), ..Default::default() };
    assert!(!StorageParams::Webhdfs(webhdfs).is_secure());
}

#[test]
fn local_backends_are_insecure() {
    assert!(!StorageParams::Fs(StorageFsConfig::default()).is_secure());
    assert!(!StorageParams::Hdfs(StorageHdfsConfig::default()).is_secure());
    assert!(!StorageParams::Memory.is_secure());
    assert!(!StorageParams::Moka(StorageMokaConfig::default()).is_secure());
    let redis = StorageRedisConfig { endpoint_url: "https://redis".to_string(), ..Default::default() };
    assert!(!StorageParams::Redis(redis).is_secure());
    assert!(!StorageParams::NoStorage.is_secure());
}

#[test]
fn is_fs_only_for_fs() {
    assert!(StorageParams::default().is_fs());
    assert!(!StorageParams::Memory.is_fs());
    assert!(!StorageParams::S3(StorageS3Config::default()).is_fs());
}

#[test]
fn map_root_replaces_the_root() {
    let p = StorageParams::S3(s3_with_endpoint("https://s3"));
    let q = p.clone().map_root(|r| format!("{}/tenant", r));
    match (&p, &q) {
        (StorageParams::S3(a), StorageParams::S3(b)) => {
            assert_eq!(b.root, "/data/tenant");
            assert_eq!(b.endpoint_url, a.endpoint_url);
            assert_eq!(b.bucket, a.bucket);
        }
        _ => panic!("the backend changed"),
    }
    assert_eq!(q.is_secure(), p.is_secure());
    let fs = StorageParams::Fs(StorageFsConfig { root: "a".to_string() });
    assert!(fs.map_root(|r| format!("{}/b", r)) == StorageParams::Fs(StorageFsConfig { root: "a/b".to_string() }));
}

#[test]
fn map_root_leaves_rootless_backends() {
    let http = StorageParams::Http(StorageHttpConfig { endpoint_url: "u".to_string(), paths: vec!["p".to_string()] });
    assert!(http.clone().map_root(|_| "x".to_string()) == http);
    assert!(StorageParams::Memory.map_root(|_| "x".to_string()) == StorageParams::Memory);
    let moka = StorageParams::Moka(StorageMokaConfig::default());
    assert!(moka.clone().map_root(|_| "x".to_string()) == moka);
    assert!(StorageParams::NoStorage.map_root(|_| "x".to_string()) == StorageParams::NoStorage);
}

#[test]
fn defaults() {
    match StorageParams::default() {
        StorageParams::Fs(v) => assert_eq!(v.root, "_data"),
        _ => panic!("default is not fs"),
    }
    let ftp = StorageFtpConfig::default();
    assert_eq!(ftp.endpoint, STORAGE_FTP_DEFAULT_ENDPOINT);
    assert_eq!(ftp.root, "/");
    assert_eq!(ftp.username, "");
    assert_eq!(ftp.password, "");
    assert_eq!(StorageGcsConfig::default().endpoint_url, STORAGE_GCS_DEFAULT_ENDPOINT);
    let s3 = StorageS3Config::default();
    assert_eq!(s3.endpoint_url, STORAGE_S3_DEFAULT_ENDPOINT);
    assert_eq!(s3.root, "");
    assert!(!s3.disable_credential_loader);
    assert!(!s3.enable_virtual_host_style);
    let moka = StorageMokaConfig::default();
    assert_eq!(moka.max_capacity, 1024 * 1024 * 1024);
    assert_eq!(moka.time_to_live, 3600);
    assert_eq!(moka.time_to_idle, 600);
    assert_eq!(StorageIpfsConfig::default().endpoint_url, "");
}

#[test]
fn display_of_each_backend() {
    let azblob = StorageAzblobConfig {
        endpoint_url: "https://az".to_string(),
        container: "c".to_string(),
        account_name: "n".to_string(),
        account_key: "k".to_string(),
        root: "/r".to_string(),
    };
    assert_eq!(StorageParams::Azblob(azblob).to_display_string(), "azblob://container=c,root=/r,endpoint=https://az");
    assert_eq!(StorageParams::default().to_display_string(), "fs://root=_data");
    assert_eq!(StorageParams::Ftp(StorageFtpConfig::default()).to_display_string(), "ftp://root=/,endpoint=ftps://127.0.0.1");
    let gcs = StorageGcsConfig { bucket: "b".to_string(), root: "r".to_string(), ..Default::default() };
    assert_eq!(StorageParams::Gcs(gcs).to_display_string(), "gcs://bucket=b,root=r,endpoint=https://storage.googleapis.com");
    let hdfs = StorageHdfsConfig { name_node: "nn".to_string(), root: "r".to_string() };
    assert_eq!(StorageParams::Hdfs(hdfs).to_display_string(), "hdfs://root=r,name_node=nn");
    let http = StorageHttpConfig { endpoint_url: "http://h".to_string(), paths: vec!["a".to_string(), "b\"c".to_string()] };
    assert_eq!(StorageParams::Http(http).to_display_string(), "http://endpoint=http://h,paths=[\"a\", \"b\\\"c\"]");
    let ipfs = StorageIpfsConfig { endpoint_url: "https://ipfs.io".to_string(), root: "/ipfs".to_string() };
    assert_eq!(StorageParams::Ipfs(ipfs).to_display_string(), "ipfs://endpoint=https://ipfs.io,root=/ipfs");
    assert_eq!(StorageParams::Memory.to_display_string(), "memory");
    assert_eq!(StorageParams::Moka(StorageMokaConfig::default()).to_display_string(), "moka://max_capacity=1073741824");
    let obs = StorageObsConfig { endpoint_url: "e".to_string(), bucket: "b".to_string(), root: "r".to_string(), ..Default::default() };
    assert_eq!(StorageParams::Obs(obs).to_display_string(), "obs://bucket=b,root=r,endpoint=e");
    let oss = StorageOssConfig { endpoint_url: "e".to_string(), bucket: "b".to_string(), root: "r".to_string(), ..Default::default() };
    assert_eq!(StorageParams::Oss(oss).to_display_string(), "oss://bucket=b,root=r,endpoint=e");
    assert_eq!(StorageParams::S3(s3_with_endpoint("https://s3")).to_display_string(), "s3://bucket=bkt,root=/data,endpoint=https://s3");
    let redis = StorageRedisConfig { endpoint_url: "tcp://r".to_string(), root: "/".to_string(), db: -12, ..Default::default() };
    assert_eq!(StorageParams::Redis(redis).to_display_string(), "redis://db=-12,root=/,endpoint=tcp://r");
    let webhdfs = StorageWebhdfsConfig { endpoint_url: "e".to_string(), root: "r".to_string(), delegation: "d".to_string() };
    assert_eq!(StorageParams::Webhdfs(webhdfs).to_display_string(), "webhdfs://root=r,endpoint=e");
    assert_eq!(StorageParams::NoStorage.to_display_string(), "none");
}

#[test]
fn display_follows_map_root() {
    let p = StorageParams::Fs(StorageFsConfig { root: "a".to_string() }).map_root(|r| format!("{}/b", r));
    assert_eq!(p.to_display_string(), "fs://root=a/b");
}

#[test]
fn masking_twice_is_masking_once() {
    for s in ["", "ab", "abcd", "héllo", "日本語", "a-long-secret-key"] {
        for n in [0usize, 3, 6] {
            if s.len() <= n || s.is_char_boundary(s.len() - n) {
                let once = mask_string(s, n);
                assert_eq!(mask_string(&once, n), once);
            }
        }
    }
}

#[test]
fn map_root_twice_is_map_root_with_composition() {
    let p = StorageParams::S3(s3_with_endpoint("https://s3"));
    let f = |r: &str| format!("{}/a", r);
    let g = |r: &str| r.to_uppercase();
    let twice = p.clone().map_root(f).map_root(g);
    let once = p.map_root(|r: &str| g(&f(r)));
    assert!(twice == once);
    assert_eq!(once.to_display_string(), "s3://bucket=bkt,root=/DATA/A,endpoint=https://s3");
}
