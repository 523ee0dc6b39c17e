use databend_meta::storage_params::{
    StorageAzblobConfig, StorageFtpConfig, StorageGcsConfig, StorageObsConfig, StorageOssConfig,
    StorageRedisConfig, StorageS3Config, StorageWebhdfsConfig,
};

#[test]
fn azblob_debug_masks_the_account_key() {
    let v = StorageAzblobConfig {
        endpoint_url: "https://az".to_string(),
        container: "c".to_string(),
        account_name: "acct".to_string(),
        account_key: "verysecretkey".to_string(),
        root: "/r".to_string(),
    };
    assert_eq!(
        v.to_debug_string(),
        "StorageAzblobConfig { endpoint_url: \"https://az\", container: \"c\", root: \"/r\", account_name: \"acct\", account_key: \"******key\" }"
    );
}

#[test]
fn ftp_debug_masks_the_password() {
    let v = StorageFtpConfig { password: "hunter2".to_string(), username: "u".to_string(), ..StorageFtpConfig::default() };
    assert_eq!(
        v.to_debug_string(),
        "StorageFtpConfig { endpoint: \"ftps://127.0.0.1\", root: \"/\", username: \"u\", password: \"******er2\" }"
    );
}

#[test]
fn gcs_debug_masks_the_credential() {
    let v = StorageGcsConfig { credential: "ab".to_string(), ..StorageGcsConfig::default() };
    assert_eq!(
        v.to_debug_string(),
        "StorageGcsConfig { endpoint: \"https://storage.googleapis.com\", bucket: \"\", root: \"\", credential: \"ab\" }"
    );
}

#[test]
fn s3_debug_masks_keys_and_tokens() {
    let v = StorageS3Config {
        region: "us-east-2".to_string(),
        access_key_id: "AKIDEXAMPLE".to_string(),
        secret_access_key: "SECRETKEY".to_string(),
        security_token: "".to_string(),
        master_key: "master".to_string(),
        enable_virtual_host_style: true,
        ..StorageS3Config::default()
    };
    assert_eq!(
        v.to_debug_string(),
        "StorageS3Config { endpoint_url: \"https://s3.amazonaws.com\", region: \"us-east-2\", bucket: \"\", root: \"\", \
disable_credential_loader: false, enable_virtual_host_style: true, role_arn: \"\", external_id: \"\", \
access_key_id: \"******PLE\", secret_access_key: \"******KEY\", security_token: \"\", master_key: \"******ter\" }"
    );
}

#[test]
fn obs_and_oss_debug_mask_keys() {
    let obs = StorageObsConfig { access_key_id: "id1234".to_string(), secret_access_key: "sk9876".to_string(), ..Default::default() };
    assert_eq!(
        obs.to_debug_string(),
        "StorageObsConfig { endpoint_url: \"\", bucket: \"\", root: \"\", access_key_id: \"******234\", secret_access_key: \"******876\" }"
    );
    let oss = StorageOssConfig { presign_endpoint_url: "p".to_string(), access_key_id: "abcd".to_string(), access_key_secret: "wxyz".to_string(), ..Default::default() };
    assert_eq!(
        oss.to_debug_string(),
        "StorageOssConfig { endpoint_url: \"\", presign_endpoint_url: \"p\", bucket: \"\", root: \"\", access_key_id: \"******bcd\", access_key_secret: \"******xyz\" }"
    );
}

#[test]
fn redis_debug_shows_present_credentials_masked() {
    let bare = StorageRedisConfig { endpoint_url: "tcp://r".to_string(), db: 3, ..Default::default() };
    assert_eq!(
        bare.to_debug_string(),
        "StorageRedisConfig { endpoint_url: \"tcp://r\", db: 3, root: \"\", default_ttl: None }"
    );
    let full = StorageRedisConfig {
        endpoint_url: "tcp://r".to_string(),
        username: Some("admin".to_string()),
        password: Some("p@ssword".to_string()),
        root: "/".to_string(),
        db: -1,
        default_ttl: Some(60),
    };
    assert_eq!(
        full.to_debug_string(),
        "StorageRedisConfig { endpoint_url: \"tcp://r\", db: -1, root: \"/\", default_ttl: Some(60), username: \"******min\", usernpasswordame: \"******ord\" }"
    );
}

#[test]
fn webhdfs_debug_masks_the_delegation() {
    let v = StorageWebhdfsConfig { endpoint_url: "e".to_string(), root: "r".to_string(), delegation: "token".to_string() };
    assert_eq!(
        v.to_debug_string(),
        "StorageWebhdfsConfig { endpoint_url: \"e\", root: \"r\", delegation: \"******ken\" }"
    );
}

#[test]
fn debug_escapes_quotes() {
    let v = StorageWebhdfsConfig { endpoint_url: "a\"b".to_string(), root: "".to_string(), delegation: "".to_string() };
    assert_eq!(
        v.to_debug_string(),
        "StorageWebhdfsConfig { endpoint_url: \"a\\\"b\", root: \"\", delegation: \"\" }"
    );
}
