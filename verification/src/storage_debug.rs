use vstd::prelude::*;
use vstd::utf8::encode_utf8;

use crate::storage_params::{
    mask_cut_on_boundary, mask_string, spec_mask_string, StorageAzblobConfig, StorageFtpConfig,
    StorageGcsConfig, StorageObsConfig, StorageOssConfig, StorageRedisConfig, StorageS3Config,
    StorageWebhdfsConfig,
};
use crate::text::{
    append_debug_bool, append_debug_option_i64, append_debug_str, append_i64, bool_debug_text,
    int_decimal, lemma_shows, option_i64_debug_text, shows, str_debug_text, string_of,
};

verus! {

/// How many bytes of a secret its debug text keeps.
pub const SECRET_UNMASKED_LEN: usize = 3;

/// A secret that can be masked: its encoding fits in memory and the cut
/// before its last bytes falls between two characters.
pub open spec fn maskable(s: Seq<char>) -> bool {
    &&& encode_utf8(s).len() <= usize::MAX
    &&& mask_cut_on_boundary(s, SECRET_UNMASKED_LEN as nat)
}

/// The debug text of a secret: the debug text of its masked form.
pub open spec fn secret_debug_text(s: Seq<char>) -> Seq<char> {
    str_debug_text(spec_mask_string(s, SECRET_UNMASKED_LEN as nat))
}

/// Appends the debug text of the masked form of a secret to `out`.
fn append_secret(out: &mut String, secret: &str)
    requires
        maskable(secret@),
    ensures
        final(out)@ == old(out)@ + secret_debug_text(secret@),
{
    let masked = mask_string(secret, SECRET_UNMASKED_LEN);
    append_debug_str(out, masked.as_str());
}

pub open spec fn azblob_debug_text(v: StorageAzblobConfig) -> Seq<char> {
    "StorageAzblobConfig { endpoint_url: "@ + str_debug_text(v.endpoint_url@)
        + ", container: "@ + str_debug_text(v.container@)
        + ", root: "@ + str_debug_text(v.root@)
        + ", account_name: "@ + str_debug_text(v.account_name@)
        + ", account_key: "@ + secret_debug_text(v.account_key@)
        + " }"@
}

pub open spec fn ftp_debug_text(v: StorageFtpConfig) -> Seq<char> {
    "StorageFtpConfig { endpoint: "@ + str_debug_text(v.endpoint@)
        + ", root: "@ + str_debug_text(v.root@)
        + ", username: "@ + str_debug_text(v.username@)
        + ", password: "@ + secret_debug_text(v.password@)
        + " }"@
}

pub open spec fn gcs_debug_text(v: StorageGcsConfig) -> Seq<char> {
    "StorageGcsConfig { endpoint: "@ + str_debug_text(v.endpoint_url@)
        + ", bucket: "@ + str_debug_text(v.bucket@)
        + ", root: "@ + str_debug_text(v.root@)
        + ", credential: "@ + secret_debug_text(v.credential@)
        + " }"@
}

pub open spec fn s3_debug_text(v: StorageS3Config) -> Seq<char> {
    "StorageS3Config { endpoint_url: "@ + str_debug_text(v.endpoint_url@)
        + ", region: "@ + str_debug_text(v.region@)
        + ", bucket: "@ + str_debug_text(v.bucket@)
        + ", root: "@ + str_debug_text(v.root@)
        + ", disable_credential_loader: "@ + bool_debug_text(v.disable_credential_loader)
        + ", enable_virtual_host_style: "@ + bool_debug_text(v.enable_virtual_host_style)
        + ", role_arn: "@ + str_debug_text(v.role_arn@)
        + ", external_id: "@ + str_debug_text(v.external_id@)
        + ", access_key_id: "@ + secret_debug_text(v.access_key_id@)
        + ", secret_access_key: "@ + secret_debug_text(v.secret_access_key@)
        + ", security_token: "@ + secret_debug_text(v.security_token@)
        + ", master_key: "@ + secret_debug_text(v.master_key@)
        + " }"@
}

pub open spec fn obs_debug_text(v: StorageObsConfig) -> Seq<char> {
    "StorageObsConfig { endpoint_url: "@ + str_debug_text(v.endpoint_url@)
        + ", bucket: "@ + str_debug_text(v.bucket@)
        + ", root: "@ + str_debug_text(v.root@)
        + ", access_key_id: "@ + secret_debug_text(v.access_key_id@)
        + ", secret_access_key: "@ + secret_debug_text(v.secret_access_key@)
        + " }"@
}

pub open spec fn oss_debug_text(v: StorageOssConfig) -> Seq<char> {
    "StorageOssConfig { endpoint_url: "@ + str_debug_text(v.endpoint_url@)
        + ", presign_endpoint_url: "@ + str_debug_text(v.presign_endpoint_url@)
        + ", bucket: "@ + str_debug_text(v.bucket@)
        + ", root: "@ + str_debug_text(v.root@)
        + ", access_key_id: "@ + secret_debug_text(v.access_key_id@)
        + ", access_key_secret: "@ + secret_debug_text(v.access_key_secret@)
        + " }"@
}

/// The optional credential fields of a redis config's debug text: each
/// present one, masked. The password stands under the key `usernpasswordame`.
pub open spec fn redis_credentials_debug_text(v: StorageRedisConfig) -> Seq<char> {
    (match v.username {
        Some(u) => ", username: "@ + secret_debug_text(u@),
        None => Seq::empty(),
    }) + (match v.password {
        Some(p) => ", usernpasswordame: "@ + secret_debug_text(p@),
        None => Seq::empty(),
    })
}

pub open spec fn redis_debug_text(v: StorageRedisConfig) -> Seq<char> {
    "StorageRedisConfig { endpoint_url: "@ + str_debug_text(v.endpoint_url@)
        + ", db: "@ + int_decimal(v.db as int)
        + ", root: "@ + str_debug_text(v.root@)
        + ", default_ttl: "@ + option_i64_debug_text(v.default_ttl)
        + redis_credentials_debug_text(v)
        + " }"@
}

pub open spec fn webhdfs_debug_text(v: StorageWebhdfsConfig) -> Seq<char> {
    "StorageWebhdfsConfig { endpoint_url: "@ + str_debug_text(v.endpoint_url@)
        + ", root: "@ + str_debug_text(v.root@)
        + ", delegation: "@ + secret_debug_text(v.delegation@)
        + " }"@
}

impl StorageAzblobConfig {
    /// The debug text of this config, with the account key masked.
    pub fn to_debug_string(&self) -> (r: String)
        requires
            maskable(self.account_key@),
        ensures
            r@ == azblob_debug_text(*self),
    {
        let mut out = string_of("StorageAzblobConfig { endpoint_url: ");
        append_debug_str(&mut out, self.endpoint_url.as_str());
        out.append(", container: ");
        append_debug_str(&mut out, self.container.as_str());
        out.append(", root: ");
        append_debug_str(&mut out, self.root.as_str());
        out.append(", account_name: ");
        append_debug_str(&mut out, self.account_name.as_str());
        out.append(", account_key: ");
        append_secret(&mut out, self.account_key.as_str());
        out.append(" }");
        out
    }
}

impl StorageFtpConfig {
    /// The debug text of this config, with the password masked.
    pub fn to_debug_string(&self) -> (r: String)
        requires
            maskable(self.password@),
        ensures
            r@ == ftp_debug_text(*self),
    {
        let mut out = string_of("StorageFtpConfig { endpoint: ");
        append_debug_str(&mut out, self.endpoint.as_str());
        out.append(", root: ");
        append_debug_str(&mut out, self.root.as_str());
        out.append(", username: ");
        append_debug_str(&mut out, self.username.as_str());
        out.append(", password: ");
        append_secret(&mut out, self.password.as_str());
        out.append(" }");
        out
    }
}

impl StorageGcsConfig {
    /// The debug text of this config, with the credential masked.
    pub fn to_debug_string(&self) -> (r: String)
        requires
            maskable(self.credential@),
        ensures
            r@ == gcs_debug_text(*self),
    {
        let mut out = string_of("StorageGcsConfig { endpoint: ");
        append_debug_str(&mut out, self.endpoint_url.as_str());
        out.append(", bucket: ");
        append_debug_str(&mut out, self.bucket.as_str());
        out.append(", root: ");
        append_debug_str(&mut out, self.root.as_str());
        out.append(", credential: ");
        append_secret(&mut out, self.credential.as_str());
        out.append(" }");
        out
    }
}

impl StorageS3Config {
    /// The debug text of this config, with the keys and tokens masked.
    pub fn to_debug_string(&self) -> (r: String)
        requires
            maskable(self.access_key_id@),
            maskable(self.secret_access_key@),
            maskable(self.security_token@),
            maskable(self.master_key@),
        ensures
            r@ == s3_debug_text(*self),
    {
        let mut out = string_of("StorageS3Config { endpoint_url: ");
        append_debug_str(&mut out, self.endpoint_url.as_str());
        out.append(", region: ");
        append_debug_str(&mut out, self.region.as_str());
        out.append(", bucket: ");
        append_debug_str(&mut out, self.bucket.as_str());
        out.append(", root: ");
        append_debug_str(&mut out, self.root.as_str());
        out.append(", disable_credential_loader: ");
        append_debug_bool(&mut out, self.disable_credential_loader);
        out.append(", enable_virtual_host_style: ");
        append_debug_bool(&mut out, self.enable_virtual_host_style);
        out.append(", role_arn: ");
        append_debug_str(&mut out, self.role_arn.as_str());
        out.append(", external_id: ");
        append_debug_str(&mut out, self.external_id.as_str());
        out.append(", access_key_id: ");
        append_secret(&mut out, self.access_key_id.as_str());
        out.append(", secret_access_key: ");
        append_secret(&mut out, self.secret_access_key.as_str());
        out.append(", security_token: ");
        append_secret(&mut out, self.security_token.as_str());
        out.append(", master_key: ");
        append_secret(&mut out, self.master_key.as_str());
        out.append(" }");
        out
    }
}

impl StorageObsConfig {
    /// The debug text of this config, with the keys masked.
    pub fn to_debug_string(&self) -> (r: String)
        requires
            maskable(self.access_key_id@),
            maskable(self.secret_access_key@),
        ensures
            r@ == obs_debug_text(*self),
    {
        let mut out = string_of("StorageObsConfig { endpoint_url: ");
        append_debug_str(&mut out, self.endpoint_url.as_str());
        out.append(", bucket: ");
        append_debug_str(&mut out, self.bucket.as_str());
        out.append(", root: ");
        append_debug_str(&mut out, self.root.as_str());
        out.append(", access_key_id: ");
        append_secret(&mut out, self.access_key_id.as_str());
        out.append(", secret_access_key: ");
        append_secret(&mut out, self.secret_access_key.as_str());
        out.append(" }");
        out
    }
}

impl StorageOssConfig {
    /// The debug text of this config, with the keys masked.
    pub fn to_debug_string(&self) -> (r: String)
        requires
            maskable(self.access_key_id@),
            maskable(self.access_key_secret@),
        ensures
            r@ == oss_debug_text(*self),
    {
        let mut out = string_of("StorageOssConfig { endpoint_url: ");
        append_debug_str(&mut out, self.endpoint_url.as_str());
        out.append(", presign_endpoint_url: ");
        append_debug_str(&mut out, self.presign_endpoint_url.as_str());
        out.append(", bucket: ");
        append_debug_str(&mut out, self.bucket.as_str());
        out.append(", root: ");
        append_debug_str(&mut out, self.root.as_str());
        out.append(", access_key_id: ");
        append_secret(&mut out, self.access_key_id.as_str());
        out.append(", access_key_secret: ");
        append_secret(&mut out, self.access_key_secret.as_str());
        out.append(" }");
        out
    }
}

impl StorageRedisConfig {
    /// The debug text of this config: the credentials that are present are
    /// shown masked, the absent ones not at all.
    pub fn to_debug_string(&self) -> (r: String)
        requires
            self.username matches Some(u) ==> maskable(u@),
            self.password matches Some(p) ==> maskable(p@),
        ensures
            r@ == redis_debug_text(*self),
    {
        let mut out = string_of("StorageRedisConfig { endpoint_url: ");
        append_debug_str(&mut out, self.endpoint_url.as_str());
        out.append(", db: ");
        append_i64(&mut out, self.db);
        out.append(", root: ");
        append_debug_str(&mut out, self.root.as_str());
        out.append(", default_ttl: ");
        append_debug_option_i64(&mut out, self.default_ttl);
        if let Some(username) = &self.username {
            out.append(", username: ");
            append_secret(&mut out, username.as_str());
        }
        if let Some(password) = &self.password {
            out.append(", usernpasswordame: ");
            append_secret(&mut out, password.as_str());
        }
        out.append(" }");
        out
    }
}

impl StorageWebhdfsConfig {
    /// The debug text of this config, with the delegation token masked.
    pub fn to_debug_string(&self) -> (r: String)
        requires
            maskable(self.delegation@),
        ensures
            r@ == webhdfs_debug_text(*self),
    {
        let mut out = string_of("StorageWebhdfsConfig { endpoint_url: ");
        append_debug_str(&mut out, self.endpoint_url.as_str());
        out.append(", root: ");
        append_debug_str(&mut out, self.root.as_str());
        out.append(", delegation: ");
        append_secret(&mut out, self.delegation.as_str());
        out.append(" }");
        out
    }
}

} // verus!

verus! {

/// The head of a redis config's debug text: name, endpoint, db, root and
/// default TTL, before any credential.
pub open spec fn redis_debug_head(v: StorageRedisConfig) -> Seq<char> {
    "StorageRedisConfig { endpoint_url: "@ + str_debug_text(v.endpoint_url@)
        + ", db: "@ + int_decimal(v.db as int)
        + ", root: "@ + str_debug_text(v.root@)
        + ", default_ttl: "@ + option_i64_debug_text(v.default_ttl)
}

/// Each credential of a redis config shows in its debug text exactly when it
/// is present, independently of the other, masked: a present password ends
/// the text as `, usernpasswordame: ` and its masked debug text, whatever the
/// username; a present username follows the head as `, username: ` and its
/// masked debug text, whatever the password; with neither, the head is closed
/// at once.
pub proof fn lemma_redis_debug_shows_each_present_credential(v: StorageRedisConfig)
    ensures
        v.password matches Some(p) ==> exists|pre: Seq<char>|
            redis_debug_text(v) == pre + ", usernpasswordame: "@ + #[trigger] secret_debug_text(p@) + " }"@,
        v.username matches Some(u) ==> exists|post: Seq<char>|
            redis_debug_text(v) == redis_debug_head(v) + ", username: "@ + #[trigger] secret_debug_text(u@) + post,
        v.username is None && v.password is None ==> redis_debug_text(v) == redis_debug_head(v) + " }"@,
        v.username is None ==> (v.password matches Some(p) ==> redis_debug_text(v) == redis_debug_head(v)
            + ", usernpasswordame: "@ + secret_debug_text(p@) + " }"@),
        v.password is None ==> (v.username matches Some(u) ==> redis_debug_text(v) == redis_debug_head(v)
            + ", username: "@ + secret_debug_text(u@) + " }"@),
{
    let head = redis_debug_head(v);
    let user_part = match v.username {
        Some(u) => ", username: "@ + secret_debug_text(u@),
        None => Seq::<char>::empty(),
    };
    let pass_part = match v.password {
        Some(p) => ", usernpasswordame: "@ + secret_debug_text(p@),
        None => Seq::<char>::empty(),
    };
    assert(redis_debug_text(v) =~= head + user_part + pass_part + " }"@);
    if let Some(p) = v.password {
        let pre = head + user_part;
        assert(redis_debug_text(v) =~= pre + ", usernpasswordame: "@ + secret_debug_text(p@) + " }"@);
    }
    if let Some(u) = v.username {
        let post = pass_part + " }"@;
        assert(redis_debug_text(v) =~= head + ", username: "@ + secret_debug_text(u@) + post);
    }
    if v.username is None {
        assert(user_part =~= Seq::<char>::empty());
        assert(head + user_part =~= head);
    }
    if v.password is None {
        assert(pass_part =~= Seq::<char>::empty());
    }
}

} // verus!

verus! {

/// The debug text of a `StorageAzblobConfig` starts with its name and shows every field appears as `key: value`, each secret (`account_key`) only in its masked form.
pub proof fn lemma_azblob_shows_every_field(v: StorageAzblobConfig)
    ensures
        "StorageAzblobConfig { "@.is_prefix_of(azblob_debug_text(v)),
        shows(azblob_debug_text(v), "endpoint_url: "@ + str_debug_text(v.endpoint_url@)),
        shows(azblob_debug_text(v), "container: "@ + str_debug_text(v.container@)),
        shows(azblob_debug_text(v), "root: "@ + str_debug_text(v.root@)),
        shows(azblob_debug_text(v), "account_name: "@ + str_debug_text(v.account_name@)),
        shows(azblob_debug_text(v), "account_key: "@ + secret_debug_text(v.account_key@)),
{
    let text = azblob_debug_text(v);
    assert("StorageAzblobConfig { endpoint_url: "@ == "StorageAzblobConfig { "@ + "endpoint_url: "@) by {
        reveal_strlit("StorageAzblobConfig { endpoint_url: ");
        reveal_strlit("StorageAzblobConfig { ");
        reveal_strlit("endpoint_url: ");
    }
    assert(", container: "@ == ", "@ + "container: "@) by {
        reveal_strlit(", container: ");
        reveal_strlit(", ");
        reveal_strlit("container: ");
    }
    assert(", root: "@ == ", "@ + "root: "@) by {
        reveal_strlit(", root: ");
        reveal_strlit(", ");
        reveal_strlit("root: ");
    }
    assert(", account_name: "@ == ", "@ + "account_name: "@) by {
        reveal_strlit(", account_name: ");
        reveal_strlit(", ");
        reveal_strlit("account_name: ");
    }
    assert(", account_key: "@ == ", "@ + "account_key: "@) by {
        reveal_strlit(", account_key: ");
        reveal_strlit(", ");
        reveal_strlit("account_key: ");
    }
    lemma_glued_prefix("StorageAzblobConfig { "@, "endpoint_url: "@, str_debug_text(v.endpoint_url@));
    lemma_prefix_extend("StorageAzblobConfig { "@, "StorageAzblobConfig { endpoint_url: "@ + str_debug_text(v.endpoint_url@), ", container: "@);
    lemma_prefix_extend("StorageAzblobConfig { "@, "StorageAzblobConfig { endpoint_url: "@ + str_debug_text(v.endpoint_url@) + ", container: "@, str_debug_text(v.container@));
    lemma_prefix_extend("StorageAzblobConfig { "@, "StorageAzblobConfig { endpoint_url: "@ + str_debug_text(v.endpoint_url@) + ", container: "@ + str_debug_text(v.container@), ", root: "@);
    lemma_prefix_extend("StorageAzblobConfig { "@, "StorageAzblobConfig { endpoint_url: "@ + str_debug_text(v.endpoint_url@) + ", container: "@ + str_debug_text(v.container@) + ", root: "@, str_debug_text(v.root@));
    lemma_prefix_extend("StorageAzblobConfig { "@, "StorageAzblobConfig { endpoint_url: "@ + str_debug_text(v.endpoint_url@) + ", container: "@ + str_debug_text(v.container@) + ", root: "@ + str_debug_text(v.root@), ", account_name: "@);
    lemma_prefix_extend("StorageAzblobConfig { "@, "StorageAzblobConfig { endpoint_url: "@ + str_debug_text(v.endpoint_url@) + ", container: "@ + str_debug_text(v.container@) + ", root: "@ + str_debug_text(v.root@) + ", account_name: "@, str_debug_text(v.account_name@));
    lemma_prefix_extend("StorageAzblobConfig { "@, "StorageAzblobConfig { endpoint_url: "@ + str_debug_text(v.endpoint_url@) + ", container: "@ + str_debug_text(v.container@) + ", root: "@ + str_debug_text(v.root@) + ", account_name: "@ + str_debug_text(v.account_name@), ", account_key: "@);
    lemma_prefix_extend("StorageAzblobConfig { "@, "StorageAzblobConfig { endpoint_url: "@ + str_debug_text(v.endpoint_url@) + ", container: "@ + str_debug_text(v.container@) + ", root: "@ + str_debug_text(v.root@) + ", account_name: "@ + str_debug_text(v.account_name@) + ", account_key: "@, secret_debug_text(v.account_key@));
    lemma_prefix_extend("StorageAzblobConfig { "@, "StorageAzblobConfig { endpoint_url: "@ + str_debug_text(v.endpoint_url@) + ", container: "@ + str_debug_text(v.container@) + ", root: "@ + str_debug_text(v.root@) + ", account_name: "@ + str_debug_text(v.account_name@) + ", account_key: "@ + secret_debug_text(v.account_key@), " }"@);
    assert(text == "StorageAzblobConfig { endpoint_url: "@ + str_debug_text(v.endpoint_url@) + ", container: "@ + str_debug_text(v.container@) + ", root: "@ + str_debug_text(v.root@) + ", account_name: "@ + str_debug_text(v.account_name@) + ", account_key: "@ + secret_debug_text(v.account_key@) + " }"@);
    lemma_glued_shows(Seq::<char>::empty(), "StorageAzblobConfig { endpoint_url: "@, "StorageAzblobConfig { "@, "endpoint_url: "@, str_debug_text(v.endpoint_url@));
    assert(Seq::<char>::empty() + "StorageAzblobConfig { endpoint_url: "@ =~= "StorageAzblobConfig { endpoint_url: "@);
    lemma_shows_extend("StorageAzblobConfig { endpoint_url: "@ + str_debug_text(v.endpoint_url@), "endpoint_url: "@ + str_debug_text(v.endpoint_url@), ", container: "@);
    lemma_shows_extend("StorageAzblobConfig { endpoint_url: "@ + str_debug_text(v.endpoint_url@) + ", container: "@, "endpoint_url: "@ + str_debug_text(v.endpoint_url@), str_debug_text(v.container@));
    lemma_shows_extend("StorageAzblobConfig { endpoint_url: "@ + str_debug_text(v.endpoint_url@) + ", container: "@ + str_debug_text(v.container@), "endpoint_url: "@ + str_debug_text(v.endpoint_url@), ", root: "@);
    lemma_shows_extend("StorageAzblobConfig { endpoint_url: "@ + str_debug_text(v.endpoint_url@) + ", container: "@ + str_debug_text(v.container@) + ", root: "@, "endpoint_url: "@ + str_debug_text(v.endpoint_url@), str_debug_text(v.root@));
    lemma_shows_extend("StorageAzblobConfig { endpoint_url: "@ + str_debug_text(v.endpoint_url@) + ", container: "@ + str_debug_text(v.container@) + ", root: "@ + str_debug_text(v.root@), "endpoint_url: "@ + str_debug_text(v.endpoint_url@), ", account_name: "@);
    lemma_shows_extend("StorageAzblobConfig { endpoint_url: "@ + str_debug_text(v.endpoint_url@) + ", container: "@ + str_debug_text(v.container@) + ", root: "@ + str_debug_text(v.root@) + ", account_name: "@, "endpoint_url: "@ + str_debug_text(v.endpoint_url@), str_debug_text(v.account_name@));
    lemma_shows_extend("StorageAzblobConfig { endpoint_url: "@ + str_debug_text(v.endpoint_url@) + ", container: "@ + str_debug_text(v.container@) + ", root: "@ + str_debug_text(v.root@) + ", account_name: "@ + str_debug_text(v.account_name@), "endpoint_url: "@ + str_debug_text(v.endpoint_url@), ", account_key: "@);
    lemma_shows_extend("StorageAzblobConfig { endpoint_url: "@ + str_debug_text(v.endpoint_url@) + ", container: "@ + str_debug_text(v.container@) + ", root: "@ + str_debug_text(v.root@) + ", account_name: "@ + str_debug_text(v.account_name@) + ", account_key: "@, "endpoint_url: "@ + str_debug_text(v.endpoint_url@), secret_debug_text(v.account_key@));
    lemma_shows_extend("StorageAzblobConfig { endpoint_url: "@ + str_debug_text(v.endpoint_url@) + ", container: "@ + str_debug_text(v.container@) + ", root: "@ + str_debug_text(v.root@) + ", account_name: "@ + str_debug_text(v.account_name@) + ", account_key: "@ + secret_debug_text(v.account_key@), "endpoint_url: "@ + str_debug_text(v.endpoint_url@), " }"@);
    lemma_glued_shows("StorageAzblobConfig { endpoint_url: "@ + str_debug_text(v.endpoint_url@), ", container: "@, ", "@, "container: "@, str_debug_text(v.container@));
    lemma_shows_extend("StorageAzblobConfig { endpoint_url: "@ + str_debug_text(v.endpoint_url@) + ", container: "@ + str_debug_text(v.container@), "container: "@ + str_debug_text(v.container@), ", root: "@);
    lemma_shows_extend("StorageAzblobConfig { endpoint_url: "@ + str_debug_text(v.endpoint_url@) + ", container: "@ + str_debug_text(v.container@) + ", root: "@, "container: "@ + str_debug_text(v.container@), str_debug_text(v.root@));
    lemma_shows_extend("StorageAzblobConfig { endpoint_url: "@ + str_debug_text(v.endpoint_url@) + ", container: "@ + str_debug_text(v.container@) + ", root: "@ + str_debug_text(v.root@), "container: "@ + str_debug_text(v.container@), ", account_name: "@);
    lemma_shows_extend("StorageAzblobConfig { endpoint_url: "@ + str_debug_text(v.endpoint_url@) + ", container: "@ + str_debug_text(v.container@) + ", root: "@ + str_debug_text(v.root@) + ", account_name: "@, "container: "@ + str_debug_text(v.container@), str_debug_text(v.account_name@));
    lemma_shows_extend("StorageAzblobConfig { endpoint_url: "@ + str_debug_text(v.endpoint_url@) + ", container: "@ + str_debug_text(v.container@) + ", root: "@ + str_debug_text(v.root@) + ", account_name: "@ + str_debug_text(v.account_name@), "container: "@ + str_debug_text(v.container@), ", account_key: "@);
    lemma_shows_extend("StorageAzblobConfig { endpoint_url: "@ + str_debug_text(v.endpoint_url@) + ", container: "@ + str_debug_text(v.container@) + ", root: "@ + str_debug_text(v.root@) + ", account_name: "@ + str_debug_text(v.account_name@) + ", account_key: "@, "container: "@ + str_debug_text(v.container@), secret_debug_text(v.account_key@));
    lemma_shows_extend("StorageAzblobConfig { endpoint_url: "@ + str_debug_text(v.endpoint_url@) + ", container: "@ + str_debug_text(v.container@) + ", root: "@ + str_debug_text(v.root@) + ", account_name: "@ + str_debug_text(v.account_name@) + ", account_key: "@ + secret_debug_text(v.account_key@), "container: "@ + str_debug_text(v.container@), " }"@);
    lemma_glued_shows("StorageAzblobConfig { endpoint_url: "@ + str_debug_text(v.endpoint_url@) + ", container: "@ + str_debug_text(v.container@), ", root: "@, ", "@, "root: "@, str_debug_text(v.root@));
    lemma_shows_extend("StorageAzblobConfig { endpoint_url: "@ + str_debug_text(v.endpoint_url@) + ", container: "@ + str_debug_text(v.container@) + ", root: "@ + str_debug_text(v.root@), "root: "@ + str_debug_text(v.root@), ", account_name: "@);
    lemma_shows_extend("StorageAzblobConfig { endpoint_url: "@ + str_debug_text(v.endpoint_url@) + ", container: "@ + str_debug_text(v.container@) + ", root: "@ + str_debug_text(v.root@) + ", account_name: "@, "root: "@ + str_debug_text(v.root@), str_debug_text(v.account_name@));
    lemma_shows_extend("StorageAzblobConfig { endpoint_url: "@ + str_debug_text(v.endpoint_url@) + ", container: "@ + str_debug_text(v.container@) + ", root: "@ + str_debug_text(v.root@) + ", account_name: "@ + str_debug_text(v.account_name@), "root: "@ + str_debug_text(v.root@), ", account_key: "@);
    lemma_shows_extend("StorageAzblobConfig { endpoint_url: "@ + str_debug_text(v.endpoint_url@) + ", container: "@ + str_debug_text(v.container@) + ", root: "@ + str_debug_text(v.root@) + ", account_name: "@ + str_debug_text(v.account_name@) + ", account_key: "@, "root: "@ + str_debug_text(v.root@), secret_debug_text(v.account_key@));
    lemma_shows_extend("StorageAzblobConfig { endpoint_url: "@ + str_debug_text(v.endpoint_url@) + ", container: "@ + str_debug_text(v.container@) + ", root: "@ + str_debug_text(v.root@) + ", account_name: "@ + str_debug_text(v.account_name@) + ", account_key: "@ + secret_debug_text(v.account_key@), "root: "@ + str_debug_text(v.root@), " }"@);
    lemma_glued_shows("StorageAzblobConfig { endpoint_url: "@ + str_debug_text(v.endpoint_url@) + ", container: "@ + str_debug_text(v.container@) + ", root: "@ + str_debug_text(v.root@), ", account_name: "@, ", "@, "account_name: "@, str_debug_text(v.account_name@));
    lemma_shows_extend("StorageAzblobConfig { endpoint_url: "@ + str_debug_text(v.endpoint_url@) + ", container: "@ + str_debug_text(v.container@) + ", root: "@ + str_debug_text(v.root@) + ", account_name: "@ + str_debug_text(v.account_name@), "account_name: "@ + str_debug_text(v.account_name@), ", account_key: "@);
    lemma_shows_extend("StorageAzblobConfig { endpoint_url: "@ + str_debug_text(v.endpoint_url@) + ", container: "@ + str_debug_text(v.container@) + ", root: "@ + str_debug_text(v.root@) + ", account_name: "@ + str_debug_text(v.account_name@) + ", account_key: "@, "account_name: "@ + str_debug_text(v.account_name@), secret_debug_text(v.account_key@));
    lemma_shows_extend("StorageAzblobConfig { endpoint_url: "@ + str_debug_text(v.endpoint_url@) + ", container: "@ + str_debug_text(v.container@) + ", root: "@ + str_debug_text(v.root@) + ", account_name: "@ + str_debug_text(v.account_name@) + ", account_key: "@ + secret_debug_text(v.account_key@), "account_name: "@ + str_debug_text(v.account_name@), " }"@);
    lemma_glued_shows("StorageAzblobConfig { endpoint_url: "@ + str_debug_text(v.endpoint_url@) + ", container: "@ + str_debug_text(v.container@) + ", root: "@ + str_debug_text(v.root@) + ", account_name: "@ + str_debug_text(v.account_name@), ", account_key: "@, ", "@, "account_key: "@, secret_debug_text(v.account_key@));
    lemma_shows_extend("StorageAzblobConfig { endpoint_url: "@ + str_debug_text(v.endpoint_url@) + ", container: "@ + str_debug_text(v.container@) + ", root: "@ + str_debug_text(v.root@) + ", account_name: "@ + str_debug_text(v.account_name@) + ", account_key: "@ + secret_debug_text(v.account_key@), "account_key: "@ + secret_debug_text(v.account_key@), " }"@);
}

/// The debug text of a `StorageFtpConfig` starts with its name and shows every field appears as `key: value`, each secret (`password`) only in its masked form.
pub proof fn lemma_ftp_shows_every_field(v: StorageFtpConfig)
    ensures
        "StorageFtpConfig { "@.is_prefix_of(ftp_debug_text(v)),
        shows(ftp_debug_text(v), "endpoint: "@ + str_debug_text(v.endpoint@)),
        shows(ftp_debug_text(v), "root: "@ + str_debug_text(v.root@)),
        shows(ftp_debug_text(v), "username: "@ + str_debug_text(v.username@)),
        shows(ftp_debug_text(v), "password: "@ + secret_debug_text(v.password@)),
{
    let text = ftp_debug_text(v);
    assert("StorageFtpConfig { endpoint: "@ == "StorageFtpConfig { "@ + "endpoint: "@) by {
        reveal_strlit("StorageFtpConfig { endpoint: ");
        reveal_strlit("StorageFtpConfig { ");
        reveal_strlit("endpoint: ");
    }
    assert(", root: "@ == ", "@ + "root: "@) by {
        reveal_strlit(", root: ");
        reveal_strlit(", ");
        reveal_strlit("root: ");
    }
    assert(", username: "@ == ", "@ + "username: "@) by {
        reveal_strlit(", username: ");
        reveal_strlit(", ");
        reveal_strlit("username: ");
    }
    assert(", password: "@ == ", "@ + "password: "@) by {
        reveal_strlit(", password: ");
        reveal_strlit(", ");
        reveal_strlit("password: ");
    }
    lemma_glued_prefix("StorageFtpConfig { "@, "endpoint: "@, str_debug_text(v.endpoint@));
    lemma_prefix_extend("StorageFtpConfig { "@, "StorageFtpConfig { endpoint: "@ + str_debug_text(v.endpoint@), ", root: "@);
    lemma_prefix_extend("StorageFtpConfig { "@, "StorageFtpConfig { endpoint: "@ + str_debug_text(v.endpoint@) + ", root: "@, str_debug_text(v.root@));
    lemma_prefix_extend("StorageFtpConfig { "@, "StorageFtpConfig { endpoint: "@ + str_debug_text(v.endpoint@) + ", root: "@ + str_debug_text(v.root@), ", username: "@);
    lemma_prefix_extend("StorageFtpConfig { "@, "StorageFtpConfig { endpoint: "@ + str_debug_text(v.endpoint@) + ", root: "@ + str_debug_text(v.root@) + ", username: "@, str_debug_text(v.username@));
    lemma_prefix_extend("StorageFtpConfig { "@, "StorageFtpConfig { endpoint: "@ + str_debug_text(v.endpoint@) + ", root: "@ + str_debug_text(v.root@) + ", username: "@ + str_debug_text(v.username@), ", password: "@);
    lemma_prefix_extend("StorageFtpConfig { "@, "StorageFtpConfig { endpoint: "@ + str_debug_text(v.endpoint@) + ", root: "@ + str_debug_text(v.root@) + ", username: "@ + str_debug_text(v.username@) + ", password: "@, secret_debug_text(v.password@));
    lemma_prefix_extend("StorageFtpConfig { "@, "StorageFtpConfig { endpoint: "@ + str_debug_text(v.endpoint@) + ", root: "@ + str_debug_text(v.root@) + ", username: "@ + str_debug_text(v.username@) + ", password: "@ + secret_debug_text(v.password@), " }"@);
    assert(text == "StorageFtpConfig { endpoint: "@ + str_debug_text(v.endpoint@) + ", root: "@ + str_debug_text(v.root@) + ", username: "@ + str_debug_text(v.username@) + ", password: "@ + secret_debug_text(v.password@) + " }"@);
    lemma_glued_shows(Seq::<char>::empty(), "StorageFtpConfig { endpoint: "@, "StorageFtpConfig { "@, "endpoint: "@, str_debug_text(v.endpoint@));
    assert(Seq::<char>::empty() + "StorageFtpConfig { endpoint: "@ =~= "StorageFtpConfig { endpoint: "@);
    lemma_shows_extend("StorageFtpConfig { endpoint: "@ + str_debug_text(v.endpoint@), "endpoint: "@ + str_debug_text(v.endpoint@), ", root: "@);
    lemma_shows_extend("StorageFtpConfig { endpoint: "@ + str_debug_text(v.endpoint@) + ", root: "@, "endpoint: "@ + str_debug_text(v.endpoint@), str_debug_text(v.root@));
    lemma_shows_extend("StorageFtpConfig { endpoint: "@ + str_debug_text(v.endpoint@) + ", root: "@ + str_debug_text(v.root@), "endpoint: "@ + str_debug_text(v.endpoint@), ", username: "@);
    lemma_shows_extend("StorageFtpConfig { endpoint: "@ + str_debug_text(v.endpoint@) + ", root: "@ + str_debug_text(v.root@) + ", username: "@, "endpoint: "@ + str_debug_text(v.endpoint@), str_debug_text(v.username@));
    lemma_shows_extend("StorageFtpConfig { endpoint: "@ + str_debug_text(v.endpoint@) + ", root: "@ + str_debug_text(v.root@) + ", username: "@ + str_debug_text(v.username@), "endpoint: "@ + str_debug_text(v.endpoint@), ", password: "@);
    lemma_shows_extend("StorageFtpConfig { endpoint: "@ + str_debug_text(v.endpoint@) + ", root: "@ + str_debug_text(v.root@) + ", username: "@ + str_debug_text(v.username@) + ", password: "@, "endpoint: "@ + str_debug_text(v.endpoint@), secret_debug_text(v.password@));
    lemma_shows_extend("StorageFtpConfig { endpoint: "@ + str_debug_text(v.endpoint@) + ", root: "@ + str_debug_text(v.root@) + ", username: "@ + str_debug_text(v.username@) + ", password: "@ + secret_debug_text(v.password@), "endpoint: "@ + str_debug_text(v.endpoint@), " }"@);
    lemma_glued_shows("StorageFtpConfig { endpoint: "@ + str_debug_text(v.endpoint@), ", root: "@, ", "@, "root: "@, str_debug_text(v.root@));
    lemma_shows_extend("StorageFtpConfig { endpoint: "@ + str_debug_text(v.endpoint@) + ", root: "@ + str_debug_text(v.root@), "root: "@ + str_debug_text(v.root@), ", username: "@);
    lemma_shows_extend("StorageFtpConfig { endpoint: "@ + str_debug_text(v.endpoint@) + ", root: "@ + str_debug_text(v.root@) + ", username: "@, "root: "@ + str_debug_text(v.root@), str_debug_text(v.username@));
    lemma_shows_extend("StorageFtpConfig { endpoint: "@ + str_debug_text(v.endpoint@) + ", root: "@ + str_debug_text(v.root@) + ", username: "@ + str_debug_text(v.username@), "root: "@ + str_debug_text(v.root@), ", password: "@);
    lemma_shows_extend("StorageFtpConfig { endpoint: "@ + str_debug_text(v.endpoint@) + ", root: "@ + str_debug_text(v.root@) + ", username: "@ + str_debug_text(v.username@) + ", password: "@, "root: "@ + str_debug_text(v.root@), secret_debug_text(v.password@));
    lemma_shows_extend("StorageFtpConfig { endpoint: "@ + str_debug_text(v.endpoint@) + ", root: "@ + str_debug_text(v.root@) + ", username: "@ + str_debug_text(v.username@) + ", password: "@ + secret_debug_text(v.password@), "root: "@ + str_debug_text(v.root@), " }"@);
    lemma_glued_shows("StorageFtpConfig { endpoint: "@ + str_debug_text(v.endpoint@) + ", root: "@ + str_debug_text(v.root@), ", username: "@, ", "@, "username: "@, str_debug_text(v.username@));
    lemma_shows_extend("StorageFtpConfig { endpoint: "@ + str_debug_text(v.endpoint@) + ", root: "@ + str_debug_text(v.root@) + ", username: "@ + str_debug_text(v.username@), "username: "@ + str_debug_text(v.username@), ", password: "@);
    lemma_shows_extend("StorageFtpConfig { endpoint: "@ + str_debug_text(v.endpoint@) + ", root: "@ + str_debug_text(v.root@) + ", username: "@ + str_debug_text(v.username@) + ", password: "@, "username: "@ + str_debug_text(v.username@), secret_debug_text(v.password@));
    lemma_shows_extend("StorageFtpConfig { endpoint: "@ + str_debug_text(v.endpoint@) + ", root: "@ + str_debug_text(v.root@) + ", username: "@ + str_debug_text(v.username@) + ", password: "@ + secret_debug_text(v.password@), "username: "@ + str_debug_text(v.username@), " }"@);
    lemma_glued_shows("StorageFtpConfig { endpoint: "@ + str_debug_text(v.endpoint@) + ", root: "@ + str_debug_text(v.root@) + ", username: "@ + str_debug_text(v.username@), ", password: "@, ", "@, "password: "@, secret_debug_text(v.password@));
    lemma_shows_extend("StorageFtpConfig { endpoint: "@ + str_debug_text(v.endpoint@) + ", root: "@ + str_debug_text(v.root@) + ", username: "@ + str_debug_text(v.username@) + ", password: "@ + secret_debug_text(v.password@), "password: "@ + secret_debug_text(v.password@), " }"@);
}

/// The debug text of a `StorageGcsConfig` starts with its name and shows every field appears as `key: value`, each secret (`credential`) only in its masked form.
pub proof fn lemma_gcs_shows_every_field(v: StorageGcsConfig)
    ensures
        "StorageGcsConfig { "@.is_prefix_of(gcs_debug_text(v)),
        shows(gcs_debug_text(v), "endpoint: "@ + str_debug_text(v.endpoint_url@)),
        shows(gcs_debug_text(v), "bucket: "@ + str_debug_text(v.bucket@)),
        shows(gcs_debug_text(v), "root: "@ + str_debug_text(v.root@)),
        shows(gcs_debug_text(v), "credential: "@ + secret_debug_text(v.credential@)),
{
    let text = gcs_debug_text(v);
    assert("StorageGcsConfig { endpoint: "@ == "StorageGcsConfig { "@ + "endpoint: "@) by {
        reveal_strlit("StorageGcsConfig { endpoint: ");
        reveal_strlit("StorageGcsConfig { ");
        reveal_strlit("endpoint: ");
    }
    assert(", bucket: "@ == ", "@ + "bucket: "@) by {
        reveal_strlit(", bucket: ");
        reveal_strlit(", ");
        reveal_strlit("bucket: ");
    }
    assert(", root: "@ == ", "@ + "root: "@) by {
        reveal_strlit(", root: ");
        reveal_strlit(", ");
        reveal_strlit("root: ");
    }
    assert(", credential: "@ == ", "@ + "credential: "@) by {
        reveal_strlit(", credential: ");
        reveal_strlit(", ");
        reveal_strlit("credential: ");
    }
    lemma_glued_prefix("StorageGcsConfig { "@, "endpoint: "@, str_debug_text(v.endpoint_url@));
    lemma_prefix_extend("StorageGcsConfig { "@, "StorageGcsConfig { endpoint: "@ + str_debug_text(v.endpoint_url@), ", bucket: "@);
    lemma_prefix_extend("StorageGcsConfig { "@, "StorageGcsConfig { endpoint: "@ + str_debug_text(v.endpoint_url@) + ", bucket: "@, str_debug_text(v.bucket@));
    lemma_prefix_extend("StorageGcsConfig { "@, "StorageGcsConfig { endpoint: "@ + str_debug_text(v.endpoint_url@) + ", bucket: "@ + str_debug_text(v.bucket@), ", root: "@);
    lemma_prefix_extend("StorageGcsConfig { "@, "StorageGcsConfig { endpoint: "@ + str_debug_text(v.endpoint_url@) + ", bucket: "@ + str_debug_text(v.bucket@) + ", root: "@, str_debug_text(v.root@));
    lemma_prefix_extend("StorageGcsConfig { "@, "StorageGcsConfig { endpoint: "@ + str_debug_text(v.endpoint_url@) + ", bucket: "@ + str_debug_text(v.bucket@) + ", root: "@ + str_debug_text(v.root@), ", credential: "@);
    lemma_prefix_extend("StorageGcsConfig { "@, "StorageGcsConfig { endpoint: "@ + str_debug_text(v.endpoint_url@) + ", bucket: "@ + str_debug_text(v.bucket@) + ", root: "@ + str_debug_text(v.root@) + ", credential: "@, secret_debug_text(v.credential@));
    lemma_prefix_extend("StorageGcsConfig { "@, "StorageGcsConfig { endpoint: "@ + str_debug_text(v.endpoint_url@) + ", bucket: "@ + str_debug_text(v.bucket@) + ", root: "@ + str_debug_text(v.root@) + ", credential: "@ + secret_debug_text(v.credential@), " }"@);
    assert(text == "StorageGcsConfig { endpoint: "@ + str_debug_text(v.endpoint_url@) + ", bucket: "@ + str_debug_text(v.bucket@) + ", root: "@ + str_debug_text(v.root@) + ", credential: "@ + secret_debug_text(v.credential@) + " }"@);
    lemma_glued_shows(Seq::<char>::empty(), "StorageGcsConfig { endpoint: "@, "StorageGcsConfig { "@, "endpoint: "@, str_debug_text(v.endpoint_url@));
    assert(Seq::<char>::empty() + "StorageGcsConfig { endpoint: "@ =~= "StorageGcsConfig { endpoint: "@);
    lemma_shows_extend("StorageGcsConfig { endpoint: "@ + str_debug_text(v.endpoint_url@), "endpoint: "@ + str_debug_text(v.endpoint_url@), ", bucket: "@);
    lemma_shows_extend("StorageGcsConfig { endpoint: "@ + str_debug_text(v.endpoint_url@) + ", bucket: "@, "endpoint: "@ + str_debug_text(v.endpoint_url@), str_debug_text(v.bucket@));
    lemma_shows_extend("StorageGcsConfig { endpoint: "@ + str_debug_text(v.endpoint_url@) + ", bucket: "@ + str_debug_text(v.bucket@), "endpoint: "@ + str_debug_text(v.endpoint_url@), ", root: "@);
    lemma_shows_extend("StorageGcsConfig { endpoint: "@ + str_debug_text(v.endpoint_url@) + ", bucket: "@ + str_debug_text(v.bucket@) + ", root: "@, "endpoint: "@ + str_debug_text(v.endpoint_url@), str_debug_text(v.root@));
    lemma_shows_extend("StorageGcsConfig { endpoint: "@ + str_debug_text(v.endpoint_url@) + ", bucket: "@ + str_debug_text(v.bucket@) + ", root: "@ + str_debug_text(v.root@), "endpoint: "@ + str_debug_text(v.endpoint_url@), ", credential: "@);
    lemma_shows_extend("StorageGcsConfig { endpoint: "@ + str_debug_text(v.endpoint_url@) + ", bucket: "@ + str_debug_text(v.bucket@) + ", root: "@ + str_debug_text(v.root@) + ", credential: "@, "endpoint: "@ + str_debug_text(v.endpoint_url@), secret_debug_text(v.credential@));
    lemma_shows_extend("StorageGcsConfig { endpoint: "@ + str_debug_text(v.endpoint_url@) + ", bucket: "@ + str_debug_text(v.bucket@) + ", root: "@ + str_debug_text(v.root@) + ", credential: "@ + secret_debug_text(v.credential@), "endpoint: "@ + str_debug_text(v.endpoint_url@), " }"@);
    lemma_glued_shows("StorageGcsConfig { endpoint: "@ + str_debug_text(v.endpoint_url@), ", bucket: "@, ", "@, "bucket: "@, str_debug_text(v.bucket@));
    lemma_shows_extend("StorageGcsConfig { endpoint: "@ + str_debug_text(v.endpoint_url@) + ", bucket: "@ + str_debug_text(v.bucket@), "bucket: "@ + str_debug_text(v.bucket@), ", root: "@);
    lemma_shows_extend("StorageGcsConfig { endpoint: "@ + str_debug_text(v.endpoint_url@) + ", bucket: "@ + str_debug_text(v.bucket@) + ", root: "@, "bucket: "@ + str_debug_text(v.bucket@), str_debug_text(v.root@));
    lemma_shows_extend("StorageGcsConfig { endpoint: "@ + str_debug_text(v.endpoint_url@) + ", bucket: "@ + str_debug_text(v.bucket@) + ", root: "@ + str_debug_text(v.root@), "bucket: "@ + str_debug_text(v.bucket@), ", credential: "@);
    lemma_shows_extend("StorageGcsConfig { endpoint: "@ + str_debug_text(v.endpoint_url@) + ", bucket: "@ + str_debug_text(v.bucket@) + ", root: "@ + str_debug_text(v.root@) + ", credential: "@, "bucket: "@ + str_debug_text(v.bucket@), secret_debug_text(v.credential@));
    lemma_shows_extend("StorageGcsConfig { endpoint: "@ + str_debug_text(v.endpoint_url@) + ", bucket: "@ + str_debug_text(v.bucket@) + ", root: "@ + str_debug_text(v.root@) + ", credential: "@ + secret_debug_text(v.credential@), "bucket: "@ + str_debug_text(v.bucket@), " }"@);
    lemma_glued_shows("StorageGcsConfig { endpoint: "@ + str_debug_text(v.endpoint_url@) + ", bucket: "@ + str_debug_text(v.bucket@), ", root: "@, ", "@, "root: "@, str_debug_text(v.root@));
    lemma_shows_extend("StorageGcsConfig { endpoint: "@ + str_debug_text(v.endpoint_url@) + ", bucket: "@ + str_debug_text(v.bucket@) + ", root: "@ + str_debug_text(v.root@), "root: "@ + str_debug_text(v.root@), ", credential: "@);
    lemma_shows_extend("StorageGcsConfig { endpoint: "@ + str_debug_text(v.endpoint_url@) + ", bucket: "@ + str_debug_text(v.bucket@) + ", root: "@ + str_debug_text(v.root@) + ", credential: "@, "root: "@ + str_debug_text(v.root@), secret_debug_text(v.credential@));
    lemma_shows_extend("StorageGcsConfig { endpoint: "@ + str_debug_text(v.endpoint_url@) + ", bucket: "@ + str_debug_text(v.bucket@) + ", root: "@ + str_debug_text(v.root@) + ", credential: "@ + secret_debug_text(v.credential@), "root: "@ + str_debug_text(v.root@), " }"@);
    lemma_glued_shows("StorageGcsConfig { endpoint: "@ + str_debug_text(v.endpoint_url@) + ", bucket: "@ + str_debug_text(v.bucket@) + ", root: "@ + str_debug_text(v.root@), ", credential: "@, ", "@, "credential: "@, secret_debug_text(v.credential@));
    lemma_shows_extend("StorageGcsConfig { endpoint: "@ + str_debug_text(v.endpoint_url@) + ", bucket: "@ + str_debug_text(v.bucket@) + ", root: "@ + str_debug_text(v.root@) + ", credential: "@ + secret_debug_text(v.credential@), "credential: "@ + secret_debug_text(v.credential@), " }"@);
}

/// The debug text of a `StorageS3Config` starts with its name and shows every field appears as `key: value`, each secret (`access_key_id`, `secret_access_key`, `security_token`, `master_key`) only in its masked form.
pub proof fn lemma_s3_shows_every_field(v: StorageS3Config)
    ensures
        "StorageS3Config { "@.is_prefix_of(s3_debug_text(v)),
        shows(s3_debug_text(v), "endpoint_url: "@ + str_debug_text(v.endpoint_url@)),
        shows(s3_debug_text(v), "region: "@ + str_debug_text(v.region@)),
        shows(s3_debug_text(v), "bucket: "@ + str_debug_text(v.bucket@)),
        shows(s3_debug_text(v), "root: "@ + str_debug_text(v.root@)),
        shows(s3_debug_text(v), "disable_credential_loader: "@ + bool_debug_text(v.disable_credential_loader)),
        shows(s3_debug_text(v), "enable_virtual_host_style: "@ + bool_debug_text(v.enable_virtual_host_style)),
        shows(s3_debug_text(v), "role_arn: "@ + str_debug_text(v.role_arn@)),
        shows(s3_debug_text(v), "external_id: "@ + str_debug_text(v.external_id@)),
        shows(s3_debug_text(v), "access_key_id: "@ + secret_debug_text(v.access_key_id@)),
        shows(s3_debug_text(v), "secret_access_key: "@ + secret_debug_text(v.secret_access_key@)),
        shows(s3_debug_text(v), "security_token: "@ + secret_debug_text(v.security_token@)),
        shows(s3_debug_text(v), "master_key: "@ + secret_debug_text(v.master_key@)),
{
    let text = s3_debug_text(v);
    assert("StorageS3Config { endpoint_url: "@ == "StorageS3Config { "@ + "endpoint_url: "@) by {
        reveal_strlit("StorageS3Config { endpoint_url: ");
        reveal_strlit("StorageS3Config { ");
        reveal_strlit("endpoint_url: ");
    }
    assert(", region: "@ == ", "@ + "region: "@) by {
        reveal_strlit(", region: ");
        reveal_strlit(", ");
        reveal_strlit("region: ");
    }
    assert(", bucket: "@ == ", "@ + "bucket: "@) by {
        reveal_strlit(", bucket: ");
        reveal_strlit(", ");
        reveal_strlit("bucket: ");
    }
    assert(", root: "@ == ", "@ + "root: "@) by {
        reveal_strlit(", root: ");
        reveal_strlit(", ");
        reveal_strlit("root: ");
    }
    assert(", disable_credential_loader: "@ == ", "@ + "disable_credential_loader: "@) by {
        reveal_strlit(", disable_credential_loader: ");
        reveal_strlit(", ");
        reveal_strlit("disable_credential_loader: ");
    }
    assert(", enable_virtual_host_style: "@ == ", "@ + "enable_virtual_host_style: "@) by {
        reveal_strlit(", enable_virtual_host_style: ");
        reveal_strlit(", ");
        reveal_strlit("enable_virtual_host_style: ");
    }
    assert(", role_arn: "@ == ", "@ + "role_arn: "@) by {
        reveal_strlit(", role_arn: ");
        reveal_strlit(", ");
        reveal_strlit("role_arn: ");
    }
    assert(", external_id: "@ == ", "@ + "external_id: "@) by {
        reveal_strlit(", external_id: ");
        reveal_strlit(", ");
        reveal_strlit("external_id: ");
    }
    assert(", access_key_id: "@ == ", "@ + "access_key_id: "@) by {
        reveal_strlit(", access_key_id: ");
        reveal_strlit(", ");
        reveal_strlit("access_key_id: ");
    }
    assert(", secret_access_key: "@ == ", "@ + "secret_access_key: "@) by {
        reveal_strlit(", secret_access_key: ");
        reveal_strlit(", ");
        reveal_strlit("secret_access_key: ");
    }
    assert(", security_token: "@ == ", "@ + "security_token: "@) by {
        reveal_strlit(", security_token: ");
        reveal_strlit(", ");
        reveal_strlit("security_token: ");
    }
    assert(", master_key: "@ == ", "@ + "master_key: "@) by {
        reveal_strlit(", master_key: ");
        reveal_strlit(", ");
        reveal_strlit("master_key: ");
    }
    lemma_glued_prefix("StorageS3Config { "@, "endpoint_url: "@, str_debug_text(v.endpoint_url@));
    lemma_prefix_extend("StorageS3Config { "@, "StorageS3Config { endpoint_url: "@ + str_debug_text(v.endpoint_url@), ", region: "@);
    lemma_prefix_extend("StorageS3Config { "@, "StorageS3Config { endpoint_url: "@ + str_debug_text(v.endpoint_url@) + ", region: "@, str_debug_text(v.region@));
    lemma_prefix_extend("StorageS3Config { "@, "StorageS3Config { endpoint_url: "@ + str_debug_text(v.endpoint_url@) + ", region: "@ + str_debug_text(v.region@), ", bucket: "@);
    lemma_prefix_extend("StorageS3Config { "@, "StorageS3Config { endpoint_url: "@ + str_debug_text(v.endpoint_url@) + ", region: "@ + str_debug_text(v.region@) + ", bucket: "@, str_debug_text(v.bucket@));
    lemma_prefix_extend("StorageS3Config { "@, "StorageS3Config { endpoint_url: "@ + str_debug_text(v.endpoint_url@) + ", region: "@ + str_debug_text(v.region@) + ", bucket: "@ + str_debug_text(v.bucket@), ", root: "@);
    lemma_prefix_extend("StorageS3Config { "@, "StorageS3Config { endpoint_url: "@ + str_debug_text(v.endpoint_url@) + ", region: "@ + str_debug_text(v.region@) + ", bucket: "@ + str_debug_text(v.bucket@) + ", root: "@, str_debug_text(v.root@));
    lemma_prefix_extend("StorageS3Config { "@, "StorageS3Config { endpoint_url: "@ + str_debug_text(v.endpoint_url@) + ", region: "@ + str_debug_text(v.region@) + ", bucket: "@ + str_debug_text(v.bucket@) + ", root: "@ + str_debug_text(v.root@), ", disable_credential_loader: "@);
    lemma_prefix_extend("StorageS3Config { "@, "StorageS3Config { endpoint_url: "@ + str_debug_text(v.endpoint_url@) + ", region: "@ + str_debug_text(v.region@) + ", bucket: "@ + str_debug_text(v.bucket@) + ", root: "@ + str_debug_text(v.root@) + ", disable_credential_loader: "@, bool_debug_text(v.disable_credential_loader));
    lemma_prefix_extend("StorageS3Config { "@, "StorageS3Config { endpoint_url: "@ + str_debug_text(v.endpoint_url@) + ", region: "@ + str_debug_text(v.region@) + ", bucket: "@ + str_debug_text(v.bucket@) + ", root: "@ + str_debug_text(v.root@) + ", disable_credential_loader: "@ + bool_debug_text(v.disable_credential_loader), ", enable_virtual_host_style: "@);
    lemma_prefix_extend("StorageS3Config { "@, "StorageS3Config { endpoint_url: "@ + str_debug_text(v.endpoint_url@) + ", region: "@ + str_debug_text(v.region@) + ", bucket: "@ + str_debug_text(v.bucket@) + ", root: "@ + str_debug_text(v.root@) + ", disable_credential_loader: "@ + bool_debug_text(v.disable_credential_loader) + ", enable_virtual_host_style: "@, bool_debug_text(v.enable_virtual_host_style));
    lemma_prefix_extend("StorageS3Config { "@, "StorageS3Config { endpoint_url: "@ + str_debug_text(v.endpoint_url@) + ", region: "@ + str_debug_text(v.region@) + ", bucket: "@ + str_debug_text(v.bucket@) + ", root: "@ + str_debug_text(v.root@) + ", disable_credential_loader: "@ + bool_debug_text(v.disable_credential_loader) + ", enable_virtual_host_style: "@ + bool_debug_text(v.enable_virtual_host_style), ", role_arn: "@);
    lemma_prefix_extend("StorageS3Config { "@, "StorageS3Config { endpoint_url: "@ + str_debug_text(v.endpoint_url@) + ", region: "@ + str_debug_text(v.region@) + ", bucket: "@ + str_debug_text(v.bucket@) + ", root: "@ + str_debug_text(v.root@) + ", disable_credential_loader: "@ + bool_debug_text(v.disable_credential_loader) + ", enable_virtual_host_style: "@ + bool_debug_text(v.enable_virtual_host_style) + ", role_arn: "@, str_debug_text(v.role_arn@));
    lemma_prefix_extend("StorageS3Config { "@, "StorageS3Config { endpoint_url: "@ + str_debug_text(v.endpoint_url@) + ", region: "@ + str_debug_text(v.region@) + ", bucket: "@ + str_debug_text(v.bucket@) + ", root: "@ + str_debug_text(v.root@) + ", disable_credential_loader: "@ + bool_debug_text(v.disable_credential_loader) + ", enable_virtual_host_style: "@ + bool_debug_text(v.enable_virtual_host_style) + ", role_arn: "@ + str_debug_text(v.role_arn@), ", external_id: "@);
    lemma_prefix_extend("StorageS3Config { "@, "StorageS3Config { endpoint_url: "@ + str_debug_text(v.endpoint_url@) + ", region: "@ + str_debug_text(v.region@) + ", bucket: "@ + str_debug_text(v.bucket@) + ", root: "@ + str_debug_text(v.root@) + ", disable_credential_loader: "@ + bool_debug_text(v.disable_credential_loader) + ", enable_virtual_host_style: "@ + bool_debug_text(v.enable_virtual_host_style) + ", role_arn: "@ + str_debug_text(v.role_arn@) + ", external_id: "@, str_debug_text(v.external_id@));
    lemma_prefix_extend("StorageS3Config { "@, "StorageS3Config { endpoint_url: "@ + str_debug_text(v.endpoint_url@) + ", region: "@ + str_debug_text(v.region@) + ", bucket: "@ + str_debug_text(v.bucket@) + ", root: "@ + str_debug_text(v.root@) + ", disable_credential_loader: "@ + bool_debug_text(v.disable_credential_loader) + ", enable_virtual_host_style: "@ + bool_debug_text(v.enable_virtual_host_style) + ", role_arn: "@ + str_debug_text(v.role_arn@) + ", external_id: "@ + str_debug_text(v.external_id@), ", access_key_id: "@);
    lemma_prefix_extend("StorageS3Config { "@, "StorageS3Config { endpoint_url: "@ + str_debug_text(v.endpoint_url@) + ", region: "@ + str_debug_text(v.region@) + ", bucket: "@ + str_debug_text(v.bucket@) + ", root: "@ + str_debug_text(v.root@) + ", disable_credential_loader: "@ + bool_debug_text(v.disable_credential_loader) + ", enable_virtual_host_style: "@ + bool_debug_text(v.enable_virtual_host_style) + ", role_arn: "@ + str_debug_text(v.role_arn@) + ", external_id: "@ + str_debug_text(v.external_id@) + ", access_key_id: "@, secret_debug_text(v.access_key_id@));
    lemma_prefix_extend("StorageS3Config { "@, "StorageS3Config { endpoint_url: "@ + str_debug_text(v.endpoint_url@) + ", region: "@ + str_debug_text(v.region@) + ", bucket: "@ + str_debug_text(v.bucket@) + ", root: "@ + str_debug_text(v.root@) + ", disable_credential_loader: "@ + bool_debug_text(v.disable_credential_loader) + ", enable_virtual_host_style: "@ + bool_debug_text(v.enable_virtual_host_style) + ", role_arn: "@ + str_debug_text(v.role_arn@) + ", external_id: "@ + str_debug_text(v.external_id@) + ", access_key_id: "@ + secret_debug_text(v.access_key_id@), ", secret_access_key: "@);
    lemma_prefix_extend("StorageS3Config { "@, "StorageS3Config { endpoint_url: "@ + str_debug_text(v.endpoint_url@) + ", region: "@ + str_debug_text(v.region@) + ", bucket: "@ + str_debug_text(v.bucket@) + ", root: "@ + str_debug_text(v.root@) + ", disable_credential_loader: "@ + bool_debug_text(v.disable_credential_loader) + ", enable_virtual_host_style: "@ + bool_debug_text(v.enable_virtual_host_style) + ", role_arn: "@ + str_debug_text(v.role_arn@) + ", external_id: "@ + str_debug_text(v.external_id@) + ", access_key_id: "@ + secret_debug_text(v.access_key_id@) + ", secret_access_key: "@, secret_debug_text(v.secret_access_key@));
    lemma_prefix_extend("StorageS3Config { "@, "StorageS3Config { endpoint_url: "@ + str_debug_text(v.endpoint_url@) + ", region: "@ + str_debug_text(v.region@) + ", bucket: "@ + str_debug_text(v.bucket@) + ", root: "@ + str_debug_text(v.root@) + ", disable_credential_loader: "@ + bool_debug_text(v.disable_credential_loader) + ", enable_virtual_host_style: "@ + bool_debug_text(v.enable_virtual_host_style) + ", role_arn: "@ + str_debug_text(v.role_arn@) + ", external_id: "@ + str_debug_text(v.external_id@) + ", access_key_id: "@ + secret_debug_text(v.access_key_id@) + ", secret_access_key: "@ + secret_debug_text(v.secret_access_key@), ", security_token: "@);
    lemma_prefix_extend("StorageS3Config { "@, "StorageS3Config { endpoint_url: "@ + str_debug_text(v.endpoint_url@) + ", region: "@ + str_debug_text(v.region@) + ", bucket: "@ + str_debug_text(v.bucket@) + ", root: "@ + str_debug_text(v.root@) + ", disable_credential_loader: "@ + bool_debug_text(v.disable_credential_loader) + ", enable_virtual_host_style: "@ + bool_debug_text(v.enable_virtual_host_style) + ", role_arn: "@ + str_debug_text(v.role_arn@) + ", external_id: "@ + str_debug_text(v.external_id@) + ", access_key_id: "@ + secret_debug_text(v.access_key_id@) + ", secret_access_key: "@ + secret_debug_text(v.secret_access_key@) + ", security_token: "@, secret_debug_text(v.security_token@));
    lemma_prefix_extend("StorageS3Config { "@, "StorageS3Config { endpoint_url: "@ + str_debug_text(v.endpoint_url@) + ", region: "@ + str_debug_text(v.region@) + ", bucket: "@ + str_debug_text(v.bucket@) + ", root: "@ + str_debug_text(v.root@) + ", disable_credential_loader: "@ + bool_debug_text(v.disable_credential_loader) + ", enable_virtual_host_style: "@ + bool_debug_text(v.enable_virtual_host_style) + ", role_arn: "@ + str_debug_text(v.role_arn@) + ", external_id: "@ + str_debug_text(v.external_id@) + ", access_key_id: "@ + secret_debug_text(v.access_key_id@) + ", secret_access_key: "@ + secret_debug_text(v.secret_access_key@) + ", security_token: "@ + secret_debug_text(v.security_token@), ", master_key: "@);
    lemma_prefix_extend("StorageS3Config { "@, "StorageS3Config { endpoint_url: "@ + str_debug_text(v.endpoint_url@) + ", region: "@ + str_debug_text(v.region@) + ", bucket: "@ + str_debug_text(v.bucket@) + ", root: "@ + str_debug_text(v.root@) + ", disable_credential_loader: "@ + bool_debug_text(v.disable_credential_loader) + ", enable_virtual_host_style: "@ + bool_debug_text(v.enable_virtual_host_style) + ", role_arn: "@ + str_debug_text(v.role_arn@) + ", external_id: "@ + str_debug_text(v.external_id@) + ", access_key_id: "@ + secret_debug_text(v.access_key_id@) + ", secret_access_key: "@ + secret_debug_text(v.secret_access_key@) + ", security_token: "@ + secret_debug_text(v.security_token@) + ", master_key: "@, secret_debug_text(v.master_key@));
    lemma_prefix_extend("StorageS3Config { "@, "StorageS3Config { endpoint_url: "@ + str_debug_text(v.endpoint_url@) + ", region: "@ + str_debug_text(v.region@) + ", bucket: "@ + str_debug_text(v.bucket@) + ", root: "@ + str_debug_text(v.root@) + ", disable_credential_loader: "@ + bool_debug_text(v.disable_credential_loader) + ", enable_virtual_host_style: "@ + bool_debug_text(v.enable_virtual_host_style) + ", role_arn: "@ + str_debug_text(v.role_arn@) + ", external_id: "@ + str_debug_text(v.external_id@) + ", access_key_id: "@ + secret_debug_text(v.access_key_id@) + ", secret_access_key: "@ + secret_debug_text(v.secret_access_key@) + ", security_token: "@ + secret_debug_text(v.security_token@) + ", master_key: "@ + secret_debug_text(v.master_key@), " }"@);
    assert(text == "StorageS3Config { endpoint_url: "@ + str_debug_text(v.endpoint_url@) + ", region: "@ + str_debug_text(v.region@) + ", bucket: "@ + str_debug_text(v.bucket@) + ", root: "@ + str_debug_text(v.root@) + ", disable_credential_loader: "@ + bool_debug_text(v.disable_credential_loader) + ", enable_virtual_host_style: "@ + bool_debug_text(v.enable_virtual_host_style) + ", role_arn: "@ + str_debug_text(v.role_arn@) + ", external_id: "@ + str_debug_text(v.external_id@) + ", access_key_id: "@ + secret_debug_text(v.access_key_id@) + ", secret_access_key: "@ + secret_debug_text(v.secret_access_key@) + ", security_token: "@ + secret_debug_text(v.security_token@) + ", master_key: "@ + secret_debug_text(v.master_key@) + " }"@);
    lemma_glued_shows(Seq::<char>::empty(), "StorageS3Config { endpoint_url: "@, "StorageS3Config { "@, "endpoint_url: "@, str_debug_text(v.endpoint_url@));
    assert(Seq::<char>::empty() + "StorageS3Config { endpoint_url: "@ =~= "StorageS3Config { endpoint_url: "@);
    lemma_shows_extend("StorageS3Config { endpoint_url: "@ + str_debug_text(v.endpoint_url@), "endpoint_url: "@ + str_debug_text(v.endpoint_url@), ", region: "@);
    lemma_shows_extend("StorageS3Config { endpoint_url: "@ + str_debug_text(v.endpoint_url@) + ", region: "@, "endpoint_url: "@ + str_debug_text(v.endpoint_url@), str_debug_text(v.region@));
    lemma_shows_extend("StorageS3Config { endpoint_url: "@ + str_debug_text(v.endpoint_url@) + ", region: "@ + str_debug_text(v.region@), "endpoint_url: "@ + str_debug_text(v.endpoint_url@), ", bucket: "@);
    lemma_shows_extend("StorageS3Config { endpoint_url: "@ + str_debug_text(v.endpoint_url@) + ", region: "@ + str_debug_text(v.region@) + ", bucket: "@, "endpoint_url: "@ + str_debug_text(v.endpoint_url@), str_debug_text(v.bucket@));
    lemma_shows_extend("StorageS3Config { endpoint_url: "@ + str_debug_text(v.endpoint_url@) + ", region: "@ + str_debug_text(v.region@) + ", bucket: "@ + str_debug_text(v.bucket@), "endpoint_url: "@ + str_debug_text(v.endpoint_url@), ", root: "@);
    lemma_shows_extend("StorageS3Config { endpoint_url: "@ + str_debug_text(v.endpoint_url@) + ", region: "@ + str_debug_text(v.region@) + ", bucket: "@ + str_debug_text(v.bucket@) + ", root: "@, "endpoint_url: "@ + str_debug_text(v.endpoint_url@), str_debug_text(v.root@));
    lemma_shows_extend("StorageS3Config { endpoint_url: "@ + str_debug_text(v.endpoint_url@) + ", region: "@ + str_debug_text(v.region@) + ", bucket: "@ + str_debug_text(v.bucket@) + ", root: "@ + str_debug_text(v.root@), "endpoint_url: "@ + str_debug_text(v.endpoint_url@), ", disable_credential_loader: "@);
    lemma_shows_extend("StorageS3Config { endpoint_url: "@ + str_debug_text(v.endpoint_url@) + ", region: "@ + str_debug_text(v.region@) + ", bucket: "@ + str_debug_text(v.bucket@) + ", root: "@ + str_debug_text(v.root@) + ", disable_credential_loader: "@, "endpoint_url: "@ + str_debug_text(v.endpoint_url@), bool_debug_text(v.disable_credential_loader));
    lemma_shows_extend("StorageS3Config { endpoint_url: "@ + str_debug_text(v.endpoint_url@) + ", region: "@ + str_debug_text(v.region@) + ", bucket: "@ + str_debug_text(v.bucket@) + ", root: "@ + str_debug_text(v.root@) + ", disable_credential_loader: "@ + bool_debug_text(v.disable_credential_loader), "endpoint_url: "@ + str_debug_text(v.endpoint_url@), ", enable_virtual_host_style: "@);
    lemma_shows_extend("StorageS3Config { endpoint_url: "@ + str_debug_text(v.endpoint_url@) + ", region: "@ + str_debug_text(v.region@) + ", bucket: "@ + str_debug_text(v.bucket@) + ", root: "@ + str_debug_text(v.root@) + ", disable_credential_loader: "@ + bool_debug_text(v.disable_credential_loader) + ", enable_virtual_host_style: "@, "endpoint_url: "@ + str_debug_text(v.endpoint_url@), bool_debug_text(v.enable_virtual_host_style));
    lemma_shows_extend("StorageS3Config { endpoint_url: "@ + str_debug_text(v.endpoint_url@) + ", region: "@ + str_debug_text(v.region@) + ", bucket: "@ + str_debug_text(v.bucket@) + ", root: "@ + str_debug_text(v.root@) + ", disable_credential_loader: "@ + bool_debug_text(v.disable_credential_loader) + ", enable_virtual_host_style: "@ + bool_debug_text(v.enable_virtual_host_style), "endpoint_url: "@ + str_debug_text(v.endpoint_url@), ", role_arn: "@);
    lemma_shows_extend("StorageS3Config { endpoint_url: "@ + str_debug_text(v.endpoint_url@) + ", region: "@ + str_debug_text(v.region@) + ", bucket: "@ + str_debug_text(v.bucket@) + ", root: "@ + str_debug_text(v.root@) + ", disable_credential_loader: "@ + bool_debug_text(v.disable_credential_loader) + ", enable_virtual_host_style: "@ + bool_debug_text(v.enable_virtual_host_style) + ", role_arn: "@, "endpoint_url: "@ + str_debug_text(v.endpoint_url@), str_debug_text(v.role_arn@));
    lemma_shows_extend("StorageS3Config { endpoint_url: "@ + str_debug_text(v.endpoint_url@) + ", region: "@ + str_debug_text(v.region@) + ", bucket: "@ + str_debug_text(v.bucket@) + ", root: "@ + str_debug_text(v.root@) + ", disable_credential_loader: "@ + bool_debug_text(v.disable_credential_loader) + ", enable_virtual_host_style: "@ + bool_debug_text(v.enable_virtual_host_style) + ", role_arn: "@ + str_debug_text(v.role_arn@), "endpoint_url: "@ + str_debug_text(v.endpoint_url@), ", external_id: "@);
    lemma_shows_extend("StorageS3Config { endpoint_url: "@ + str_debug_text(v.endpoint_url@) + ", region: "@ + str_debug_text(v.region@) + ", bucket: "@ + str_debug_text(v.bucket@) + ", root: "@ + str_debug_text(v.root@) + ", disable_credential_loader: "@ + bool_debug_text(v.disable_credential_loader) + ", enable_virtual_host_style: "@ + bool_debug_text(v.enable_virtual_host_style) + ", role_arn: "@ + str_debug_text(v.role_arn@) + ", external_id: "@, "endpoint_url: "@ + str_debug_text(v.endpoint_url@), str_debug_text(v.external_id@));
    lemma_shows_extend("StorageS3Config { endpoint_url: "@ + str_debug_text(v.endpoint_url@) + ", region: "@ + str_debug_text(v.region@) + ", bucket: "@ + str_debug_text(v.bucket@) + ", root: "@ + str_debug_text(v.root@) + ", disable_credential_loader: "@ + bool_debug_text(v.disable_credential_loader) + ", enable_virtual_host_style: "@ + bool_debug_text(v.enable_virtual_host_style) + ", role_arn: "@ + str_debug_text(v.role_arn@) + ", external_id: "@ + str_debug_text(v.external_id@), "endpoint_url: "@ + str_debug_text(v.endpoint_url@), ", access_key_id: "@);
    lemma_shows_extend("StorageS3Config { endpoint_url: "@ + str_debug_text(v.endpoint_url@) + ", region: "@ + str_debug_text(v.region@) + ", bucket: "@ + str_debug_text(v.bucket@) + ", root: "@ + str_debug_text(v.root@) + ", disable_credential_loader: "@ + bool_debug_text(v.disable_credential_loader) + ", enable_virtual_host_style: "@ + bool_debug_text(v.enable_virtual_host_style) + ", role_arn: "@ + str_debug_text(v.role_arn@) + ", external_id: "@ + str_debug_text(v.external_id@) + ", access_key_id: "@, "endpoint_url: "@ + str_debug_text(v.endpoint_url@), secret_debug_text(v.access_key_id@));
    lemma_shows_extend("StorageS3Config { endpoint_url: "@ + str_debug_text(v.endpoint_url@) + ", region: "@ + str_debug_text(v.region@) + ", bucket: "@ + str_debug_text(v.bucket@) + ", root: "@ + str_debug_text(v.root@) + ", disable_credential_loader: "@ + bool_debug_text(v.disable_credential_loader) + ", enable_virtual_host_style: "@ + bool_debug_text(v.enable_virtual_host_style) + ", role_arn: "@ + str_debug_text(v.role_arn@) + ", external_id: "@ + str_debug_text(v.external_id@) + ", access_key_id: "@ + secret_debug_text(v.access_key_id@), "endpoint_url: "@ + str_debug_text(v.endpoint_url@), ", secret_access_key: "@);
    lemma_shows_extend("StorageS3Config { endpoint_url: "@ + str_debug_text(v.endpoint_url@) + ", region: "@ + str_debug_text(v.region@) + ", bucket: "@ + str_debug_text(v.bucket@) + ", root: "@ + str_debug_text(v.root@) + ", disable_credential_loader: "@ + bool_debug_text(v.disable_credential_loader) + ", enable_virtual_host_style: "@ + bool_debug_text(v.enable_virtual_host_style) + ", role_arn: "@ + str_debug_text(v.role_arn@) + ", external_id: "@ + str_debug_text(v.external_id@) + ", access_key_id: "@ + secret_debug_text(v.access_key_id@) + ", secret_access_key: "@, "endpoint_url: "@ + str_debug_text(v.endpoint_url@), secret_debug_text(v.secret_access_key@));
    lemma_shows_extend("StorageS3Config { endpoint_url: "@ + str_debug_text(v.endpoint_url@) + ", region: "@ + str_debug_text(v.region@) + ", bucket: "@ + str_debug_text(v.bucket@) + ", root: "@ + str_debug_text(v.root@) + ", disable_credential_loader: "@ + bool_debug_text(v.disable_credential_loader) + ", enable_virtual_host_style: "@ + bool_debug_text(v.enable_virtual_host_style) + ", role_arn: "@ + str_debug_text(v.role_arn@) + ", external_id: "@ + str_debug_text(v.external_id@) + ", access_key_id: "@ + secret_debug_text(v.access_key_id@) + ", secret_access_key: "@ + secret_debug_text(v.secret_access_key@), "endpoint_url: "@ + str_debug_text(v.endpoint_url@), ", security_token: "@);
    lemma_shows_extend("StorageS3Config { endpoint_url: "@ + str_debug_text(v.endpoint_url@) + ", region: "@ + str_debug_text(v.region@) + ", bucket: "@ + str_debug_text(v.bucket@) + ", root: "@ + str_debug_text(v.root@) + ", disable_credential_loader: "@ + bool_debug_text(v.disable_credential_loader) + ", enable_virtual_host_style: "@ + bool_debug_text(v.enable_virtual_host_style) + ", role_arn: "@ + str_debug_text(v.role_arn@) + ", external_id: "@ + str_debug_text(v.external_id@) + ", access_key_id: "@ + secret_debug_text(v.access_key_id@) + ", secret_access_key: "@ + secret_debug_text(v.secret_access_key@) + ", security_token: "@, "endpoint_url: "@ + str_debug_text(v.endpoint_url@), secret_debug_text(v.security_token@));
    lemma_shows_extend("StorageS3Config { endpoint_url: "@ + str_debug_text(v.endpoint_url@) + ", region: "@ + str_debug_text(v.region@) + ", bucket: "@ + str_debug_text(v.bucket@) + ", root: "@ + str_debug_text(v.root@) + ", disable_credential_loader: "@ + bool_debug_text(v.disable_credential_loader) + ", enable_virtual_host_style: "@ + bool_debug_text(v.enable_virtual_host_style) + ", role_arn: "@ + str_debug_text(v.role_arn@) + ", external_id: "@ + str_debug_text(v.external_id@) + ", access_key_id: "@ + secret_debug_text(v.access_key_id@) + ", secret_access_key: "@ + secret_debug_text(v.secret_access_key@) + ", security_token: "@ + secret_debug_text(v.security_token@), "endpoint_url: "@ + str_debug_text(v.endpoint_url@), ", master_key: "@);
    lemma_shows_extend("StorageS3Config { endpoint_url: "@ + str_debug_text(v.endpoint_url@) + ", region: "@ + str_debug_text(v.region@) + ", bucket: "@ + str_debug_text(v.bucket@) + ", root: "@ + str_debug_text(v.root@) + ", disable_credential_loader: "@ + bool_debug_text(v.disable_credential_loader) + ", enable_virtual_host_style: "@ + bool_debug_text(v.enable_virtual_host_style) + ", role_arn: "@ + str_debug_text(v.role_arn@) + ", external_id: "@ + str_debug_text(v.external_id@) + ", access_key_id: "@ + secret_debug_text(v.access_key_id@) + ", secret_access_key: "@ + secret_debug_text(v.secret_access_key@) + ", security_token: "@ + secret_debug_text(v.security_token@) + ", master_key: "@, "endpoint_url: "@ + str_debug_text(v.endpoint_url@), secret_debug_text(v.master_key@));
    lemma_shows_extend("StorageS3Config { endpoint_url: "@ + str_debug_text(v.endpoint_url@) + ", region: "@ + str_debug_text(v.region@) + ", bucket: "@ + str_debug_text(v.bucket@) + ", root: "@ + str_debug_text(v.root@) + ", disable_credential_loader: "@ + bool_debug_text(v.disable_credential_loader) + ", enable_virtual_host_style: "@ + bool_debug_text(v.enable_virtual_host_style) + ", role_arn: "@ + str_debug_text(v.role_arn@) + ", external_id: "@ + str_debug_text(v.external_id@) + ", access_key_id: "@ + secret_debug_text(v.access_key_id@) + ", secret_access_key: "@ + secret_debug_text(v.secret_access_key@) + ", security_token: "@ + secret_debug_text(v.security_token@) + ", master_key: "@ + secret_debug_text(v.master_key@), "endpoint_url: "@ + str_debug_text(v.endpoint_url@), " }"@);
    lemma_glued_shows("StorageS3Config { endpoint_url: "@ + str_debug_text(v.endpoint_url@), ", region: "@, ", "@, "region: "@, str_debug_text(v.region@));
    lemma_shows_extend("StorageS3Config { endpoint_url: "@ + str_debug_text(v.endpoint_url@) + ", region: "@ + str_debug_text(v.region@), "region: "@ + str_debug_text(v.region@), ", bucket: "@);
    lemma_shows_extend("StorageS3Config { endpoint_url: "@ + str_debug_text(v.endpoint_url@) + ", region: "@ + str_debug_text(v.region@) + ", bucket: "@, "region: "@ + str_debug_text(v.region@), str_debug_text(v.bucket@));
    lemma_shows_extend("StorageS3Config { endpoint_url: "@ + str_debug_text(v.endpoint_url@) + ", region: "@ + str_debug_text(v.region@) + ", bucket: "@ + str_debug_text(v.bucket@), "region: "@ + str_debug_text(v.region@), ", root: "@);
    lemma_shows_extend("StorageS3Config { endpoint_url: "@ + str_debug_text(v.endpoint_url@) + ", region: "@ + str_debug_text(v.region@) + ", bucket: "@ + str_debug_text(v.bucket@) + ", root: "@, "region: "@ + str_debug_text(v.region@), str_debug_text(v.root@));
    lemma_shows_extend("StorageS3Config { endpoint_url: "@ + str_debug_text(v.endpoint_url@) + ", region: "@ + str_debug_text(v.region@) + ", bucket: "@ + str_debug_text(v.bucket@) + ", root: "@ + str_debug_text(v.root@), "region: "@ + str_debug_text(v.region@), ", disable_credential_loader: "@);
    lemma_shows_extend("StorageS3Config { endpoint_url: "@ + str_debug_text(v.endpoint_url@) + ", region: "@ + str_debug_text(v.region@) + ", bucket: "@ + str_debug_text(v.bucket@) + ", root: "@ + str_debug_text(v.root@) + ", disable_credential_loader: "@, "region: "@ + str_debug_text(v.region@), bool_debug_text(v.disable_credential_loader));
    lemma_shows_extend("StorageS3Config { endpoint_url: "@ + str_debug_text(v.endpoint_url@) + ", region: "@ + str_debug_text(v.region@) + ", bucket: "@ + str_debug_text(v.bucket@) + ", root: "@ + str_debug_text(v.root@) + ", disable_credential_loader: "@ + bool_debug_text(v.disable_credential_loader), "region: "@ + str_debug_text(v.region@), ", enable_virtual_host_style: "@);
    lemma_shows_extend("StorageS3Config { endpoint_url: "@ + str_debug_text(v.endpoint_url@) + ", region: "@ + str_debug_text(v.region@) + ", bucket: "@ + str_debug_text(v.bucket@) + ", root: "@ + str_debug_text(v.root@) + ", disable_credential_loader: "@ + bool_debug_text(v.disable_credential_loader) + ", enable_virtual_host_style: "@, "region: "@ + str_debug_text(v.region@), bool_debug_text(v.enable_virtual_host_style));
    lemma_shows_extend("StorageS3Config { endpoint_url: "@ + str_debug_text(v.endpoint_url@) + ", region: "@ + str_debug_text(v.region@) + ", bucket: "@ + str_debug_text(v.bucket@) + ", root: "@ + str_debug_text(v.root@) + ", disable_credential_loader: "@ + bool_debug_text(v.disable_credential_loader) + ", enable_virtual_host_style: "@ + bool_debug_text(v.enable_virtual_host_style), "region: "@ + str_debug_text(v.region@), ", role_arn: "@);
    lemma_shows_extend("StorageS3Config { endpoint_url: "@ + str_debug_text(v.endpoint_url@) + ", region: "@ + str_debug_text(v.region@) + ", bucket: "@ + str_debug_text(v.bucket@) + ", root: "@ + str_debug_text(v.root@) + ", disable_credential_loader: "@ + bool_debug_text(v.disable_credential_loader) + ", enable_virtual_host_style: "@ + bool_debug_text(v.enable_virtual_host_style) + ", role_arn: "@, "region: "@ + str_debug_text(v.region@), str_debug_text(v.role_arn@));
    lemma_shows_extend("StorageS3Config { endpoint_url: "@ + str_debug_text(v.endpoint_url@) + ", region: "@ + str_debug_text(v.region@) + ", bucket: "@ + str_debug_text(v.bucket@) + ", root: "@ + str_debug_text(v.root@) + ", disable_credential_loader: "@ + bool_debug_text(v.disable_credential_loader) + ", enable_virtual_host_style: "@ + bool_debug_text(v.enable_virtual_host_style) + ", role_arn: "@ + str_debug_text(v.role_arn@), "region: "@ + str_debug_text(v.region@), ", external_id: "@);
    lemma_shows_extend("StorageS3Config { endpoint_url: "@ + str_debug_text(v.endpoint_url@) + ", region: "@ + str_debug_text(v.region@) + ", bucket: "@ + str_debug_text(v.bucket@) + ", root: "@ + str_debug_text(v.root@) + ", disable_credential_loader: "@ + bool_debug_text(v.disable_credential_loader) + ", enable_virtual_host_style: "@ + bool_debug_text(v.enable_virtual_host_style) + ", role_arn: "@ + str_debug_text(v.role_arn@) + ", external_id: "@, "region: "@ + str_debug_text(v.region@), str_debug_text(v.external_id@));
    lemma_shows_extend("StorageS3Config { endpoint_url: "@ + str_debug_text(v.endpoint_url@) + ", region: "@ + str_debug_text(v.region@) + ", bucket: "@ + str_debug_text(v.bucket@) + ", root: "@ + str_debug_text(v.root@) + ", disable_credential_loader: "@ + bool_debug_text(v.disable_credential_loader) + ", enable_virtual_host_style: "@ + bool_debug_text(v.enable_virtual_host_style) + ", role_arn: "@ + str_debug_text(v.role_arn@) + ", external_id: "@ + str_debug_text(v.external_id@), "region: "@ + str_debug_text(v.region@), ", access_key_id: "@);
    lemma_shows_extend("StorageS3Config { endpoint_url: "@ + str_debug_text(v.endpoint_url@) + ", region: "@ + str_debug_text(v.region@) + ", bucket: "@ + str_debug_text(v.bucket@) + ", root: "@ + str_debug_text(v.root@) + ", disable_credential_loader: "@ + bool_debug_text(v.disable_credential_loader) + ", enable_virtual_host_style: "@ + bool_debug_text(v.enable_virtual_host_style) + ", role_arn: "@ + str_debug_text(v.role_arn@) + ", external_id: "@ + str_debug_text(v.external_id@) + ", access_key_id: "@, "region: "@ + str_debug_text(v.region@), secret_debug_text(v.access_key_id@));
    lemma_shows_extend("StorageS3Config { endpoint_url: "@ + str_debug_text(v.endpoint_url@) + ", region: "@ + str_debug_text(v.region@) + ", bucket: "@ + str_debug_text(v.bucket@) + ", root: "@ + str_debug_text(v.root@) + ", disable_credential_loader: "@ + bool_debug_text(v.disable_credential_loader) + ", enable_virtual_host_style: "@ + bool_debug_text(v.enable_virtual_host_style) + ", role_arn: "@ + str_debug_text(v.role_arn@) + ", external_id: "@ + str_debug_text(v.external_id@) + ", access_key_id: "@ + secret_debug_text(v.access_key_id@), "region: "@ + str_debug_text(v.region@), ", secret_access_key: "@);
    lemma_shows_extend("StorageS3Config { endpoint_url: "@ + str_debug_text(v.endpoint_url@) + ", region: "@ + str_debug_text(v.region@) + ", bucket: "@ + str_debug_text(v.bucket@) + ", root: "@ + str_debug_text(v.root@) + ", disable_credential_loader: "@ + bool_debug_text(v.disable_credential_loader) + ", enable_virtual_host_style: "@ + bool_debug_text(v.enable_virtual_host_style) + ", role_arn: "@ + str_debug_text(v.role_arn@) + ", external_id: "@ + str_debug_text(v.external_id@) + ", access_key_id: "@ + secret_debug_text(v.access_key_id@) + ", secret_access_key: "@, "region: "@ + str_debug_text(v.region@), secret_debug_text(v.secret_access_key@));
    lemma_shows_extend("StorageS3Config { endpoint_url: "@ + str_debug_text(v.endpoint_url@) + ", region: "@ + str_debug_text(v.region@) + ", bucket: "@ + str_debug_text(v.bucket@) + ", root: "@ + str_debug_text(v.root@) + ", disable_credential_loader: "@ + bool_debug_text(v.disable_credential_loader) + ", enable_virtual_host_style: "@ + bool_debug_text(v.enable_virtual_host_style) + ", role_arn: "@ + str_debug_text(v.role_arn@) + ", external_id: "@ + str_debug_text(v.external_id@) + ", access_key_id: "@ + secret_debug_text(v.access_key_id@) + ", secret_access_key: "@ + secret_debug_text(v.secret_access_key@), "region: "@ + str_debug_text(v.region@), ", security_token: "@);
    lemma_shows_extend("StorageS3Config { endpoint_url: "@ + str_debug_text(v.endpoint_url@) + ", region: "@ + str_debug_text(v.region@) + ", bucket: "@ + str_debug_text(v.bucket@) + ", root: "@ + str_debug_text(v.root@) + ", disable_credential_loader: "@ + bool_debug_text(v.disable_credential_loader) + ", enable_virtual_host_style: "@ + bool_debug_text(v.enable_virtual_host_style) + ", role_arn: "@ + str_debug_text(v.role_arn@) + ", external_id: "@ + str_debug_text(v.external_id@) + ", access_key_id: "@ + secret_debug_text(v.access_key_id@) + ", secret_access_key: "@ + secret_debug_text(v.secret_access_key@) + ", security_token: "@, "region: "@ + str_debug_text(v.region@), secret_debug_text(v.security_token@));
    lemma_shows_extend("StorageS3Config { endpoint_url: "@ + str_debug_text(v.endpoint_url@) + ", region: "@ + str_debug_text(v.region@) + ", bucket: "@ + str_debug_text(v.bucket@) + ", root: "@ + str_debug_text(v.root@) + ", disable_credential_loader: "@ + bool_debug_text(v.disable_credential_loader) + ", enable_virtual_host_style: "@ + bool_debug_text(v.enable_virtual_host_style) + ", role_arn: "@ + str_debug_text(v.role_arn@) + ", external_id: "@ + str_debug_text(v.external_id@) + ", access_key_id: "@ + secret_debug_text(v.access_key_id@) + ", secret_access_key: "@ + secret_debug_text(v.secret_access_key@) + ", security_token: "@ + secret_debug_text(v.security_token@), "region: "@ + str_debug_text(v.region@), ", master_key: "@);
    lemma_shows_extend("StorageS3Config { endpoint_url: "@ + str_debug_text(v.endpoint_url@) + ", region: "@ + str_debug_text(v.region@) + ", bucket: "@ + str_debug_text(v.bucket@) + ", root: "@ + str_debug_text(v.root@) + ", disable_credential_loader: "@ + bool_debug_text(v.disable_credential_loader) + ", enable_virtual_host_style: "@ + bool_debug_text(v.enable_virtual_host_style) + ", role_arn: "@ + str_debug_text(v.role_arn@) + ", external_id: "@ + str_debug_text(v.external_id@) + ", access_key_id: "@ + secret_debug_text(v.access_key_id@) + ", secret_access_key: "@ + secret_debug_text(v.secret_access_key@) + ", security_token: "@ + secret_debug_text(v.security_token@) + ", master_key: "@, "region: "@ + str_debug_text(v.region@), secret_debug_text(v.master_key@));
    lemma_shows_extend("StorageS3Config { endpoint_url: "@ + str_debug_text(v.endpoint_url@) + ", region: "@ + str_debug_text(v.region@) + ", bucket: "@ + str_debug_text(v.bucket@) + ", root: "@ + str_debug_text(v.root@) + ", disable_credential_loader: "@ + bool_debug_text(v.disable_credential_loader) + ", enable_virtual_host_style: "@ + bool_debug_text(v.enable_virtual_host_style) + ", role_arn: "@ + str_debug_text(v.role_arn@) + ", external_id: "@ + str_debug_text(v.external_id@) + ", access_key_id: "@ + secret_debug_text(v.access_key_id@) + ", secret_access_key: "@ + secret_debug_text(v.secret_access_key@) + ", security_token: "@ + secret_debug_text(v.security_token@) + ", master_key: "@ + secret_debug_text(v.master_key@), "region: "@ + str_debug_text(v.region@), " }"@);
    lemma_glued_shows("StorageS3Config { endpoint_url: "@ + str_debug_text(v.endpoint_url@) + ", region: "@ + str_debug_text(v.region@), ", bucket: "@, ", "@, "bucket: "@, str_debug_text(v.bucket@));
    lemma_shows_extend("StorageS3Config { endpoint_url: "@ + str_debug_text(v.endpoint_url@) + ", region: "@ + str_debug_text(v.region@) + ", bucket: "@ + str_debug_text(v.bucket@), "bucket: "@ + str_debug_text(v.bucket@), ", root: "@);
    lemma_shows_extend("StorageS3Config { endpoint_url: "@ + str_debug_text(v.endpoint_url@) + ", region: "@ + str_debug_text(v.region@) + ", bucket: "@ + str_debug_text(v.bucket@) + ", root: "@, "bucket: "@ + str_debug_text(v.bucket@), str_debug_text(v.root@));
    lemma_shows_extend("StorageS3Config { endpoint_url: "@ + str_debug_text(v.endpoint_url@) + ", region: "@ + str_debug_text(v.region@) + ", bucket: "@ + str_debug_text(v.bucket@) + ", root: "@ + str_debug_text(v.root@), "bucket: "@ + str_debug_text(v.bucket@), ", disable_credential_loader: "@);
    lemma_shows_extend("StorageS3Config { endpoint_url: "@ + str_debug_text(v.endpoint_url@) + ", region: "@ + str_debug_text(v.region@) + ", bucket: "@ + str_debug_text(v.bucket@) + ", root: "@ + str_debug_text(v.root@) + ", disable_credential_loader: "@, "bucket: "@ + str_debug_text(v.bucket@), bool_debug_text(v.disable_credential_loader));
    lemma_shows_extend("StorageS3Config { endpoint_url: "@ + str_debug_text(v.endpoint_url@) + ", region: "@ + str_debug_text(v.region@) + ", bucket: "@ + str_debug_text(v.bucket@) + ", root: "@ + str_debug_text(v.root@) + ", disable_credential_loader: "@ + bool_debug_text(v.disable_credential_loader), "bucket: "@ + str_debug_text(v.bucket@), ", enable_virtual_host_style: "@);
    lemma_shows_extend("StorageS3Config { endpoint_url: "@ + str_debug_text(v.endpoint_url@) + ", region: "@ + str_debug_text(v.region@) + ", bucket: "@ + str_debug_text(v.bucket@) + ", root: "@ + str_debug_text(v.root@) + ", disable_credential_loader: "@ + bool_debug_text(v.disable_credential_loader) + ", enable_virtual_host_style: "@, "bucket: "@ + str_debug_text(v.bucket@), bool_debug_text(v.enable_virtual_host_style));
    lemma_shows_extend("StorageS3Config { endpoint_url: "@ + str_debug_text(v.endpoint_url@) + ", region: "@ + str_debug_text(v.region@) + ", bucket: "@ + str_debug_text(v.bucket@) + ", root: "@ + str_debug_text(v.root@) + ", disable_credential_loader: "@ + bool_debug_text(v.disable_credential_loader) + ", enable_virtual_host_style: "@ + bool_debug_text(v.enable_virtual_host_style), "bucket: "@ + str_debug_text(v.bucket@), ", role_arn: "@);
    lemma_shows_extend("StorageS3Config { endpoint_url: "@ + str_debug_text(v.endpoint_url@) + ", region: "@ + str_debug_text(v.region@) + ", bucket: "@ + str_debug_text(v.bucket@) + ", root: "@ + str_debug_text(v.root@) + ", disable_credential_loader: "@ + bool_debug_text(v.disable_credential_loader) + ", enable_virtual_host_style: "@ + bool_debug_text(v.enable_virtual_host_style) + ", role_arn: "@, "bucket: "@ + str_debug_text(v.bucket@), str_debug_text(v.role_arn@));
    lemma_shows_extend("StorageS3Config { endpoint_url: "@ + str_debug_text(v.endpoint_url@) + ", region: "@ + str_debug_text(v.region@) + ", bucket: "@ + str_debug_text(v.bucket@) + ", root: "@ + str_debug_text(v.root@) + ", disable_credential_loader: "@ + bool_debug_text(v.disable_credential_loader) + ", enable_virtual_host_style: "@ + bool_debug_text(v.enable_virtual_host_style) + ", role_arn: "@ + str_debug_text(v.role_arn@), "bucket: "@ + str_debug_text(v.bucket@), ", external_id: "@);
    lemma_shows_extend("StorageS3Config { endpoint_url: "@ + str_debug_text(v.endpoint_url@) + ", region: "@ + str_debug_text(v.region@) + ", bucket: "@ + str_debug_text(v.bucket@) + ", root: "@ + str_debug_text(v.root@) + ", disable_credential_loader: "@ + bool_debug_text(v.disable_credential_loader) + ", enable_virtual_host_style: "@ + bool_debug_text(v.enable_virtual_host_style) + ", role_arn: "@ + str_debug_text(v.role_arn@) + ", external_id: "@, "bucket: "@ + str_debug_text(v.bucket@), str_debug_text(v.external_id@));
    lemma_shows_extend("StorageS3Config { endpoint_url: "@ + str_debug_text(v.endpoint_url@) + ", region: "@ + str_debug_text(v.region@) + ", bucket: "@ + str_debug_text(v.bucket@) + ", root: "@ + str_debug_text(v.root@) + ", disable_credential_loader: "@ + bool_debug_text(v.disable_credential_loader) + ", enable_virtual_host_style: "@ + bool_debug_text(v.enable_virtual_host_style) + ", role_arn: "@ + str_debug_text(v.role_arn@) + ", external_id: "@ + str_debug_text(v.external_id@), "bucket: "@ + str_debug_text(v.bucket@), ", access_key_id: "@);
    lemma_shows_extend("StorageS3Config { endpoint_url: "@ + str_debug_text(v.endpoint_url@) + ", region: "@ + str_debug_text(v.region@) + ", bucket: "@ + str_debug_text(v.bucket@) + ", root: "@ + str_debug_text(v.root@) + ", disable_credential_loader: "@ + bool_debug_text(v.disable_credential_loader) + ", enable_virtual_host_style: "@ + bool_debug_text(v.enable_virtual_host_style) + ", role_arn: "@ + str_debug_text(v.role_arn@) + ", external_id: "@ + str_debug_text(v.external_id@) + ", access_key_id: "@, "bucket: "@ + str_debug_text(v.bucket@), secret_debug_text(v.access_key_id@));
    lemma_shows_extend("StorageS3Config { endpoint_url: "@ + str_debug_text(v.endpoint_url@) + ", region: "@ + str_debug_text(v.region@) + ", bucket: "@ + str_debug_text(v.bucket@) + ", root: "@ + str_debug_text(v.root@) + ", disable_credential_loader: "@ + bool_debug_text(v.disable_credential_loader) + ", enable_virtual_host_style: "@ + bool_debug_text(v.enable_virtual_host_style) + ", role_arn: "@ + str_debug_text(v.role_arn@) + ", external_id: "@ + str_debug_text(v.external_id@) + ", access_key_id: "@ + secret_debug_text(v.access_key_id@), "bucket: "@ + str_debug_text(v.bucket@), ", secret_access_key: "@);
    lemma_shows_extend("StorageS3Config { endpoint_url: "@ + str_debug_text(v.endpoint_url@) + ", region: "@ + str_debug_text(v.region@) + ", bucket: "@ + str_debug_text(v.bucket@) + ", root: "@ + str_debug_text(v.root@) + ", disable_credential_loader: "@ + bool_debug_text(v.disable_credential_loader) + ", enable_virtual_host_style: "@ + bool_debug_text(v.enable_virtual_host_style) + ", role_arn: "@ + str_debug_text(v.role_arn@) + ", external_id: "@ + str_debug_text(v.external_id@) + ", access_key_id: "@ + secret_debug_text(v.access_key_id@) + ", secret_access_key: "@, "bucket: "@ + str_debug_text(v.bucket@), secret_debug_text(v.secret_access_key@));
    lemma_shows_extend("StorageS3Config { endpoint_url: "@ + str_debug_text(v.endpoint_url@) + ", region: "@ + str_debug_text(v.region@) + ", bucket: "@ + str_debug_text(v.bucket@) + ", root: "@ + str_debug_text(v.root@) + ", disable_credential_loader: "@ + bool_debug_text(v.disable_credential_loader) + ", enable_virtual_host_style: "@ + bool_debug_text(v.enable_virtual_host_style) + ", role_arn: "@ + str_debug_text(v.role_arn@) + ", external_id: "@ + str_debug_text(v.external_id@) + ", access_key_id: "@ + secret_debug_text(v.access_key_id@) + ", secret_access_key: "@ + secret_debug_text(v.secret_access_key@), "bucket: "@ + str_debug_text(v.bucket@), ", security_token: "@);
    lemma_shows_extend("StorageS3Config { endpoint_url: "@ + str_debug_text(v.endpoint_url@) + ", region: "@ + str_debug_text(v.region@) + ", bucket: "@ + str_debug_text(v.bucket@) + ", root: "@ + str_debug_text(v.root@) + ", disable_credential_loader: "@ + bool_debug_text(v.disable_credential_loader) + ", enable_virtual_host_style: "@ + bool_debug_text(v.enable_virtual_host_style) + ", role_arn: "@ + str_debug_text(v.role_arn@) + ", external_id: "@ + str_debug_text(v.external_id@) + ", access_key_id: "@ + secret_debug_text(v.access_key_id@) + ", secret_access_key: "@ + secret_debug_text(v.secret_access_key@) + ", security_token: "@, "bucket: "@ + str_debug_text(v.bucket@), secret_debug_text(v.security_token@));
    lemma_shows_extend("StorageS3Config { endpoint_url: "@ + str_debug_text(v.endpoint_url@) + ", region: "@ + str_debug_text(v.region@) + ", bucket: "@ + str_debug_text(v.bucket@) + ", root: "@ + str_debug_text(v.root@) + ", disable_credential_loader: "@ + bool_debug_text(v.disable_credential_loader) + ", enable_virtual_host_style: "@ + bool_debug_text(v.enable_virtual_host_style) + ", role_arn: "@ + str_debug_text(v.role_arn@) + ", external_id: "@ + str_debug_text(v.external_id@) + ", access_key_id: "@ + secret_debug_text(v.access_key_id@) + ", secret_access_key: "@ + secret_debug_text(v.secret_access_key@) + ", security_token: "@ + secret_debug_text(v.security_token@), "bucket: "@ + str_debug_text(v.bucket@), ", master_key: "@);
    lemma_shows_extend("StorageS3Config { endpoint_url: "@ + str_debug_text(v.endpoint_url@) + ", region: "@ + str_debug_text(v.region@) + ", bucket: "@ + str_debug_text(v.bucket@) + ", root: "@ + str_debug_text(v.root@) + ", disable_credential_loader: "@ + bool_debug_text(v.disable_credential_loader) + ", enable_virtual_host_style: "@ + bool_debug_text(v.enable_virtual_host_style) + ", role_arn: "@ + str_debug_text(v.role_arn@) + ", external_id: "@ + str_debug_text(v.external_id@) + ", access_key_id: "@ + secret_debug_text(v.access_key_id@) + ", secret_access_key: "@ + secret_debug_text(v.secret_access_key@) + ", security_token: "@ + secret_debug_text(v.security_token@) + ", master_key: "@, "bucket: "@ + str_debug_text(v.bucket@), secret_debug_text(v.master_key@));
    lemma_shows_extend("StorageS3Config { endpoint_url: "@ + str_debug_text(v.endpoint_url@) + ", region: "@ + str_debug_text(v.region@) + ", bucket: "@ + str_debug_text(v.bucket@) + ", root: "@ + str_debug_text(v.root@) + ", disable_credential_loader: "@ + bool_debug_text(v.disable_credential_loader) + ", enable_virtual_host_style: "@ + bool_debug_text(v.enable_virtual_host_style) + ", role_arn: "@ + str_debug_text(v.role_arn@) + ", external_id: "@ + str_debug_text(v.external_id@) + ", access_key_id: "@ + secret_debug_text(v.access_key_id@) + ", secret_access_key: "@ + secret_debug_text(v.secret_access_key@) + ", security_token: "@ + secret_debug_text(v.security_token@) + ", master_key: "@ + secret_debug_text(v.master_key@), "bucket: "@ + str_debug_text(v.bucket@), " }"@);
    lemma_glued_shows("StorageS3Config { endpoint_url: "@ + str_debug_text(v.endpoint_url@) + ", region: "@ + str_debug_text(v.region@) + ", bucket: "@ + str_debug_text(v.bucket@), ", root: "@, ", "@, "root: "@, str_debug_text(v.root@));
    lemma_shows_extend("StorageS3Config { endpoint_url: "@ + str_debug_text(v.endpoint_url@) + ", region: "@ + str_debug_text(v.region@) + ", bucket: "@ + str_debug_text(v.bucket@) + ", root: "@ + str_debug_text(v.root@), "root: "@ + str_debug_text(v.root@), ", disable_credential_loader: "@);
    lemma_shows_extend("StorageS3Config { endpoint_url: "@ + str_debug_text(v.endpoint_url@) + ", region: "@ + str_debug_text(v.region@) + ", bucket: "@ + str_debug_text(v.bucket@) + ", root: "@ + str_debug_text(v.root@) + ", disable_credential_loader: "@, "root: "@ + str_debug_text(v.root@), bool_debug_text(v.disable_credential_loader));
    lemma_shows_extend("StorageS3Config { endpoint_url: "@ + str_debug_text(v.endpoint_url@) + ", region: "@ + str_debug_text(v.region@) + ", bucket: "@ + str_debug_text(v.bucket@) + ", root: "@ + str_debug_text(v.root@) + ", disable_credential_loader: "@ + bool_debug_text(v.disable_credential_loader), "root: "@ + str_debug_text(v.root@), ", enable_virtual_host_style: "@);
    lemma_shows_extend("StorageS3Config { endpoint_url: "@ + str_debug_text(v.endpoint_url@) + ", region: "@ + str_debug_text(v.region@) + ", bucket: "@ + str_debug_text(v.bucket@) + ", root: "@ + str_debug_text(v.root@) + ", disable_credential_loader: "@ + bool_debug_text(v.disable_credential_loader) + ", enable_virtual_host_style: "@, "root: "@ + str_debug_text(v.root@), bool_debug_text(v.enable_virtual_host_style));
    lemma_shows_extend("StorageS3Config { endpoint_url: "@ + str_debug_text(v.endpoint_url@) + ", region: "@ + str_debug_text(v.region@) + ", bucket: "@ + str_debug_text(v.bucket@) + ", root: "@ + str_debug_text(v.root@) + ", disable_credential_loader: "@ + bool_debug_text(v.disable_credential_loader) + ", enable_virtual_host_style: "@ + bool_debug_text(v.enable_virtual_host_style), "root: "@ + str_debug_text(v.root@), ", role_arn: "@);
    lemma_shows_extend("StorageS3Config { endpoint_url: "@ + str_debug_text(v.endpoint_url@) + ", region: "@ + str_debug_text(v.region@) + ", bucket: "@ + str_debug_text(v.bucket@) + ", root: "@ + str_debug_text(v.root@) + ", disable_credential_loader: "@ + bool_debug_text(v.disable_credential_loader) + ", enable_virtual_host_style: "@ + bool_debug_text(v.enable_virtual_host_style) + ", role_arn: "@, "root: "@ + str_debug_text(v.root@), str_debug_text(v.role_arn@));
    lemma_shows_extend("StorageS3Config { endpoint_url: "@ + str_debug_text(v.endpoint_url@) + ", region: "@ + str_debug_text(v.region@) + ", bucket: "@ + str_debug_text(v.bucket@) + ", root: "@ + str_debug_text(v.root@) + ", disable_credential_loader: "@ + bool_debug_text(v.disable_credential_loader) + ", enable_virtual_host_style: "@ + bool_debug_text(v.enable_virtual_host_style) + ", role_arn: "@ + str_debug_text(v.role_arn@), "root: "@ + str_debug_text(v.root@), ", external_id: "@);
    lemma_shows_extend("StorageS3Config { endpoint_url: "@ + str_debug_text(v.endpoint_url@) + ", region: "@ + str_debug_text(v.region@) + ", bucket: "@ + str_debug_text(v.bucket@) + ", root: "@ + str_debug_text(v.root@) + ", disable_credential_loader: "@ + bool_debug_text(v.disable_credential_loader) + ", enable_virtual_host_style: "@ + bool_debug_text(v.enable_virtual_host_style) + ", role_arn: "@ + str_debug_text(v.role_arn@) + ", external_id: "@, "root: "@ + str_debug_text(v.root@), str_debug_text(v.external_id@));
    lemma_shows_extend("StorageS3Config { endpoint_url: "@ + str_debug_text(v.endpoint_url@) + ", region: "@ + str_debug_text(v.region@) + ", bucket: "@ + str_debug_text(v.bucket@) + ", root: "@ + str_debug_text(v.root@) + ", disable_credential_loader: "@ + bool_debug_text(v.disable_credential_loader) + ", enable_virtual_host_style: "@ + bool_debug_text(v.enable_virtual_host_style) + ", role_arn: "@ + str_debug_text(v.role_arn@) + ", external_id: "@ + str_debug_text(v.external_id@), "root: "@ + str_debug_text(v.root@), ", access_key_id: "@);
    lemma_shows_extend("StorageS3Config { endpoint_url: "@ + str_debug_text(v.endpoint_url@) + ", region: "@ + str_debug_text(v.region@) + ", bucket: "@ + str_debug_text(v.bucket@) + ", root: "@ + str_debug_text(v.root@) + ", disable_credential_loader: "@ + bool_debug_text(v.disable_credential_loader) + ", enable_virtual_host_style: "@ + bool_debug_text(v.enable_virtual_host_style) + ", role_arn: "@ + str_debug_text(v.role_arn@) + ", external_id: "@ + str_debug_text(v.external_id@) + ", access_key_id: "@, "root: "@ + str_debug_text(v.root@), secret_debug_text(v.access_key_id@));
    lemma_shows_extend("StorageS3Config { endpoint_url: "@ + str_debug_text(v.endpoint_url@) + ", region: "@ + str_debug_text(v.region@) + ", bucket: "@ + str_debug_text(v.bucket@) + ", root: "@ + str_debug_text(v.root@) + ", disable_credential_loader: "@ + bool_debug_text(v.disable_credential_loader) + ", enable_virtual_host_style: "@ + bool_debug_text(v.enable_virtual_host_style) + ", role_arn: "@ + str_debug_text(v.role_arn@) + ", external_id: "@ + str_debug_text(v.external_id@) + ", access_key_id: "@ + secret_debug_text(v.access_key_id@), "root: "@ + str_debug_text(v.root@), ", secret_access_key: "@);
    lemma_shows_extend("StorageS3Config { endpoint_url: "@ + str_debug_text(v.endpoint_url@) + ", region: "@ + str_debug_text(v.region@) + ", bucket: "@ + str_debug_text(v.bucket@) + ", root: "@ + str_debug_text(v.root@) + ", disable_credential_loader: "@ + bool_debug_text(v.disable_credential_loader) + ", enable_virtual_host_style: "@ + bool_debug_text(v.enable_virtual_host_style) + ", role_arn: "@ + str_debug_text(v.role_arn@) + ", external_id: "@ + str_debug_text(v.external_id@) + ", access_key_id: "@ + secret_debug_text(v.access_key_id@) + ", secret_access_key: "@, "root: "@ + str_debug_text(v.root@), secret_debug_text(v.secret_access_key@));
    lemma_shows_extend("StorageS3Config { endpoint_url: "@ + str_debug_text(v.endpoint_url@) + ", region: "@ + str_debug_text(v.region@) + ", bucket: "@ + str_debug_text(v.bucket@) + ", root: "@ + str_debug_text(v.root@) + ", disable_credential_loader: "@ + bool_debug_text(v.disable_credential_loader) + ", enable_virtual_host_style: "@ + bool_debug_text(v.enable_virtual_host_style) + ", role_arn: "@ + str_debug_text(v.role_arn@) + ", external_id: "@ + str_debug_text(v.external_id@) + ", access_key_id: "@ + secret_debug_text(v.access_key_id@) + ", secret_access_key: "@ + secret_debug_text(v.secret_access_key@), "root: "@ + str_debug_text(v.root@), ", security_token: "@);
    lemma_shows_extend("StorageS3Config { endpoint_url: "@ + str_debug_text(v.endpoint_url@) + ", region: "@ + str_debug_text(v.region@) + ", bucket: "@ + str_debug_text(v.bucket@) + ", root: "@ + str_debug_text(v.root@) + ", disable_credential_loader: "@ + bool_debug_text(v.disable_credential_loader) + ", enable_virtual_host_style: "@ + bool_debug_text(v.enable_virtual_host_style) + ", role_arn: "@ + str_debug_text(v.role_arn@) + ", external_id: "@ + str_debug_text(v.external_id@) + ", access_key_id: "@ + secret_debug_text(v.access_key_id@) + ", secret_access_key: "@ + secret_debug_text(v.secret_access_key@) + ", security_token: "@, "root: "@ + str_debug_text(v.root@), secret_debug_text(v.security_token@));
    lemma_shows_extend("StorageS3Config { endpoint_url: "@ + str_debug_text(v.endpoint_url@) + ", region: "@ + str_debug_text(v.region@) + ", bucket: "@ + str_debug_text(v.bucket@) + ", root: "@ + str_debug_text(v.root@) + ", disable_credential_loader: "@ + bool_debug_text(v.disable_credential_loader) + ", enable_virtual_host_style: "@ + bool_debug_text(v.enable_virtual_host_style) + ", role_arn: "@ + str_debug_text(v.role_arn@) + ", external_id: "@ + str_debug_text(v.external_id@) + ", access_key_id: "@ + secret_debug_text(v.access_key_id@) + ", secret_access_key: "@ + secret_debug_text(v.secret_access_key@) + ", security_token: "@ + secret_debug_text(v.security_token@), "root: "@ + str_debug_text(v.root@), ", master_key: "@);
    lemma_shows_extend("StorageS3Config { endpoint_url: "@ + str_debug_text(v.endpoint_url@) + ", region: "@ + str_debug_text(v.region@) + ", bucket: "@ + str_debug_text(v.bucket@) + ", root: "@ + str_debug_text(v.root@) + ", disable_credential_loader: "@ + bool_debug_text(v.disable_credential_loader) + ", enable_virtual_host_style: "@ + bool_debug_text(v.enable_virtual_host_style) + ", role_arn: "@ + str_debug_text(v.role_arn@) + ", external_id: "@ + str_debug_text(v.external_id@) + ", access_key_id: "@ + secret_debug_text(v.access_key_id@) + ", secret_access_key: "@ + secret_debug_text(v.secret_access_key@) + ", security_token: "@ + secret_debug_text(v.security_token@) + ", master_key: "@, "root: "@ + str_debug_text(v.root@), secret_debug_text(v.master_key@));
    lemma_shows_extend("StorageS3Config { endpoint_url: "@ + str_debug_text(v.endpoint_url@) + ", region: "@ + str_debug_text(v.region@) + ", bucket: "@ + str_debug_text(v.bucket@) + ", root: "@ + str_debug_text(v.root@) + ", disable_credential_loader: "@ + bool_debug_text(v.disable_credential_loader) + ", enable_virtual_host_style: "@ + bool_debug_text(v.enable_virtual_host_style) + ", role_arn: "@ + str_debug_text(v.role_arn@) + ", external_id: "@ + str_debug_text(v.external_id@) + ", access_key_id: "@ + secret_debug_text(v.access_key_id@) + ", secret_access_key: "@ + secret_debug_text(v.secret_access_key@) + ", security_token: "@ + secret_debug_text(v.security_token@) + ", master_key: "@ + secret_debug_text(v.master_key@), "root: "@ + str_debug_text(v.root@), " }"@);
    lemma_glued_shows("StorageS3Config { endpoint_url: "@ + str_debug_text(v.endpoint_url@) + ", region: "@ + str_debug_text(v.region@) + ", bucket: "@ + str_debug_text(v.bucket@) + ", root: "@ + str_debug_text(v.root@), ", disable_credential_loader: "@, ", "@, "disable_credential_loader: "@, bool_debug_text(v.disable_credential_loader));
    lemma_shows_extend("StorageS3Config { endpoint_url: "@ + str_debug_text(v.endpoint_url@) + ", region: "@ + str_debug_text(v.region@) + ", bucket: "@ + str_debug_text(v.bucket@) + ", root: "@ + str_debug_text(v.root@) + ", disable_credential_loader: "@ + bool_debug_text(v.disable_credential_loader), "disable_credential_loader: "@ + bool_debug_text(v.disable_credential_loader), ", enable_virtual_host_style: "@);
    lemma_shows_extend("StorageS3Config { endpoint_url: "@ + str_debug_text(v.endpoint_url@) + ", region: "@ + str_debug_text(v.region@) + ", bucket: "@ + str_debug_text(v.bucket@) + ", root: "@ + str_debug_text(v.root@) + ", disable_credential_loader: "@ + bool_debug_text(v.disable_credential_loader) + ", enable_virtual_host_style: "@, "disable_credential_loader: "@ + bool_debug_text(v.disable_credential_loader), bool_debug_text(v.enable_virtual_host_style));
    lemma_shows_extend("StorageS3Config { endpoint_url: "@ + str_debug_text(v.endpoint_url@) + ", region: "@ + str_debug_text(v.region@) + ", bucket: "@ + str_debug_text(v.bucket@) + ", root: "@ + str_debug_text(v.root@) + ", disable_credential_loader: "@ + bool_debug_text(v.disable_credential_loader) + ", enable_virtual_host_style: "@ + bool_debug_text(v.enable_virtual_host_style), "disable_credential_loader: "@ + bool_debug_text(v.disable_credential_loader), ", role_arn: "@);
    lemma_shows_extend("StorageS3Config { endpoint_url: "@ + str_debug_text(v.endpoint_url@) + ", region: "@ + str_debug_text(v.region@) + ", bucket: "@ + str_debug_text(v.bucket@) + ", root: "@ + str_debug_text(v.root@) + ", disable_credential_loader: "@ + bool_debug_text(v.disable_credential_loader) + ", enable_virtual_host_style: "@ + bool_debug_text(v.enable_virtual_host_style) + ", role_arn: "@, "disable_credential_loader: "@ + bool_debug_text(v.disable_credential_loader), str_debug_text(v.role_arn@));
    lemma_shows_extend("StorageS3Config { endpoint_url: "@ + str_debug_text(v.endpoint_url@) + ", region: "@ + str_debug_text(v.region@) + ", bucket: "@ + str_debug_text(v.bucket@) + ", root: "@ + str_debug_text(v.root@) + ", disable_credential_loader: "@ + bool_debug_text(v.disable_credential_loader) + ", enable_virtual_host_style: "@ + bool_debug_text(v.enable_virtual_host_style) + ", role_arn: "@ + str_debug_text(v.role_arn@), "disable_credential_loader: "@ + bool_debug_text(v.disable_credential_loader), ", external_id: "@);
    lemma_shows_extend("StorageS3Config { endpoint_url: "@ + str_debug_text(v.endpoint_url@) + ", region: "@ + str_debug_text(v.region@) + ", bucket: "@ + str_debug_text(v.bucket@) + ", root: "@ + str_debug_text(v.root@) + ", disable_credential_loader: "@ + bool_debug_text(v.disable_credential_loader) + ", enable_virtual_host_style: "@ + bool_debug_text(v.enable_virtual_host_style) + ", role_arn: "@ + str_debug_text(v.role_arn@) + ", external_id: "@, "disable_credential_loader: "@ + bool_debug_text(v.disable_credential_loader), str_debug_text(v.external_id@));
    lemma_shows_extend("StorageS3Config { endpoint_url: "@ + str_debug_text(v.endpoint_url@) + ", region: "@ + str_debug_text(v.region@) + ", bucket: "@ + str_debug_text(v.bucket@) + ", root: "@ + str_debug_text(v.root@) + ", disable_credential_loader: "@ + bool_debug_text(v.disable_credential_loader) + ", enable_virtual_host_style: "@ + bool_debug_text(v.enable_virtual_host_style) + ", role_arn: "@ + str_debug_text(v.role_arn@) + ", external_id: "@ + str_debug_text(v.external_id@), "disable_credential_loader: "@ + bool_debug_text(v.disable_credential_loader), ", access_key_id: "@);
    lemma_shows_extend("StorageS3Config { endpoint_url: "@ + str_debug_text(v.endpoint_url@) + ", region: "@ + str_debug_text(v.region@) + ", bucket: "@ + str_debug_text(v.bucket@) + ", root: "@ + str_debug_text(v.root@) + ", disable_credential_loader: "@ + bool_debug_text(v.disable_credential_loader) + ", enable_virtual_host_style: "@ + bool_debug_text(v.enable_virtual_host_style) + ", role_arn: "@ + str_debug_text(v.role_arn@) + ", external_id: "@ + str_debug_text(v.external_id@) + ", access_key_id: "@, "disable_credential_loader: "@ + bool_debug_text(v.disable_credential_loader), secret_debug_text(v.access_key_id@));
    lemma_shows_extend("StorageS3Config { endpoint_url: "@ + str_debug_text(v.endpoint_url@) + ", region: "@ + str_debug_text(v.region@) + ", bucket: "@ + str_debug_text(v.bucket@) + ", root: "@ + str_debug_text(v.root@) + ", disable_credential_loader: "@ + bool_debug_text(v.disable_credential_loader) + ", enable_virtual_host_style: "@ + bool_debug_text(v.enable_virtual_host_style) + ", role_arn: "@ + str_debug_text(v.role_arn@) + ", external_id: "@ + str_debug_text(v.external_id@) + ", access_key_id: "@ + secret_debug_text(v.access_key_id@), "disable_credential_loader: "@ + bool_debug_text(v.disable_credential_loader), ", secret_access_key: "@);
    lemma_shows_extend("StorageS3Config { endpoint_url: "@ + str_debug_text(v.endpoint_url@) + ", region: "@ + str_debug_text(v.region@) + ", bucket: "@ + str_debug_text(v.bucket@) + ", root: "@ + str_debug_text(v.root@) + ", disable_credential_loader: "@ + bool_debug_text(v.disable_credential_loader) + ", enable_virtual_host_style: "@ + bool_debug_text(v.enable_virtual_host_style) + ", role_arn: "@ + str_debug_text(v.role_arn@) + ", external_id: "@ + str_debug_text(v.external_id@) + ", access_key_id: "@ + secret_debug_text(v.access_key_id@) + ", secret_access_key: "@, "disable_credential_loader: "@ + bool_debug_text(v.disable_credential_loader), secret_debug_text(v.secret_access_key@));
    lemma_shows_extend("StorageS3Config { endpoint_url: "@ + str_debug_text(v.endpoint_url@) + ", region: "@ + str_debug_text(v.region@) + ", bucket: "@ + str_debug_text(v.bucket@) + ", root: "@ + str_debug_text(v.root@) + ", disable_credential_loader: "@ + bool_debug_text(v.disable_credential_loader) + ", enable_virtual_host_style: "@ + bool_debug_text(v.enable_virtual_host_style) + ", role_arn: "@ + str_debug_text(v.role_arn@) + ", external_id: "@ + str_debug_text(v.external_id@) + ", access_key_id: "@ + secret_debug_text(v.access_key_id@) + ", secret_access_key: "@ + secret_debug_text(v.secret_access_key@), "disable_credential_loader: "@ + bool_debug_text(v.disable_credential_loader), ", security_token: "@);
    lemma_shows_extend("StorageS3Config { endpoint_url: "@ + str_debug_text(v.endpoint_url@) + ", region: "@ + str_debug_text(v.region@) + ", bucket: "@ + str_debug_text(v.bucket@) + ", root: "@ + str_debug_text(v.root@) + ", disable_credential_loader: "@ + bool_debug_text(v.disable_credential_loader) + ", enable_virtual_host_style: "@ + bool_debug_text(v.enable_virtual_host_style) + ", role_arn: "@ + str_debug_text(v.role_arn@) + ", external_id: "@ + str_debug_text(v.external_id@) + ", access_key_id: "@ + secret_debug_text(v.access_key_id@) + ", secret_access_key: "@ + secret_debug_text(v.secret_access_key@) + ", security_token: "@, "disable_credential_loader: "@ + bool_debug_text(v.disable_credential_loader), secret_debug_text(v.security_token@));
    lemma_shows_extend("StorageS3Config { endpoint_url: "@ + str_debug_text(v.endpoint_url@) + ", region: "@ + str_debug_text(v.region@) + ", bucket: "@ + str_debug_text(v.bucket@) + ", root: "@ + str_debug_text(v.root@) + ", disable_credential_loader: "@ + bool_debug_text(v.disable_credential_loader) + ", enable_virtual_host_style: "@ + bool_debug_text(v.enable_virtual_host_style) + ", role_arn: "@ + str_debug_text(v.role_arn@) + ", external_id: "@ + str_debug_text(v.external_id@) + ", access_key_id: "@ + secret_debug_text(v.access_key_id@) + ", secret_access_key: "@ + secret_debug_text(v.secret_access_key@) + ", security_token: "@ + secret_debug_text(v.security_token@), "disable_credential_loader: "@ + bool_debug_text(v.disable_credential_loader), ", master_key: "@);
    lemma_shows_extend("StorageS3Config { endpoint_url: "@ + str_debug_text(v.endpoint_url@) + ", region: "@ + str_debug_text(v.region@) + ", bucket: "@ + str_debug_text(v.bucket@) + ", root: "@ + str_debug_text(v.root@) + ", disable_credential_loader: "@ + bool_debug_text(v.disable_credential_loader) + ", enable_virtual_host_style: "@ + bool_debug_text(v.enable_virtual_host_style) + ", role_arn: "@ + str_debug_text(v.role_arn@) + ", external_id: "@ + str_debug_text(v.external_id@) + ", access_key_id: "@ + secret_debug_text(v.access_key_id@) + ", secret_access_key: "@ + secret_debug_text(v.secret_access_key@) + ", security_token: "@ + secret_debug_text(v.security_token@) + ", master_key: "@, "disable_credential_loader: "@ + bool_debug_text(v.disable_credential_loader), secret_debug_text(v.master_key@));
    lemma_shows_extend("StorageS3Config { endpoint_url: "@ + str_debug_text(v.endpoint_url@) + ", region: "@ + str_debug_text(v.region@) + ", bucket: "@ + str_debug_text(v.bucket@) + ", root: "@ + str_debug_text(v.root@) + ", disable_credential_loader: "@ + bool_debug_text(v.disable_credential_loader) + ", enable_virtual_host_style: "@ + bool_debug_text(v.enable_virtual_host_style) + ", role_arn: "@ + str_debug_text(v.role_arn@) + ", external_id: "@ + str_debug_text(v.external_id@) + ", access_key_id: "@ + secret_debug_text(v.access_key_id@) + ", secret_access_key: "@ + secret_debug_text(v.secret_access_key@) + ", security_token: "@ + secret_debug_text(v.security_token@) + ", master_key: "@ + secret_debug_text(v.master_key@), "disable_credential_loader: "@ + bool_debug_text(v.disable_credential_loader), " }"@);
    lemma_glued_shows("StorageS3Config { endpoint_url: "@ + str_debug_text(v.endpoint_url@) + ", region: "@ + str_debug_text(v.region@) + ", bucket: "@ + str_debug_text(v.bucket@) + ", root: "@ + str_debug_text(v.root@) + ", disable_credential_loader: "@ + bool_debug_text(v.disable_credential_loader), ", enable_virtual_host_style: "@, ", "@, "enable_virtual_host_style: "@, bool_debug_text(v.enable_virtual_host_style));
    lemma_shows_extend("StorageS3Config { endpoint_url: "@ + str_debug_text(v.endpoint_url@) + ", region: "@ + str_debug_text(v.region@) + ", bucket: "@ + str_debug_text(v.bucket@) + ", root: "@ + str_debug_text(v.root@) + ", disable_credential_loader: "@ + bool_debug_text(v.disable_credential_loader) + ", enable_virtual_host_style: "@ + bool_debug_text(v.enable_virtual_host_style), "enable_virtual_host_style: "@ + bool_debug_text(v.enable_virtual_host_style), ", role_arn: "@);
    lemma_shows_extend("StorageS3Config { endpoint_url: "@ + str_debug_text(v.endpoint_url@) + ", region: "@ + str_debug_text(v.region@) + ", bucket: "@ + str_debug_text(v.bucket@) + ", root: "@ + str_debug_text(v.root@) + ", disable_credential_loader: "@ + bool_debug_text(v.disable_credential_loader) + ", enable_virtual_host_style: "@ + bool_debug_text(v.enable_virtual_host_style) + ", role_arn: "@, "enable_virtual_host_style: "@ + bool_debug_text(v.enable_virtual_host_style), str_debug_text(v.role_arn@));
    lemma_shows_extend("StorageS3Config { endpoint_url: "@ + str_debug_text(v.endpoint_url@) + ", region: "@ + str_debug_text(v.region@) + ", bucket: "@ + str_debug_text(v.bucket@) + ", root: "@ + str_debug_text(v.root@) + ", disable_credential_loader: "@ + bool_debug_text(v.disable_credential_loader) + ", enable_virtual_host_style: "@ + bool_debug_text(v.enable_virtual_host_style) + ", role_arn: "@ + str_debug_text(v.role_arn@), "enable_virtual_host_style: "@ + bool_debug_text(v.enable_virtual_host_style), ", external_id: "@);
    lemma_shows_extend("StorageS3Config { endpoint_url: "@ + str_debug_text(v.endpoint_url@) + ", region: "@ + str_debug_text(v.region@) + ", bucket: "@ + str_debug_text(v.bucket@) + ", root: "@ + str_debug_text(v.root@) + ", disable_credential_loader: "@ + bool_debug_text(v.disable_credential_loader) + ", enable_virtual_host_style: "@ + bool_debug_text(v.enable_virtual_host_style) + ", role_arn: "@ + str_debug_text(v.role_arn@) + ", external_id: "@, "enable_virtual_host_style: "@ + bool_debug_text(v.enable_virtual_host_style), str_debug_text(v.external_id@));
    lemma_shows_extend("StorageS3Config { endpoint_url: "@ + str_debug_text(v.endpoint_url@) + ", region: "@ + str_debug_text(v.region@) + ", bucket: "@ + str_debug_text(v.bucket@) + ", root: "@ + str_debug_text(v.root@) + ", disable_credential_loader: "@ + bool_debug_text(v.disable_credential_loader) + ", enable_virtual_host_style: "@ + bool_debug_text(v.enable_virtual_host_style) + ", role_arn: "@ + str_debug_text(v.role_arn@) + ", external_id: "@ + str_debug_text(v.external_id@), "enable_virtual_host_style: "@ + bool_debug_text(v.enable_virtual_host_style), ", access_key_id: "@);
    lemma_shows_extend("StorageS3Config { endpoint_url: "@ + str_debug_text(v.endpoint_url@) + ", region: "@ + str_debug_text(v.region@) + ", bucket: "@ + str_debug_text(v.bucket@) + ", root: "@ + str_debug_text(v.root@) + ", disable_credential_loader: "@ + bool_debug_text(v.disable_credential_loader) + ", enable_virtual_host_style: "@ + bool_debug_text(v.enable_virtual_host_style) + ", role_arn: "@ + str_debug_text(v.role_arn@) + ", external_id: "@ + str_debug_text(v.external_id@) + ", access_key_id: "@, "enable_virtual_host_style: "@ + bool_debug_text(v.enable_virtual_host_style), secret_debug_text(v.access_key_id@));
    lemma_shows_extend("StorageS3Config { endpoint_url: "@ + str_debug_text(v.endpoint_url@) + ", region: "@ + str_debug_text(v.region@) + ", bucket: "@ + str_debug_text(v.bucket@) + ", root: "@ + str_debug_text(v.root@) + ", disable_credential_loader: "@ + bool_debug_text(v.disable_credential_loader) + ", enable_virtual_host_style: "@ + bool_debug_text(v.enable_virtual_host_style) + ", role_arn: "@ + str_debug_text(v.role_arn@) + ", external_id: "@ + str_debug_text(v.external_id@) + ", access_key_id: "@ + secret_debug_text(v.access_key_id@), "enable_virtual_host_style: "@ + bool_debug_text(v.enable_virtual_host_style), ", secret_access_key: "@);
    lemma_shows_extend("StorageS3Config { endpoint_url: "@ + str_debug_text(v.endpoint_url@) + ", region: "@ + str_debug_text(v.region@) + ", bucket: "@ + str_debug_text(v.bucket@) + ", root: "@ + str_debug_text(v.root@) + ", disable_credential_loader: "@ + bool_debug_text(v.disable_credential_loader) + ", enable_virtual_host_style: "@ + bool_debug_text(v.enable_virtual_host_style) + ", role_arn: "@ + str_debug_text(v.role_arn@) + ", external_id: "@ + str_debug_text(v.external_id@) + ", access_key_id: "@ + secret_debug_text(v.access_key_id@) + ", secret_access_key: "@, "enable_virtual_host_style: "@ + bool_debug_text(v.enable_virtual_host_style), secret_debug_text(v.secret_access_key@));
    lemma_shows_extend("StorageS3Config { endpoint_url: "@ + str_debug_text(v.endpoint_url@) + ", region: "@ + str_debug_text(v.region@) + ", bucket: "@ + str_debug_text(v.bucket@) + ", root: "@ + str_debug_text(v.root@) + ", disable_credential_loader: "@ + bool_debug_text(v.disable_credential_loader) + ", enable_virtual_host_style: "@ + bool_debug_text(v.enable_virtual_host_style) + ", role_arn: "@ + str_debug_text(v.role_arn@) + ", external_id: "@ + str_debug_text(v.external_id@) + ", access_key_id: "@ + secret_debug_text(v.access_key_id@) + ", secret_access_key: "@ + secret_debug_text(v.secret_access_key@), "enable_virtual_host_style: "@ + bool_debug_text(v.enable_virtual_host_style), ", security_token: "@);
    lemma_shows_extend("StorageS3Config { endpoint_url: "@ + str_debug_text(v.endpoint_url@) + ", region: "@ + str_debug_text(v.region@) + ", bucket: "@ + str_debug_text(v.bucket@) + ", root: "@ + str_debug_text(v.root@) + ", disable_credential_loader: "@ + bool_debug_text(v.disable_credential_loader) + ", enable_virtual_host_style: "@ + bool_debug_text(v.enable_virtual_host_style) + ", role_arn: "@ + str_debug_text(v.role_arn@) + ", external_id: "@ + str_debug_text(v.external_id@) + ", access_key_id: "@ + secret_debug_text(v.access_key_id@) + ", secret_access_key: "@ + secret_debug_text(v.secret_access_key@) + ", security_token: "@, "enable_virtual_host_style: "@ + bool_debug_text(v.enable_virtual_host_style), secret_debug_text(v.security_token@));
    lemma_shows_extend("StorageS3Config { endpoint_url: "@ + str_debug_text(v.endpoint_url@) + ", region: "@ + str_debug_text(v.region@) + ", bucket: "@ + str_debug_text(v.bucket@) + ", root: "@ + str_debug_text(v.root@) + ", disable_credential_loader: "@ + bool_debug_text(v.disable_credential_loader) + ", enable_virtual_host_style: "@ + bool_debug_text(v.enable_virtual_host_style) + ", role_arn: "@ + str_debug_text(v.role_arn@) + ", external_id: "@ + str_debug_text(v.external_id@) + ", access_key_id: "@ + secret_debug_text(v.access_key_id@) + ", secret_access_key: "@ + secret_debug_text(v.secret_access_key@) + ", security_token: "@ + secret_debug_text(v.security_token@), "enable_virtual_host_style: "@ + bool_debug_text(v.enable_virtual_host_style), ", master_key: "@);
    lemma_shows_extend("StorageS3Config { endpoint_url: "@ + str_debug_text(v.endpoint_url@) + ", region: "@ + str_debug_text(v.region@) + ", bucket: "@ + str_debug_text(v.bucket@) + ", root: "@ + str_debug_text(v.root@) + ", disable_credential_loader: "@ + bool_debug_text(v.disable_credential_loader) + ", enable_virtual_host_style: "@ + bool_debug_text(v.enable_virtual_host_style) + ", role_arn: "@ + str_debug_text(v.role_arn@) + ", external_id: "@ + str_debug_text(v.external_id@) + ", access_key_id: "@ + secret_debug_text(v.access_key_id@) + ", secret_access_key: "@ + secret_debug_text(v.secret_access_key@) + ", security_token: "@ + secret_debug_text(v.security_token@) + ", master_key: "@, "enable_virtual_host_style: "@ + bool_debug_text(v.enable_virtual_host_style), secret_debug_text(v.master_key@));
    lemma_shows_extend("StorageS3Config { endpoint_url: "@ + str_debug_text(v.endpoint_url@) + ", region: "@ + str_debug_text(v.region@) + ", bucket: "@ + str_debug_text(v.bucket@) + ", root: "@ + str_debug_text(v.root@) + ", disable_credential_loader: "@ + bool_debug_text(v.disable_credential_loader) + ", enable_virtual_host_style: "@ + bool_debug_text(v.enable_virtual_host_style) + ", role_arn: "@ + str_debug_text(v.role_arn@) + ", external_id: "@ + str_debug_text(v.external_id@) + ", access_key_id: "@ + secret_debug_text(v.access_key_id@) + ", secret_access_key: "@ + secret_debug_text(v.secret_access_key@) + ", security_token: "@ + secret_debug_text(v.security_token@) + ", master_key: "@ + secret_debug_text(v.master_key@), "enable_virtual_host_style: "@ + bool_debug_text(v.enable_virtual_host_style), " }"@);
    lemma_glued_shows("StorageS3Config { endpoint_url: "@ + str_debug_text(v.endpoint_url@) + ", region: "@ + str_debug_text(v.region@) + ", bucket: "@ + str_debug_text(v.bucket@) + ", root: "@ + str_debug_text(v.root@) + ", disable_credential_loader: "@ + bool_debug_text(v.disable_credential_loader) + ", enable_virtual_host_style: "@ + bool_debug_text(v.enable_virtual_host_style), ", role_arn: "@, ", "@, "role_arn: "@, str_debug_text(v.role_arn@));
    lemma_shows_extend("StorageS3Config { endpoint_url: "@ + str_debug_text(v.endpoint_url@) + ", region: "@ + str_debug_text(v.region@) + ", bucket: "@ + str_debug_text(v.bucket@) + ", root: "@ + str_debug_text(v.root@) + ", disable_credential_loader: "@ + bool_debug_text(v.disable_credential_loader) + ", enable_virtual_host_style: "@ + bool_debug_text(v.enable_virtual_host_style) + ", role_arn: "@ + str_debug_text(v.role_arn@), "role_arn: "@ + str_debug_text(v.role_arn@), ", external_id: "@);
    lemma_shows_extend("StorageS3Config { endpoint_url: "@ + str_debug_text(v.endpoint_url@) + ", region: "@ + str_debug_text(v.region@) + ", bucket: "@ + str_debug_text(v.bucket@) + ", root: "@ + str_debug_text(v.root@) + ", disable_credential_loader: "@ + bool_debug_text(v.disable_credential_loader) + ", enable_virtual_host_style: "@ + bool_debug_text(v.enable_virtual_host_style) + ", role_arn: "@ + str_debug_text(v.role_arn@) + ", external_id: "@, "role_arn: "@ + str_debug_text(v.role_arn@), str_debug_text(v.external_id@));
    lemma_shows_extend("StorageS3Config { endpoint_url: "@ + str_debug_text(v.endpoint_url@) + ", region: "@ + str_debug_text(v.region@) + ", bucket: "@ + str_debug_text(v.bucket@) + ", root: "@ + str_debug_text(v.root@) + ", disable_credential_loader: "@ + bool_debug_text(v.disable_credential_loader) + ", enable_virtual_host_style: "@ + bool_debug_text(v.enable_virtual_host_style) + ", role_arn: "@ + str_debug_text(v.role_arn@) + ", external_id: "@ + str_debug_text(v.external_id@), "role_arn: "@ + str_debug_text(v.role_arn@), ", access_key_id: "@);
    lemma_shows_extend("StorageS3Config { endpoint_url: "@ + str_debug_text(v.endpoint_url@) + ", region: "@ + str_debug_text(v.region@) + ", bucket: "@ + str_debug_text(v.bucket@) + ", root: "@ + str_debug_text(v.root@) + ", disable_credential_loader: "@ + bool_debug_text(v.disable_credential_loader) + ", enable_virtual_host_style: "@ + bool_debug_text(v.enable_virtual_host_style) + ", role_arn: "@ + str_debug_text(v.role_arn@) + ", external_id: "@ + str_debug_text(v.external_id@) + ", access_key_id: "@, "role_arn: "@ + str_debug_text(v.role_arn@), secret_debug_text(v.access_key_id@));
    lemma_shows_extend("StorageS3Config { endpoint_url: "@ + str_debug_text(v.endpoint_url@) + ", region: "@ + str_debug_text(v.region@) + ", bucket: "@ + str_debug_text(v.bucket@) + ", root: "@ + str_debug_text(v.root@) + ", disable_credential_loader: "@ + bool_debug_text(v.disable_credential_loader) + ", enable_virtual_host_style: "@ + bool_debug_text(v.enable_virtual_host_style) + ", role_arn: "@ + str_debug_text(v.role_arn@) + ", external_id: "@ + str_debug_text(v.external_id@) + ", access_key_id: "@ + secret_debug_text(v.access_key_id@), "role_arn: "@ + str_debug_text(v.role_arn@), ", secret_access_key: "@);
    lemma_shows_extend("StorageS3Config { endpoint_url: "@ + str_debug_text(v.endpoint_url@) + ", region: "@ + str_debug_text(v.region@) + ", bucket: "@ + str_debug_text(v.bucket@) + ", root: "@ + str_debug_text(v.root@) + ", disable_credential_loader: "@ + bool_debug_text(v.disable_credential_loader) + ", enable_virtual_host_style: "@ + bool_debug_text(v.enable_virtual_host_style) + ", role_arn: "@ + str_debug_text(v.role_arn@) + ", external_id: "@ + str_debug_text(v.external_id@) + ", access_key_id: "@ + secret_debug_text(v.access_key_id@) + ", secret_access_key: "@, "role_arn: "@ + str_debug_text(v.role_arn@), secret_debug_text(v.secret_access_key@));
    lemma_shows_extend("StorageS3Config { endpoint_url: "@ + str_debug_text(v.endpoint_url@) + ", region: "@ + str_debug_text(v.region@) + ", bucket: "@ + str_debug_text(v.bucket@) + ", root: "@ + str_debug_text(v.root@) + ", disable_credential_loader: "@ + bool_debug_text(v.disable_credential_loader) + ", enable_virtual_host_style: "@ + bool_debug_text(v.enable_virtual_host_style) + ", role_arn: "@ + str_debug_text(v.role_arn@) + ", external_id: "@ + str_debug_text(v.external_id@) + ", access_key_id: "@ + secret_debug_text(v.access_key_id@) + ", secret_access_key: "@ + secret_debug_text(v.secret_access_key@), "role_arn: "@ + str_debug_text(v.role_arn@), ", security_token: "@);
    lemma_shows_extend("StorageS3Config { endpoint_url: "@ + str_debug_text(v.endpoint_url@) + ", region: "@ + str_debug_text(v.region@) + ", bucket: "@ + str_debug_text(v.bucket@) + ", root: "@ + str_debug_text(v.root@) + ", disable_credential_loader: "@ + bool_debug_text(v.disable_credential_loader) + ", enable_virtual_host_style: "@ + bool_debug_text(v.enable_virtual_host_style) + ", role_arn: "@ + str_debug_text(v.role_arn@) + ", external_id: "@ + str_debug_text(v.external_id@) + ", access_key_id: "@ + secret_debug_text(v.access_key_id@) + ", secret_access_key: "@ + secret_debug_text(v.secret_access_key@) + ", security_token: "@, "role_arn: "@ + str_debug_text(v.role_arn@), secret_debug_text(v.security_token@));
    lemma_shows_extend("StorageS3Config { endpoint_url: "@ + str_debug_text(v.endpoint_url@) + ", region: "@ + str_debug_text(v.region@) + ", bucket: "@ + str_debug_text(v.bucket@) + ", root: "@ + str_debug_text(v.root@) + ", disable_credential_loader: "@ + bool_debug_text(v.disable_credential_loader) + ", enable_virtual_host_style: "@ + bool_debug_text(v.enable_virtual_host_style) + ", role_arn: "@ + str_debug_text(v.role_arn@) + ", external_id: "@ + str_debug_text(v.external_id@) + ", access_key_id: "@ + secret_debug_text(v.access_key_id@) + ", secret_access_key: "@ + secret_debug_text(v.secret_access_key@) + ", security_token: "@ + secret_debug_text(v.security_token@), "role_arn: "@ + str_debug_text(v.role_arn@), ", master_key: "@);
    lemma_shows_extend("StorageS3Config { endpoint_url: "@ + str_debug_text(v.endpoint_url@) + ", region: "@ + str_debug_text(v.region@) + ", bucket: "@ + str_debug_text(v.bucket@) + ", root: "@ + str_debug_text(v.root@) + ", disable_credential_loader: "@ + bool_debug_text(v.disable_credential_loader) + ", enable_virtual_host_style: "@ + bool_debug_text(v.enable_virtual_host_style) + ", role_arn: "@ + str_debug_text(v.role_arn@) + ", external_id: "@ + str_debug_text(v.external_id@) + ", access_key_id: "@ + secret_debug_text(v.access_key_id@) + ", secret_access_key: "@ + secret_debug_text(v.secret_access_key@) + ", security_token: "@ + secret_debug_text(v.security_token@) + ", master_key: "@, "role_arn: "@ + str_debug_text(v.role_arn@), secret_debug_text(v.master_key@));
    lemma_shows_extend("StorageS3Config { endpoint_url: "@ + str_debug_text(v.endpoint_url@) + ", region: "@ + str_debug_text(v.region@) + ", bucket: "@ + str_debug_text(v.bucket@) + ", root: "@ + str_debug_text(v.root@) + ", disable_credential_loader: "@ + bool_debug_text(v.disable_credential_loader) + ", enable_virtual_host_style: "@ + bool_debug_text(v.enable_virtual_host_style) + ", role_arn: "@ + str_debug_text(v.role_arn@) + ", external_id: "@ + str_debug_text(v.external_id@) + ", access_key_id: "@ + secret_debug_text(v.access_key_id@) + ", secret_access_key: "@ + secret_debug_text(v.secret_access_key@) + ", security_token: "@ + secret_debug_text(v.security_token@) + ", master_key: "@ + secret_debug_text(v.master_key@), "role_arn: "@ + str_debug_text(v.role_arn@), " }"@);
    lemma_glued_shows("StorageS3Config { endpoint_url: "@ + str_debug_text(v.endpoint_url@) + ", region: "@ + str_debug_text(v.region@) + ", bucket: "@ + str_debug_text(v.bucket@) + ", root: "@ + str_debug_text(v.root@) + ", disable_credential_loader: "@ + bool_debug_text(v.disable_credential_loader) + ", enable_virtual_host_style: "@ + bool_debug_text(v.enable_virtual_host_style) + ", role_arn: "@ + str_debug_text(v.role_arn@), ", external_id: "@, ", "@, "external_id: "@, str_debug_text(v.external_id@));
    lemma_shows_extend("StorageS3Config { endpoint_url: "@ + str_debug_text(v.endpoint_url@) + ", region: "@ + str_debug_text(v.region@) + ", bucket: "@ + str_debug_text(v.bucket@) + ", root: "@ + str_debug_text(v.root@) + ", disable_credential_loader: "@ + bool_debug_text(v.disable_credential_loader) + ", enable_virtual_host_style: "@ + bool_debug_text(v.enable_virtual_host_style) + ", role_arn: "@ + str_debug_text(v.role_arn@) + ", external_id: "@ + str_debug_text(v.external_id@), "external_id: "@ + str_debug_text(v.external_id@), ", access_key_id: "@);
    lemma_shows_extend("StorageS3Config { endpoint_url: "@ + str_debug_text(v.endpoint_url@) + ", region: "@ + str_debug_text(v.region@) + ", bucket: "@ + str_debug_text(v.bucket@) + ", root: "@ + str_debug_text(v.root@) + ", disable_credential_loader: "@ + bool_debug_text(v.disable_credential_loader) + ", enable_virtual_host_style: "@ + bool_debug_text(v.enable_virtual_host_style) + ", role_arn: "@ + str_debug_text(v.role_arn@) + ", external_id: "@ + str_debug_text(v.external_id@) + ", access_key_id: "@, "external_id: "@ + str_debug_text(v.external_id@), secret_debug_text(v.access_key_id@));
    lemma_shows_extend("StorageS3Config { endpoint_url: "@ + str_debug_text(v.endpoint_url@) + ", region: "@ + str_debug_text(v.region@) + ", bucket: "@ + str_debug_text(v.bucket@) + ", root: "@ + str_debug_text(v.root@) + ", disable_credential_loader: "@ + bool_debug_text(v.disable_credential_loader) + ", enable_virtual_host_style: "@ + bool_debug_text(v.enable_virtual_host_style) + ", role_arn: "@ + str_debug_text(v.role_arn@) + ", external_id: "@ + str_debug_text(v.external_id@) + ", access_key_id: "@ + secret_debug_text(v.access_key_id@), "external_id: "@ + str_debug_text(v.external_id@), ", secret_access_key: "@);
    lemma_shows_extend("StorageS3Config { endpoint_url: "@ + str_debug_text(v.endpoint_url@) + ", region: "@ + str_debug_text(v.region@) + ", bucket: "@ + str_debug_text(v.bucket@) + ", root: "@ + str_debug_text(v.root@) + ", disable_credential_loader: "@ + bool_debug_text(v.disable_credential_loader) + ", enable_virtual_host_style: "@ + bool_debug_text(v.enable_virtual_host_style) + ", role_arn: "@ + str_debug_text(v.role_arn@) + ", external_id: "@ + str_debug_text(v.external_id@) + ", access_key_id: "@ + secret_debug_text(v.access_key_id@) + ", secret_access_key: "@, "external_id: "@ + str_debug_text(v.external_id@), secret_debug_text(v.secret_access_key@));
    lemma_shows_extend("StorageS3Config { endpoint_url: "@ + str_debug_text(v.endpoint_url@) + ", region: "@ + str_debug_text(v.region@) + ", bucket: "@ + str_debug_text(v.bucket@) + ", root: "@ + str_debug_text(v.root@) + ", disable_credential_loader: "@ + bool_debug_text(v.disable_credential_loader) + ", enable_virtual_host_style: "@ + bool_debug_text(v.enable_virtual_host_style) + ", role_arn: "@ + str_debug_text(v.role_arn@) + ", external_id: "@ + str_debug_text(v.external_id@) + ", access_key_id: "@ + secret_debug_text(v.access_key_id@) + ", secret_access_key: "@ + secret_debug_text(v.secret_access_key@), "external_id: "@ + str_debug_text(v.external_id@), ", security_token: "@);
    lemma_shows_extend("StorageS3Config { endpoint_url: "@ + str_debug_text(v.endpoint_url@) + ", region: "@ + str_debug_text(v.region@) + ", bucket: "@ + str_debug_text(v.bucket@) + ", root: "@ + str_debug_text(v.root@) + ", disable_credential_loader: "@ + bool_debug_text(v.disable_credential_loader) + ", enable_virtual_host_style: "@ + bool_debug_text(v.enable_virtual_host_style) + ", role_arn: "@ + str_debug_text(v.role_arn@) + ", external_id: "@ + str_debug_text(v.external_id@) + ", access_key_id: "@ + secret_debug_text(v.access_key_id@) + ", secret_access_key: "@ + secret_debug_text(v.secret_access_key@) + ", security_token: "@, "external_id: "@ + str_debug_text(v.external_id@), secret_debug_text(v.security_token@));
    lemma_shows_extend("StorageS3Config { endpoint_url: "@ + str_debug_text(v.endpoint_url@) + ", region: "@ + str_debug_text(v.region@) + ", bucket: "@ + str_debug_text(v.bucket@) + ", root: "@ + str_debug_text(v.root@) + ", disable_credential_loader: "@ + bool_debug_text(v.disable_credential_loader) + ", enable_virtual_host_style: "@ + bool_debug_text(v.enable_virtual_host_style) + ", role_arn: "@ + str_debug_text(v.role_arn@) + ", external_id: "@ + str_debug_text(v.external_id@) + ", access_key_id: "@ + secret_debug_text(v.access_key_id@) + ", secret_access_key: "@ + secret_debug_text(v.secret_access_key@) + ", security_token: "@ + secret_debug_text(v.security_token@), "external_id: "@ + str_debug_text(v.external_id@), ", master_key: "@);
    lemma_shows_extend("StorageS3Config { endpoint_url: "@ + str_debug_text(v.endpoint_url@) + ", region: "@ + str_debug_text(v.region@) + ", bucket: "@ + str_debug_text(v.bucket@) + ", root: "@ + str_debug_text(v.root@) + ", disable_credential_loader: "@ + bool_debug_text(v.disable_credential_loader) + ", enable_virtual_host_style: "@ + bool_debug_text(v.enable_virtual_host_style) + ", role_arn: "@ + str_debug_text(v.role_arn@) + ", external_id: "@ + str_debug_text(v.external_id@) + ", access_key_id: "@ + secret_debug_text(v.access_key_id@) + ", secret_access_key: "@ + secret_debug_text(v.secret_access_key@) + ", security_token: "@ + secret_debug_text(v.security_token@) + ", master_key: "@, "external_id: "@ + str_debug_text(v.external_id@), secret_debug_text(v.master_key@));
    lemma_shows_extend("StorageS3Config { endpoint_url: "@ + str_debug_text(v.endpoint_url@) + ", region: "@ + str_debug_text(v.region@) + ", bucket: "@ + str_debug_text(v.bucket@) + ", root: "@ + str_debug_text(v.root@) + ", disable_credential_loader: "@ + bool_debug_text(v.disable_credential_loader) + ", enable_virtual_host_style: "@ + bool_debug_text(v.enable_virtual_host_style) + ", role_arn: "@ + str_debug_text(v.role_arn@) + ", external_id: "@ + str_debug_text(v.external_id@) + ", access_key_id: "@ + secret_debug_text(v.access_key_id@) + ", secret_access_key: "@ + secret_debug_text(v.secret_access_key@) + ", security_token: "@ + secret_debug_text(v.security_token@) + ", master_key: "@ + secret_debug_text(v.master_key@), "external_id: "@ + str_debug_text(v.external_id@), " }"@);
    lemma_glued_shows("StorageS3Config { endpoint_url: "@ + str_debug_text(v.endpoint_url@) + ", region: "@ + str_debug_text(v.region@) + ", bucket: "@ + str_debug_text(v.bucket@) + ", root: "@ + str_debug_text(v.root@) + ", disable_credential_loader: "@ + bool_debug_text(v.disable_credential_loader) + ", enable_virtual_host_style: "@ + bool_debug_text(v.enable_virtual_host_style) + ", role_arn: "@ + str_debug_text(v.role_arn@) + ", external_id: "@ + str_debug_text(v.external_id@), ", access_key_id: "@, ", "@, "access_key_id: "@, secret_debug_text(v.access_key_id@));
    lemma_shows_extend("StorageS3Config { endpoint_url: "@ + str_debug_text(v.endpoint_url@) + ", region: "@ + str_debug_text(v.region@) + ", bucket: "@ + str_debug_text(v.bucket@) + ", root: "@ + str_debug_text(v.root@) + ", disable_credential_loader: "@ + bool_debug_text(v.disable_credential_loader) + ", enable_virtual_host_style: "@ + bool_debug_text(v.enable_virtual_host_style) + ", role_arn: "@ + str_debug_text(v.role_arn@) + ", external_id: "@ + str_debug_text(v.external_id@) + ", access_key_id: "@ + secret_debug_text(v.access_key_id@), "access_key_id: "@ + secret_debug_text(v.access_key_id@), ", secret_access_key: "@);
    lemma_shows_extend("StorageS3Config { endpoint_url: "@ + str_debug_text(v.endpoint_url@) + ", region: "@ + str_debug_text(v.region@) + ", bucket: "@ + str_debug_text(v.bucket@) + ", root: "@ + str_debug_text(v.root@) + ", disable_credential_loader: "@ + bool_debug_text(v.disable_credential_loader) + ", enable_virtual_host_style: "@ + bool_debug_text(v.enable_virtual_host_style) + ", role_arn: "@ + str_debug_text(v.role_arn@) + ", external_id: "@ + str_debug_text(v.external_id@) + ", access_key_id: "@ + secret_debug_text(v.access_key_id@) + ", secret_access_key: "@, "access_key_id: "@ + secret_debug_text(v.access_key_id@), secret_debug_text(v.secret_access_key@));
    lemma_shows_extend("StorageS3Config { endpoint_url: "@ + str_debug_text(v.endpoint_url@) + ", region: "@ + str_debug_text(v.region@) + ", bucket: "@ + str_debug_text(v.bucket@) + ", root: "@ + str_debug_text(v.root@) + ", disable_credential_loader: "@ + bool_debug_text(v.disable_credential_loader) + ", enable_virtual_host_style: "@ + bool_debug_text(v.enable_virtual_host_style) + ", role_arn: "@ + str_debug_text(v.role_arn@) + ", external_id: "@ + str_debug_text(v.external_id@) + ", access_key_id: "@ + secret_debug_text(v.access_key_id@) + ", secret_access_key: "@ + secret_debug_text(v.secret_access_key@), "access_key_id: "@ + secret_debug_text(v.access_key_id@), ", security_token: "@);
    lemma_shows_extend("StorageS3Config { endpoint_url: "@ + str_debug_text(v.endpoint_url@) + ", region: "@ + str_debug_text(v.region@) + ", bucket: "@ + str_debug_text(v.bucket@) + ", root: "@ + str_debug_text(v.root@) + ", disable_credential_loader: "@ + bool_debug_text(v.disable_credential_loader) + ", enable_virtual_host_style: "@ + bool_debug_text(v.enable_virtual_host_style) + ", role_arn: "@ + str_debug_text(v.role_arn@) + ", external_id: "@ + str_debug_text(v.external_id@) + ", access_key_id: "@ + secret_debug_text(v.access_key_id@) + ", secret_access_key: "@ + secret_debug_text(v.secret_access_key@) + ", security_token: "@, "access_key_id: "@ + secret_debug_text(v.access_key_id@), secret_debug_text(v.security_token@));
    lemma_shows_extend("StorageS3Config { endpoint_url: "@ + str_debug_text(v.endpoint_url@) + ", region: "@ + str_debug_text(v.region@) + ", bucket: "@ + str_debug_text(v.bucket@) + ", root: "@ + str_debug_text(v.root@) + ", disable_credential_loader: "@ + bool_debug_text(v.disable_credential_loader) + ", enable_virtual_host_style: "@ + bool_debug_text(v.enable_virtual_host_style) + ", role_arn: "@ + str_debug_text(v.role_arn@) + ", external_id: "@ + str_debug_text(v.external_id@) + ", access_key_id: "@ + secret_debug_text(v.access_key_id@) + ", secret_access_key: "@ + secret_debug_text(v.secret_access_key@) + ", security_token: "@ + secret_debug_text(v.security_token@), "access_key_id: "@ + secret_debug_text(v.access_key_id@), ", master_key: "@);
    lemma_shows_extend("StorageS3Config { endpoint_url: "@ + str_debug_text(v.endpoint_url@) + ", region: "@ + str_debug_text(v.region@) + ", bucket: "@ + str_debug_text(v.bucket@) + ", root: "@ + str_debug_text(v.root@) + ", disable_credential_loader: "@ + bool_debug_text(v.disable_credential_loader) + ", enable_virtual_host_style: "@ + bool_debug_text(v.enable_virtual_host_style) + ", role_arn: "@ + str_debug_text(v.role_arn@) + ", external_id: "@ + str_debug_text(v.external_id@) + ", access_key_id: "@ + secret_debug_text(v.access_key_id@) + ", secret_access_key: "@ + secret_debug_text(v.secret_access_key@) + ", security_token: "@ + secret_debug_text(v.security_token@) + ", master_key: "@, "access_key_id: "@ + secret_debug_text(v.access_key_id@), secret_debug_text(v.master_key@));
    lemma_shows_extend("StorageS3Config { endpoint_url: "@ + str_debug_text(v.endpoint_url@) + ", region: "@ + str_debug_text(v.region@) + ", bucket: "@ + str_debug_text(v.bucket@) + ", root: "@ + str_debug_text(v.root@) + ", disable_credential_loader: "@ + bool_debug_text(v.disable_credential_loader) + ", enable_virtual_host_style: "@ + bool_debug_text(v.enable_virtual_host_style) + ", role_arn: "@ + str_debug_text(v.role_arn@) + ", external_id: "@ + str_debug_text(v.external_id@) + ", access_key_id: "@ + secret_debug_text(v.access_key_id@) + ", secret_access_key: "@ + secret_debug_text(v.secret_access_key@) + ", security_token: "@ + secret_debug_text(v.security_token@) + ", master_key: "@ + secret_debug_text(v.master_key@), "access_key_id: "@ + secret_debug_text(v.access_key_id@), " }"@);
    lemma_glued_shows("StorageS3Config { endpoint_url: "@ + str_debug_text(v.endpoint_url@) + ", region: "@ + str_debug_text(v.region@) + ", bucket: "@ + str_debug_text(v.bucket@) + ", root: "@ + str_debug_text(v.root@) + ", disable_credential_loader: "@ + bool_debug_text(v.disable_credential_loader) + ", enable_virtual_host_style: "@ + bool_debug_text(v.enable_virtual_host_style) + ", role_arn: "@ + str_debug_text(v.role_arn@) + ", external_id: "@ + str_debug_text(v.external_id@) + ", access_key_id: "@ + secret_debug_text(v.access_key_id@), ", secret_access_key: "@, ", "@, "secret_access_key: "@, secret_debug_text(v.secret_access_key@));
    lemma_shows_extend("StorageS3Config { endpoint_url: "@ + str_debug_text(v.endpoint_url@) + ", region: "@ + str_debug_text(v.region@) + ", bucket: "@ + str_debug_text(v.bucket@) + ", root: "@ + str_debug_text(v.root@) + ", disable_credential_loader: "@ + bool_debug_text(v.disable_credential_loader) + ", enable_virtual_host_style: "@ + bool_debug_text(v.enable_virtual_host_style) + ", role_arn: "@ + str_debug_text(v.role_arn@) + ", external_id: "@ + str_debug_text(v.external_id@) + ", access_key_id: "@ + secret_debug_text(v.access_key_id@) + ", secret_access_key: "@ + secret_debug_text(v.secret_access_key@), "secret_access_key: "@ + secret_debug_text(v.secret_access_key@), ", security_token: "@);
    lemma_shows_extend("StorageS3Config { endpoint_url: "@ + str_debug_text(v.endpoint_url@) + ", region: "@ + str_debug_text(v.region@) + ", bucket: "@ + str_debug_text(v.bucket@) + ", root: "@ + str_debug_text(v.root@) + ", disable_credential_loader: "@ + bool_debug_text(v.disable_credential_loader) + ", enable_virtual_host_style: "@ + bool_debug_text(v.enable_virtual_host_style) + ", role_arn: "@ + str_debug_text(v.role_arn@) + ", external_id: "@ + str_debug_text(v.external_id@) + ", access_key_id: "@ + secret_debug_text(v.access_key_id@) + ", secret_access_key: "@ + secret_debug_text(v.secret_access_key@) + ", security_token: "@, "secret_access_key: "@ + secret_debug_text(v.secret_access_key@), secret_debug_text(v.security_token@));
    lemma_shows_extend("StorageS3Config { endpoint_url: "@ + str_debug_text(v.endpoint_url@) + ", region: "@ + str_debug_text(v.region@) + ", bucket: "@ + str_debug_text(v.bucket@) + ", root: "@ + str_debug_text(v.root@) + ", disable_credential_loader: "@ + bool_debug_text(v.disable_credential_loader) + ", enable_virtual_host_style: "@ + bool_debug_text(v.enable_virtual_host_style) + ", role_arn: "@ + str_debug_text(v.role_arn@) + ", external_id: "@ + str_debug_text(v.external_id@) + ", access_key_id: "@ + secret_debug_text(v.access_key_id@) + ", secret_access_key: "@ + secret_debug_text(v.secret_access_key@) + ", security_token: "@ + secret_debug_text(v.security_token@), "secret_access_key: "@ + secret_debug_text(v.secret_access_key@), ", master_key: "@);
    lemma_shows_extend("StorageS3Config { endpoint_url: "@ + str_debug_text(v.endpoint_url@) + ", region: "@ + str_debug_text(v.region@) + ", bucket: "@ + str_debug_text(v.bucket@) + ", root: "@ + str_debug_text(v.root@) + ", disable_credential_loader: "@ + bool_debug_text(v.disable_credential_loader) + ", enable_virtual_host_style: "@ + bool_debug_text(v.enable_virtual_host_style) + ", role_arn: "@ + str_debug_text(v.role_arn@) + ", external_id: "@ + str_debug_text(v.external_id@) + ", access_key_id: "@ + secret_debug_text(v.access_key_id@) + ", secret_access_key: "@ + secret_debug_text(v.secret_access_key@) + ", security_token: "@ + secret_debug_text(v.security_token@) + ", master_key: "@, "secret_access_key: "@ + secret_debug_text(v.secret_access_key@), secret_debug_text(v.master_key@));
    lemma_shows_extend("StorageS3Config { endpoint_url: "@ + str_debug_text(v.endpoint_url@) + ", region: "@ + str_debug_text(v.region@) + ", bucket: "@ + str_debug_text(v.bucket@) + ", root: "@ + str_debug_text(v.root@) + ", disable_credential_loader: "@ + bool_debug_text(v.disable_credential_loader) + ", enable_virtual_host_style: "@ + bool_debug_text(v.enable_virtual_host_style) + ", role_arn: "@ + str_debug_text(v.role_arn@) + ", external_id: "@ + str_debug_text(v.external_id@) + ", access_key_id: "@ + secret_debug_text(v.access_key_id@) + ", secret_access_key: "@ + secret_debug_text(v.secret_access_key@) + ", security_token: "@ + secret_debug_text(v.security_token@) + ", master_key: "@ + secret_debug_text(v.master_key@), "secret_access_key: "@ + secret_debug_text(v.secret_access_key@), " }"@);
    lemma_glued_shows("StorageS3Config { endpoint_url: "@ + str_debug_text(v.endpoint_url@) + ", region: "@ + str_debug_text(v.region@) + ", bucket: "@ + str_debug_text(v.bucket@) + ", root: "@ + str_debug_text(v.root@) + ", disable_credential_loader: "@ + bool_debug_text(v.disable_credential_loader) + ", enable_virtual_host_style: "@ + bool_debug_text(v.enable_virtual_host_style) + ", role_arn: "@ + str_debug_text(v.role_arn@) + ", external_id: "@ + str_debug_text(v.external_id@) + ", access_key_id: "@ + secret_debug_text(v.access_key_id@) + ", secret_access_key: "@ + secret_debug_text(v.secret_access_key@), ", security_token: "@, ", "@, "security_token: "@, secret_debug_text(v.security_token@));
    lemma_shows_extend("StorageS3Config { endpoint_url: "@ + str_debug_text(v.endpoint_url@) + ", region: "@ + str_debug_text(v.region@) + ", bucket: "@ + str_debug_text(v.bucket@) + ", root: "@ + str_debug_text(v.root@) + ", disable_credential_loader: "@ + bool_debug_text(v.disable_credential_loader) + ", enable_virtual_host_style: "@ + bool_debug_text(v.enable_virtual_host_style) + ", role_arn: "@ + str_debug_text(v.role_arn@) + ", external_id: "@ + str_debug_text(v.external_id@) + ", access_key_id: "@ + secret_debug_text(v.access_key_id@) + ", secret_access_key: "@ + secret_debug_text(v.secret_access_key@) + ", security_token: "@ + secret_debug_text(v.security_token@), "security_token: "@ + secret_debug_text(v.security_token@), ", master_key: "@);
    lemma_shows_extend("StorageS3Config { endpoint_url: "@ + str_debug_text(v.endpoint_url@) + ", region: "@ + str_debug_text(v.region@) + ", bucket: "@ + str_debug_text(v.bucket@) + ", root: "@ + str_debug_text(v.root@) + ", disable_credential_loader: "@ + bool_debug_text(v.disable_credential_loader) + ", enable_virtual_host_style: "@ + bool_debug_text(v.enable_virtual_host_style) + ", role_arn: "@ + str_debug_text(v.role_arn@) + ", external_id: "@ + str_debug_text(v.external_id@) + ", access_key_id: "@ + secret_debug_text(v.access_key_id@) + ", secret_access_key: "@ + secret_debug_text(v.secret_access_key@) + ", security_token: "@ + secret_debug_text(v.security_token@) + ", master_key: "@, "security_token: "@ + secret_debug_text(v.security_token@), secret_debug_text(v.master_key@));
    lemma_shows_extend("StorageS3Config { endpoint_url: "@ + str_debug_text(v.endpoint_url@) + ", region: "@ + str_debug_text(v.region@) + ", bucket: "@ + str_debug_text(v.bucket@) + ", root: "@ + str_debug_text(v.root@) + ", disable_credential_loader: "@ + bool_debug_text(v.disable_credential_loader) + ", enable_virtual_host_style: "@ + bool_debug_text(v.enable_virtual_host_style) + ", role_arn: "@ + str_debug_text(v.role_arn@) + ", external_id: "@ + str_debug_text(v.external_id@) + ", access_key_id: "@ + secret_debug_text(v.access_key_id@) + ", secret_access_key: "@ + secret_debug_text(v.secret_access_key@) + ", security_token: "@ + secret_debug_text(v.security_token@) + ", master_key: "@ + secret_debug_text(v.master_key@), "security_token: "@ + secret_debug_text(v.security_token@), " }"@);
    lemma_glued_shows("StorageS3Config { endpoint_url: "@ + str_debug_text(v.endpoint_url@) + ", region: "@ + str_debug_text(v.region@) + ", bucket: "@ + str_debug_text(v.bucket@) + ", root: "@ + str_debug_text(v.root@) + ", disable_credential_loader: "@ + bool_debug_text(v.disable_credential_loader) + ", enable_virtual_host_style: "@ + bool_debug_text(v.enable_virtual_host_style) + ", role_arn: "@ + str_debug_text(v.role_arn@) + ", external_id: "@ + str_debug_text(v.external_id@) + ", access_key_id: "@ + secret_debug_text(v.access_key_id@) + ", secret_access_key: "@ + secret_debug_text(v.secret_access_key@) + ", security_token: "@ + secret_debug_text(v.security_token@), ", master_key: "@, ", "@, "master_key: "@, secret_debug_text(v.master_key@));
    lemma_shows_extend("StorageS3Config { endpoint_url: "@ + str_debug_text(v.endpoint_url@) + ", region: "@ + str_debug_text(v.region@) + ", bucket: "@ + str_debug_text(v.bucket@) + ", root: "@ + str_debug_text(v.root@) + ", disable_credential_loader: "@ + bool_debug_text(v.disable_credential_loader) + ", enable_virtual_host_style: "@ + bool_debug_text(v.enable_virtual_host_style) + ", role_arn: "@ + str_debug_text(v.role_arn@) + ", external_id: "@ + str_debug_text(v.external_id@) + ", access_key_id: "@ + secret_debug_text(v.access_key_id@) + ", secret_access_key: "@ + secret_debug_text(v.secret_access_key@) + ", security_token: "@ + secret_debug_text(v.security_token@) + ", master_key: "@ + secret_debug_text(v.master_key@), "master_key: "@ + secret_debug_text(v.master_key@), " }"@);
}

/// The debug text of a `StorageObsConfig` starts with its name and shows every field appears as `key: value`, each secret (`access_key_id`, `secret_access_key`) only in its masked form.
pub proof fn lemma_obs_shows_every_field(v: StorageObsConfig)
    ensures
        "StorageObsConfig { "@.is_prefix_of(obs_debug_text(v)),
        shows(obs_debug_text(v), "endpoint_url: "@ + str_debug_text(v.endpoint_url@)),
        shows(obs_debug_text(v), "bucket: "@ + str_debug_text(v.bucket@)),
        shows(obs_debug_text(v), "root: "@ + str_debug_text(v.root@)),
        shows(obs_debug_text(v), "access_key_id: "@ + secret_debug_text(v.access_key_id@)),
        shows(obs_debug_text(v), "secret_access_key: "@ + secret_debug_text(v.secret_access_key@)),
{
    let text = obs_debug_text(v);
    assert("StorageObsConfig { endpoint_url: "@ == "StorageObsConfig { "@ + "endpoint_url: "@) by {
        reveal_strlit("StorageObsConfig { endpoint_url: ");
        reveal_strlit("StorageObsConfig { ");
        reveal_strlit("endpoint_url: ");
    }
    assert(", bucket: "@ == ", "@ + "bucket: "@) by {
        reveal_strlit(", bucket: ");
        reveal_strlit(", ");
        reveal_strlit("bucket: ");
    }
    assert(", root: "@ == ", "@ + "root: "@) by {
        reveal_strlit(", root: ");
        reveal_strlit(", ");
        reveal_strlit("root: ");
    }
    assert(", access_key_id: "@ == ", "@ + "access_key_id: "@) by {
        reveal_strlit(", access_key_id: ");
        reveal_strlit(", ");
        reveal_strlit("access_key_id: ");
    }
    assert(", secret_access_key: "@ == ", "@ + "secret_access_key: "@) by {
        reveal_strlit(", secret_access_key: ");
        reveal_strlit(", ");
        reveal_strlit("secret_access_key: ");
    }
    lemma_glued_prefix("StorageObsConfig { "@, "endpoint_url: "@, str_debug_text(v.endpoint_url@));
    lemma_prefix_extend("StorageObsConfig { "@, "StorageObsConfig { endpoint_url: "@ + str_debug_text(v.endpoint_url@), ", bucket: "@);
    lemma_prefix_extend("StorageObsConfig { "@, "StorageObsConfig { endpoint_url: "@ + str_debug_text(v.endpoint_url@) + ", bucket: "@, str_debug_text(v.bucket@));
    lemma_prefix_extend("StorageObsConfig { "@, "StorageObsConfig { endpoint_url: "@ + str_debug_text(v.endpoint_url@) + ", bucket: "@ + str_debug_text(v.bucket@), ", root: "@);
    lemma_prefix_extend("StorageObsConfig { "@, "StorageObsConfig { endpoint_url: "@ + str_debug_text(v.endpoint_url@) + ", bucket: "@ + str_debug_text(v.bucket@) + ", root: "@, str_debug_text(v.root@));
    lemma_prefix_extend("StorageObsConfig { "@, "StorageObsConfig { endpoint_url: "@ + str_debug_text(v.endpoint_url@) + ", bucket: "@ + str_debug_text(v.bucket@) + ", root: "@ + str_debug_text(v.root@), ", access_key_id: "@);
    lemma_prefix_extend("StorageObsConfig { "@, "StorageObsConfig { endpoint_url: "@ + str_debug_text(v.endpoint_url@) + ", bucket: "@ + str_debug_text(v.bucket@) + ", root: "@ + str_debug_text(v.root@) + ", access_key_id: "@, secret_debug_text(v.access_key_id@));
    lemma_prefix_extend("StorageObsConfig { "@, "StorageObsConfig { endpoint_url: "@ + str_debug_text(v.endpoint_url@) + ", bucket: "@ + str_debug_text(v.bucket@) + ", root: "@ + str_debug_text(v.root@) + ", access_key_id: "@ + secret_debug_text(v.access_key_id@), ", secret_access_key: "@);
    lemma_prefix_extend("StorageObsConfig { "@, "StorageObsConfig { endpoint_url: "@ + str_debug_text(v.endpoint_url@) + ", bucket: "@ + str_debug_text(v.bucket@) + ", root: "@ + str_debug_text(v.root@) + ", access_key_id: "@ + secret_debug_text(v.access_key_id@) + ", secret_access_key: "@, secret_debug_text(v.secret_access_key@));
    lemma_prefix_extend("StorageObsConfig { "@, "StorageObsConfig { endpoint_url: "@ + str_debug_text(v.endpoint_url@) + ", bucket: "@ + str_debug_text(v.bucket@) + ", root: "@ + str_debug_text(v.root@) + ", access_key_id: "@ + secret_debug_text(v.access_key_id@) + ", secret_access_key: "@ + secret_debug_text(v.secret_access_key@), " }"@);
    assert(text == "StorageObsConfig { endpoint_url: "@ + str_debug_text(v.endpoint_url@) + ", bucket: "@ + str_debug_text(v.bucket@) + ", root: "@ + str_debug_text(v.root@) + ", access_key_id: "@ + secret_debug_text(v.access_key_id@) + ", secret_access_key: "@ + secret_debug_text(v.secret_access_key@) + " }"@);
    lemma_glued_shows(Seq::<char>::empty(), "StorageObsConfig { endpoint_url: "@, "StorageObsConfig { "@, "endpoint_url: "@, str_debug_text(v.endpoint_url@));
    assert(Seq::<char>::empty() + "StorageObsConfig { endpoint_url: "@ =~= "StorageObsConfig { endpoint_url: "@);
    lemma_shows_extend("StorageObsConfig { endpoint_url: "@ + str_debug_text(v.endpoint_url@), "endpoint_url: "@ + str_debug_text(v.endpoint_url@), ", bucket: "@);
    lemma_shows_extend("StorageObsConfig { endpoint_url: "@ + str_debug_text(v.endpoint_url@) + ", bucket: "@, "endpoint_url: "@ + str_debug_text(v.endpoint_url@), str_debug_text(v.bucket@));
    lemma_shows_extend("StorageObsConfig { endpoint_url: "@ + str_debug_text(v.endpoint_url@) + ", bucket: "@ + str_debug_text(v.bucket@), "endpoint_url: "@ + str_debug_text(v.endpoint_url@), ", root: "@);
    lemma_shows_extend("StorageObsConfig { endpoint_url: "@ + str_debug_text(v.endpoint_url@) + ", bucket: "@ + str_debug_text(v.bucket@) + ", root: "@, "endpoint_url: "@ + str_debug_text(v.endpoint_url@), str_debug_text(v.root@));
    lemma_shows_extend("StorageObsConfig { endpoint_url: "@ + str_debug_text(v.endpoint_url@) + ", bucket: "@ + str_debug_text(v.bucket@) + ", root: "@ + str_debug_text(v.root@), "endpoint_url: "@ + str_debug_text(v.endpoint_url@), ", access_key_id: "@);
    lemma_shows_extend("StorageObsConfig { endpoint_url: "@ + str_debug_text(v.endpoint_url@) + ", bucket: "@ + str_debug_text(v.bucket@) + ", root: "@ + str_debug_text(v.root@) + ", access_key_id: "@, "endpoint_url: "@ + str_debug_text(v.endpoint_url@), secret_debug_text(v.access_key_id@));
    lemma_shows_extend("StorageObsConfig { endpoint_url: "@ + str_debug_text(v.endpoint_url@) + ", bucket: "@ + str_debug_text(v.bucket@) + ", root: "@ + str_debug_text(v.root@) + ", access_key_id: "@ + secret_debug_text(v.access_key_id@), "endpoint_url: "@ + str_debug_text(v.endpoint_url@), ", secret_access_key: "@);
    lemma_shows_extend("StorageObsConfig { endpoint_url: "@ + str_debug_text(v.endpoint_url@) + ", bucket: "@ + str_debug_text(v.bucket@) + ", root: "@ + str_debug_text(v.root@) + ", access_key_id: "@ + secret_debug_text(v.access_key_id@) + ", secret_access_key: "@, "endpoint_url: "@ + str_debug_text(v.endpoint_url@), secret_debug_text(v.secret_access_key@));
    lemma_shows_extend("StorageObsConfig { endpoint_url: "@ + str_debug_text(v.endpoint_url@) + ", bucket: "@ + str_debug_text(v.bucket@) + ", root: "@ + str_debug_text(v.root@) + ", access_key_id: "@ + secret_debug_text(v.access_key_id@) + ", secret_access_key: "@ + secret_debug_text(v.secret_access_key@), "endpoint_url: "@ + str_debug_text(v.endpoint_url@), " }"@);
    lemma_glued_shows("StorageObsConfig { endpoint_url: "@ + str_debug_text(v.endpoint_url@), ", bucket: "@, ", "@, "bucket: "@, str_debug_text(v.bucket@));
    lemma_shows_extend("StorageObsConfig { endpoint_url: "@ + str_debug_text(v.endpoint_url@) + ", bucket: "@ + str_debug_text(v.bucket@), "bucket: "@ + str_debug_text(v.bucket@), ", root: "@);
    lemma_shows_extend("StorageObsConfig { endpoint_url: "@ + str_debug_text(v.endpoint_url@) + ", bucket: "@ + str_debug_text(v.bucket@) + ", root: "@, "bucket: "@ + str_debug_text(v.bucket@), str_debug_text(v.root@));
    lemma_shows_extend("StorageObsConfig { endpoint_url: "@ + str_debug_text(v.endpoint_url@) + ", bucket: "@ + str_debug_text(v.bucket@) + ", root: "@ + str_debug_text(v.root@), "bucket: "@ + str_debug_text(v.bucket@), ", access_key_id: "@);
    lemma_shows_extend("StorageObsConfig { endpoint_url: "@ + str_debug_text(v.endpoint_url@) + ", bucket: "@ + str_debug_text(v.bucket@) + ", root: "@ + str_debug_text(v.root@) + ", access_key_id: "@, "bucket: "@ + str_debug_text(v.bucket@), secret_debug_text(v.access_key_id@));
    lemma_shows_extend("StorageObsConfig { endpoint_url: "@ + str_debug_text(v.endpoint_url@) + ", bucket: "@ + str_debug_text(v.bucket@) + ", root: "@ + str_debug_text(v.root@) + ", access_key_id: "@ + secret_debug_text(v.access_key_id@), "bucket: "@ + str_debug_text(v.bucket@), ", secret_access_key: "@);
    lemma_shows_extend("StorageObsConfig { endpoint_url: "@ + str_debug_text(v.endpoint_url@) + ", bucket: "@ + str_debug_text(v.bucket@) + ", root: "@ + str_debug_text(v.root@) + ", access_key_id: "@ + secret_debug_text(v.access_key_id@) + ", secret_access_key: "@, "bucket: "@ + str_debug_text(v.bucket@), secret_debug_text(v.secret_access_key@));
    lemma_shows_extend("StorageObsConfig { endpoint_url: "@ + str_debug_text(v.endpoint_url@) + ", bucket: "@ + str_debug_text(v.bucket@) + ", root: "@ + str_debug_text(v.root@) + ", access_key_id: "@ + secret_debug_text(v.access_key_id@) + ", secret_access_key: "@ + secret_debug_text(v.secret_access_key@), "bucket: "@ + str_debug_text(v.bucket@), " }"@);
    lemma_glued_shows("StorageObsConfig { endpoint_url: "@ + str_debug_text(v.endpoint_url@) + ", bucket: "@ + str_debug_text(v.bucket@), ", root: "@, ", "@, "root: "@, str_debug_text(v.root@));
    lemma_shows_extend("StorageObsConfig { endpoint_url: "@ + str_debug_text(v.endpoint_url@) + ", bucket: "@ + str_debug_text(v.bucket@) + ", root: "@ + str_debug_text(v.root@), "root: "@ + str_debug_text(v.root@), ", access_key_id: "@);
    lemma_shows_extend("StorageObsConfig { endpoint_url: "@ + str_debug_text(v.endpoint_url@) + ", bucket: "@ + str_debug_text(v.bucket@) + ", root: "@ + str_debug_text(v.root@) + ", access_key_id: "@, "root: "@ + str_debug_text(v.root@), secret_debug_text(v.access_key_id@));
    lemma_shows_extend("StorageObsConfig { endpoint_url: "@ + str_debug_text(v.endpoint_url@) + ", bucket: "@ + str_debug_text(v.bucket@) + ", root: "@ + str_debug_text(v.root@) + ", access_key_id: "@ + secret_debug_text(v.access_key_id@), "root: "@ + str_debug_text(v.root@), ", secret_access_key: "@);
    lemma_shows_extend("StorageObsConfig { endpoint_url: "@ + str_debug_text(v.endpoint_url@) + ", bucket: "@ + str_debug_text(v.bucket@) + ", root: "@ + str_debug_text(v.root@) + ", access_key_id: "@ + secret_debug_text(v.access_key_id@) + ", secret_access_key: "@, "root: "@ + str_debug_text(v.root@), secret_debug_text(v.secret_access_key@));
    lemma_shows_extend("StorageObsConfig { endpoint_url: "@ + str_debug_text(v.endpoint_url@) + ", bucket: "@ + str_debug_text(v.bucket@) + ", root: "@ + str_debug_text(v.root@) + ", access_key_id: "@ + secret_debug_text(v.access_key_id@) + ", secret_access_key: "@ + secret_debug_text(v.secret_access_key@), "root: "@ + str_debug_text(v.root@), " }"@);
    lemma_glued_shows("StorageObsConfig { endpoint_url: "@ + str_debug_text(v.endpoint_url@) + ", bucket: "@ + str_debug_text(v.bucket@) + ", root: "@ + str_debug_text(v.root@), ", access_key_id: "@, ", "@, "access_key_id: "@, secret_debug_text(v.access_key_id@));
    lemma_shows_extend("StorageObsConfig { endpoint_url: "@ + str_debug_text(v.endpoint_url@) + ", bucket: "@ + str_debug_text(v.bucket@) + ", root: "@ + str_debug_text(v.root@) + ", access_key_id: "@ + secret_debug_text(v.access_key_id@), "access_key_id: "@ + secret_debug_text(v.access_key_id@), ", secret_access_key: "@);
    lemma_shows_extend("StorageObsConfig { endpoint_url: "@ + str_debug_text(v.endpoint_url@) + ", bucket: "@ + str_debug_text(v.bucket@) + ", root: "@ + str_debug_text(v.root@) + ", access_key_id: "@ + secret_debug_text(v.access_key_id@) + ", secret_access_key: "@, "access_key_id: "@ + secret_debug_text(v.access_key_id@), secret_debug_text(v.secret_access_key@));
    lemma_shows_extend("StorageObsConfig { endpoint_url: "@ + str_debug_text(v.endpoint_url@) + ", bucket: "@ + str_debug_text(v.bucket@) + ", root: "@ + str_debug_text(v.root@) + ", access_key_id: "@ + secret_debug_text(v.access_key_id@) + ", secret_access_key: "@ + secret_debug_text(v.secret_access_key@), "access_key_id: "@ + secret_debug_text(v.access_key_id@), " }"@);
    lemma_glued_shows("StorageObsConfig { endpoint_url: "@ + str_debug_text(v.endpoint_url@) + ", bucket: "@ + str_debug_text(v.bucket@) + ", root: "@ + str_debug_text(v.root@) + ", access_key_id: "@ + secret_debug_text(v.access_key_id@), ", secret_access_key: "@, ", "@, "secret_access_key: "@, secret_debug_text(v.secret_access_key@));
    lemma_shows_extend("StorageObsConfig { endpoint_url: "@ + str_debug_text(v.endpoint_url@) + ", bucket: "@ + str_debug_text(v.bucket@) + ", root: "@ + str_debug_text(v.root@) + ", access_key_id: "@ + secret_debug_text(v.access_key_id@) + ", secret_access_key: "@ + secret_debug_text(v.secret_access_key@), "secret_access_key: "@ + secret_debug_text(v.secret_access_key@), " }"@);
}

/// The debug text of a `StorageOssConfig` starts with its name and shows every field appears as `key: value`, each secret (`access_key_id`, `access_key_secret`) only in its masked form.
pub proof fn lemma_oss_shows_every_field(v: StorageOssConfig)
    ensures
        "StorageOssConfig { "@.is_prefix_of(oss_debug_text(v)),
        shows(oss_debug_text(v), "endpoint_url: "@ + str_debug_text(v.endpoint_url@)),
        shows(oss_debug_text(v), "presign_endpoint_url: "@ + str_debug_text(v.presign_endpoint_url@)),
        shows(oss_debug_text(v), "bucket: "@ + str_debug_text(v.bucket@)),
        shows(oss_debug_text(v), "root: "@ + str_debug_text(v.root@)),
        shows(oss_debug_text(v), "access_key_id: "@ + secret_debug_text(v.access_key_id@)),
        shows(oss_debug_text(v), "access_key_secret: "@ + secret_debug_text(v.access_key_secret@)),
{
    let text = oss_debug_text(v);
    assert("StorageOssConfig { endpoint_url: "@ == "StorageOssConfig { "@ + "endpoint_url: "@) by {
        reveal_strlit("StorageOssConfig { endpoint_url: ");
        reveal_strlit("StorageOssConfig { ");
        reveal_strlit("endpoint_url: ");
    }
    assert(", presign_endpoint_url: "@ == ", "@ + "presign_endpoint_url: "@) by {
        reveal_strlit(", presign_endpoint_url: ");
        reveal_strlit(", ");
        reveal_strlit("presign_endpoint_url: ");
    }
    assert(", bucket: "@ == ", "@ + "bucket: "@) by {
        reveal_strlit(", bucket: ");
        reveal_strlit(", ");
        reveal_strlit("bucket: ");
    }
    assert(", root: "@ == ", "@ + "root: "@) by {
        reveal_strlit(", root: ");
        reveal_strlit(", ");
        reveal_strlit("root: ");
    }
    assert(", access_key_id: "@ == ", "@ + "access_key_id: "@) by {
        reveal_strlit(", access_key_id: ");
        reveal_strlit(", ");
        reveal_strlit("access_key_id: ");
    }
    assert(", access_key_secret: "@ == ", "@ + "access_key_secret: "@) by {
        reveal_strlit(", access_key_secret: ");
        reveal_strlit(", ");
        reveal_strlit("access_key_secret: ");
    }
    lemma_glued_prefix("StorageOssConfig { "@, "endpoint_url: "@, str_debug_text(v.endpoint_url@));
    lemma_prefix_extend("StorageOssConfig { "@, "StorageOssConfig { endpoint_url: "@ + str_debug_text(v.endpoint_url@), ", presign_endpoint_url: "@);
    lemma_prefix_extend("StorageOssConfig { "@, "StorageOssConfig { endpoint_url: "@ + str_debug_text(v.endpoint_url@) + ", presign_endpoint_url: "@, str_debug_text(v.presign_endpoint_url@));
    lemma_prefix_extend("StorageOssConfig { "@, "StorageOssConfig { endpoint_url: "@ + str_debug_text(v.endpoint_url@) + ", presign_endpoint_url: "@ + str_debug_text(v.presign_endpoint_url@), ", bucket: "@);
    lemma_prefix_extend("StorageOssConfig { "@, "StorageOssConfig { endpoint_url: "@ + str_debug_text(v.endpoint_url@) + ", presign_endpoint_url: "@ + str_debug_text(v.presign_endpoint_url@) + ", bucket: "@, str_debug_text(v.bucket@));
    lemma_prefix_extend("StorageOssConfig { "@, "StorageOssConfig { endpoint_url: "@ + str_debug_text(v.endpoint_url@) + ", presign_endpoint_url: "@ + str_debug_text(v.presign_endpoint_url@) + ", bucket: "@ + str_debug_text(v.bucket@), ", root: "@);
    lemma_prefix_extend("StorageOssConfig { "@, "StorageOssConfig { endpoint_url: "@ + str_debug_text(v.endpoint_url@) + ", presign_endpoint_url: "@ + str_debug_text(v.presign_endpoint_url@) + ", bucket: "@ + str_debug_text(v.bucket@) + ", root: "@, str_debug_text(v.root@));
    lemma_prefix_extend("StorageOssConfig { "@, "StorageOssConfig { endpoint_url: "@ + str_debug_text(v.endpoint_url@) + ", presign_endpoint_url: "@ + str_debug_text(v.presign_endpoint_url@) + ", bucket: "@ + str_debug_text(v.bucket@) + ", root: "@ + str_debug_text(v.root@), ", access_key_id: "@);
    lemma_prefix_extend("StorageOssConfig { "@, "StorageOssConfig { endpoint_url: "@ + str_debug_text(v.endpoint_url@) + ", presign_endpoint_url: "@ + str_debug_text(v.presign_endpoint_url@) + ", bucket: "@ + str_debug_text(v.bucket@) + ", root: "@ + str_debug_text(v.root@) + ", access_key_id: "@, secret_debug_text(v.access_key_id@));
    lemma_prefix_extend("StorageOssConfig { "@, "StorageOssConfig { endpoint_url: "@ + str_debug_text(v.endpoint_url@) + ", presign_endpoint_url: "@ + str_debug_text(v.presign_endpoint_url@) + ", bucket: "@ + str_debug_text(v.bucket@) + ", root: "@ + str_debug_text(v.root@) + ", access_key_id: "@ + secret_debug_text(v.access_key_id@), ", access_key_secret: "@);
    lemma_prefix_extend("StorageOssConfig { "@, "StorageOssConfig { endpoint_url: "@ + str_debug_text(v.endpoint_url@) + ", presign_endpoint_url: "@ + str_debug_text(v.presign_endpoint_url@) + ", bucket: "@ + str_debug_text(v.bucket@) + ", root: "@ + str_debug_text(v.root@) + ", access_key_id: "@ + secret_debug_text(v.access_key_id@) + ", access_key_secret: "@, secret_debug_text(v.access_key_secret@));
    lemma_prefix_extend("StorageOssConfig { "@, "StorageOssConfig { endpoint_url: "@ + str_debug_text(v.endpoint_url@) + ", presign_endpoint_url: "@ + str_debug_text(v.presign_endpoint_url@) + ", bucket: "@ + str_debug_text(v.bucket@) + ", root: "@ + str_debug_text(v.root@) + ", access_key_id: "@ + secret_debug_text(v.access_key_id@) + ", access_key_secret: "@ + secret_debug_text(v.access_key_secret@), " }"@);
    assert(text == "StorageOssConfig { endpoint_url: "@ + str_debug_text(v.endpoint_url@) + ", presign_endpoint_url: "@ + str_debug_text(v.presign_endpoint_url@) + ", bucket: "@ + str_debug_text(v.bucket@) + ", root: "@ + str_debug_text(v.root@) + ", access_key_id: "@ + secret_debug_text(v.access_key_id@) + ", access_key_secret: "@ + secret_debug_text(v.access_key_secret@) + " }"@);
    lemma_glued_shows(Seq::<char>::empty(), "StorageOssConfig { endpoint_url: "@, "StorageOssConfig { "@, "endpoint_url: "@, str_debug_text(v.endpoint_url@));
    assert(Seq::<char>::empty() + "StorageOssConfig { endpoint_url: "@ =~= "StorageOssConfig { endpoint_url: "@);
    lemma_shows_extend("StorageOssConfig { endpoint_url: "@ + str_debug_text(v.endpoint_url@), "endpoint_url: "@ + str_debug_text(v.endpoint_url@), ", presign_endpoint_url: "@);
    lemma_shows_extend("StorageOssConfig { endpoint_url: "@ + str_debug_text(v.endpoint_url@) + ", presign_endpoint_url: "@, "endpoint_url: "@ + str_debug_text(v.endpoint_url@), str_debug_text(v.presign_endpoint_url@));
    lemma_shows_extend("StorageOssConfig { endpoint_url: "@ + str_debug_text(v.endpoint_url@) + ", presign_endpoint_url: "@ + str_debug_text(v.presign_endpoint_url@), "endpoint_url: "@ + str_debug_text(v.endpoint_url@), ", bucket: "@);
    lemma_shows_extend("StorageOssConfig { endpoint_url: "@ + str_debug_text(v.endpoint_url@) + ", presign_endpoint_url: "@ + str_debug_text(v.presign_endpoint_url@) + ", bucket: "@, "endpoint_url: "@ + str_debug_text(v.endpoint_url@), str_debug_text(v.bucket@));
    lemma_shows_extend("StorageOssConfig { endpoint_url: "@ + str_debug_text(v.endpoint_url@) + ", presign_endpoint_url: "@ + str_debug_text(v.presign_endpoint_url@) + ", bucket: "@ + str_debug_text(v.bucket@), "endpoint_url: "@ + str_debug_text(v.endpoint_url@), ", root: "@);
    lemma_shows_extend("StorageOssConfig { endpoint_url: "@ + str_debug_text(v.endpoint_url@) + ", presign_endpoint_url: "@ + str_debug_text(v.presign_endpoint_url@) + ", bucket: "@ + str_debug_text(v.bucket@) + ", root: "@, "endpoint_url: "@ + str_debug_text(v.endpoint_url@), str_debug_text(v.root@));
    lemma_shows_extend("StorageOssConfig { endpoint_url: "@ + str_debug_text(v.endpoint_url@) + ", presign_endpoint_url: "@ + str_debug_text(v.presign_endpoint_url@) + ", bucket: "@ + str_debug_text(v.bucket@) + ", root: "@ + str_debug_text(v.root@), "endpoint_url: "@ + str_debug_text(v.endpoint_url@), ", access_key_id: "@);
    lemma_shows_extend("StorageOssConfig { endpoint_url: "@ + str_debug_text(v.endpoint_url@) + ", presign_endpoint_url: "@ + str_debug_text(v.presign_endpoint_url@) + ", bucket: "@ + str_debug_text(v.bucket@) + ", root: "@ + str_debug_text(v.root@) + ", access_key_id: "@, "endpoint_url: "@ + str_debug_text(v.endpoint_url@), secret_debug_text(v.access_key_id@));
    lemma_shows_extend("StorageOssConfig { endpoint_url: "@ + str_debug_text(v.endpoint_url@) + ", presign_endpoint_url: "@ + str_debug_text(v.presign_endpoint_url@) + ", bucket: "@ + str_debug_text(v.bucket@) + ", root: "@ + str_debug_text(v.root@) + ", access_key_id: "@ + secret_debug_text(v.access_key_id@), "endpoint_url: "@ + str_debug_text(v.endpoint_url@), ", access_key_secret: "@);
    lemma_shows_extend("StorageOssConfig { endpoint_url: "@ + str_debug_text(v.endpoint_url@) + ", presign_endpoint_url: "@ + str_debug_text(v.presign_endpoint_url@) + ", bucket: "@ + str_debug_text(v.bucket@) + ", root: "@ + str_debug_text(v.root@) + ", access_key_id: "@ + secret_debug_text(v.access_key_id@) + ", access_key_secret: "@, "endpoint_url: "@ + str_debug_text(v.endpoint_url@), secret_debug_text(v.access_key_secret@));
    lemma_shows_extend("StorageOssConfig { endpoint_url: "@ + str_debug_text(v.endpoint_url@) + ", presign_endpoint_url: "@ + str_debug_text(v.presign_endpoint_url@) + ", bucket: "@ + str_debug_text(v.bucket@) + ", root: "@ + str_debug_text(v.root@) + ", access_key_id: "@ + secret_debug_text(v.access_key_id@) + ", access_key_secret: "@ + secret_debug_text(v.access_key_secret@), "endpoint_url: "@ + str_debug_text(v.endpoint_url@), " }"@);
    lemma_glued_shows("StorageOssConfig { endpoint_url: "@ + str_debug_text(v.endpoint_url@), ", presign_endpoint_url: "@, ", "@, "presign_endpoint_url: "@, str_debug_text(v.presign_endpoint_url@));
    lemma_shows_extend("StorageOssConfig { endpoint_url: "@ + str_debug_text(v.endpoint_url@) + ", presign_endpoint_url: "@ + str_debug_text(v.presign_endpoint_url@), "presign_endpoint_url: "@ + str_debug_text(v.presign_endpoint_url@), ", bucket: "@);
    lemma_shows_extend("StorageOssConfig { endpoint_url: "@ + str_debug_text(v.endpoint_url@) + ", presign_endpoint_url: "@ + str_debug_text(v.presign_endpoint_url@) + ", bucket: "@, "presign_endpoint_url: "@ + str_debug_text(v.presign_endpoint_url@), str_debug_text(v.bucket@));
    lemma_shows_extend("StorageOssConfig { endpoint_url: "@ + str_debug_text(v.endpoint_url@) + ", presign_endpoint_url: "@ + str_debug_text(v.presign_endpoint_url@) + ", bucket: "@ + str_debug_text(v.bucket@), "presign_endpoint_url: "@ + str_debug_text(v.presign_endpoint_url@), ", root: "@);
    lemma_shows_extend("StorageOssConfig { endpoint_url: "@ + str_debug_text(v.endpoint_url@) + ", presign_endpoint_url: "@ + str_debug_text(v.presign_endpoint_url@) + ", bucket: "@ + str_debug_text(v.bucket@) + ", root: "@, "presign_endpoint_url: "@ + str_debug_text(v.presign_endpoint_url@), str_debug_text(v.root@));
    lemma_shows_extend("StorageOssConfig { endpoint_url: "@ + str_debug_text(v.endpoint_url@) + ", presign_endpoint_url: "@ + str_debug_text(v.presign_endpoint_url@) + ", bucket: "@ + str_debug_text(v.bucket@) + ", root: "@ + str_debug_text(v.root@), "presign_endpoint_url: "@ + str_debug_text(v.presign_endpoint_url@), ", access_key_id: "@);
    lemma_shows_extend("StorageOssConfig { endpoint_url: "@ + str_debug_text(v.endpoint_url@) + ", presign_endpoint_url: "@ + str_debug_text(v.presign_endpoint_url@) + ", bucket: "@ + str_debug_text(v.bucket@) + ", root: "@ + str_debug_text(v.root@) + ", access_key_id: "@, "presign_endpoint_url: "@ + str_debug_text(v.presign_endpoint_url@), secret_debug_text(v.access_key_id@));
    lemma_shows_extend("StorageOssConfig { endpoint_url: "@ + str_debug_text(v.endpoint_url@) + ", presign_endpoint_url: "@ + str_debug_text(v.presign_endpoint_url@) + ", bucket: "@ + str_debug_text(v.bucket@) + ", root: "@ + str_debug_text(v.root@) + ", access_key_id: "@ + secret_debug_text(v.access_key_id@), "presign_endpoint_url: "@ + str_debug_text(v.presign_endpoint_url@), ", access_key_secret: "@);
    lemma_shows_extend("StorageOssConfig { endpoint_url: "@ + str_debug_text(v.endpoint_url@) + ", presign_endpoint_url: "@ + str_debug_text(v.presign_endpoint_url@) + ", bucket: "@ + str_debug_text(v.bucket@) + ", root: "@ + str_debug_text(v.root@) + ", access_key_id: "@ + secret_debug_text(v.access_key_id@) + ", access_key_secret: "@, "presign_endpoint_url: "@ + str_debug_text(v.presign_endpoint_url@), secret_debug_text(v.access_key_secret@));
    lemma_shows_extend("StorageOssConfig { endpoint_url: "@ + str_debug_text(v.endpoint_url@) + ", presign_endpoint_url: "@ + str_debug_text(v.presign_endpoint_url@) + ", bucket: "@ + str_debug_text(v.bucket@) + ", root: "@ + str_debug_text(v.root@) + ", access_key_id: "@ + secret_debug_text(v.access_key_id@) + ", access_key_secret: "@ + secret_debug_text(v.access_key_secret@), "presign_endpoint_url: "@ + str_debug_text(v.presign_endpoint_url@), " }"@);
    lemma_glued_shows("StorageOssConfig { endpoint_url: "@ + str_debug_text(v.endpoint_url@) + ", presign_endpoint_url: "@ + str_debug_text(v.presign_endpoint_url@), ", bucket: "@, ", "@, "bucket: "@, str_debug_text(v.bucket@));
    lemma_shows_extend("StorageOssConfig { endpoint_url: "@ + str_debug_text(v.endpoint_url@) + ", presign_endpoint_url: "@ + str_debug_text(v.presign_endpoint_url@) + ", bucket: "@ + str_debug_text(v.bucket@), "bucket: "@ + str_debug_text(v.bucket@), ", root: "@);
    lemma_shows_extend("StorageOssConfig { endpoint_url: "@ + str_debug_text(v.endpoint_url@) + ", presign_endpoint_url: "@ + str_debug_text(v.presign_endpoint_url@) + ", bucket: "@ + str_debug_text(v.bucket@) + ", root: "@, "bucket: "@ + str_debug_text(v.bucket@), str_debug_text(v.root@));
    lemma_shows_extend("StorageOssConfig { endpoint_url: "@ + str_debug_text(v.endpoint_url@) + ", presign_endpoint_url: "@ + str_debug_text(v.presign_endpoint_url@) + ", bucket: "@ + str_debug_text(v.bucket@) + ", root: "@ + str_debug_text(v.root@), "bucket: "@ + str_debug_text(v.bucket@), ", access_key_id: "@);
    lemma_shows_extend("StorageOssConfig { endpoint_url: "@ + str_debug_text(v.endpoint_url@) + ", presign_endpoint_url: "@ + str_debug_text(v.presign_endpoint_url@) + ", bucket: "@ + str_debug_text(v.bucket@) + ", root: "@ + str_debug_text(v.root@) + ", access_key_id: "@, "bucket: "@ + str_debug_text(v.bucket@), secret_debug_text(v.access_key_id@));
    lemma_shows_extend("StorageOssConfig { endpoint_url: "@ + str_debug_text(v.endpoint_url@) + ", presign_endpoint_url: "@ + str_debug_text(v.presign_endpoint_url@) + ", bucket: "@ + str_debug_text(v.bucket@) + ", root: "@ + str_debug_text(v.root@) + ", access_key_id: "@ + secret_debug_text(v.access_key_id@), "bucket: "@ + str_debug_text(v.bucket@), ", access_key_secret: "@);
    lemma_shows_extend("StorageOssConfig { endpoint_url: "@ + str_debug_text(v.endpoint_url@) + ", presign_endpoint_url: "@ + str_debug_text(v.presign_endpoint_url@) + ", bucket: "@ + str_debug_text(v.bucket@) + ", root: "@ + str_debug_text(v.root@) + ", access_key_id: "@ + secret_debug_text(v.access_key_id@) + ", access_key_secret: "@, "bucket: "@ + str_debug_text(v.bucket@), secret_debug_text(v.access_key_secret@));
    lemma_shows_extend("StorageOssConfig { endpoint_url: "@ + str_debug_text(v.endpoint_url@) + ", presign_endpoint_url: "@ + str_debug_text(v.presign_endpoint_url@) + ", bucket: "@ + str_debug_text(v.bucket@) + ", root: "@ + str_debug_text(v.root@) + ", access_key_id: "@ + secret_debug_text(v.access_key_id@) + ", access_key_secret: "@ + secret_debug_text(v.access_key_secret@), "bucket: "@ + str_debug_text(v.bucket@), " }"@);
    lemma_glued_shows("StorageOssConfig { endpoint_url: "@ + str_debug_text(v.endpoint_url@) + ", presign_endpoint_url: "@ + str_debug_text(v.presign_endpoint_url@) + ", bucket: "@ + str_debug_text(v.bucket@), ", root: "@, ", "@, "root: "@, str_debug_text(v.root@));
    lemma_shows_extend("StorageOssConfig { endpoint_url: "@ + str_debug_text(v.endpoint_url@) + ", presign_endpoint_url: "@ + str_debug_text(v.presign_endpoint_url@) + ", bucket: "@ + str_debug_text(v.bucket@) + ", root: "@ + str_debug_text(v.root@), "root: "@ + str_debug_text(v.root@), ", access_key_id: "@);
    lemma_shows_extend("StorageOssConfig { endpoint_url: "@ + str_debug_text(v.endpoint_url@) + ", presign_endpoint_url: "@ + str_debug_text(v.presign_endpoint_url@) + ", bucket: "@ + str_debug_text(v.bucket@) + ", root: "@ + str_debug_text(v.root@) + ", access_key_id: "@, "root: "@ + str_debug_text(v.root@), secret_debug_text(v.access_key_id@));
    lemma_shows_extend("StorageOssConfig { endpoint_url: "@ + str_debug_text(v.endpoint_url@) + ", presign_endpoint_url: "@ + str_debug_text(v.presign_endpoint_url@) + ", bucket: "@ + str_debug_text(v.bucket@) + ", root: "@ + str_debug_text(v.root@) + ", access_key_id: "@ + secret_debug_text(v.access_key_id@), "root: "@ + str_debug_text(v.root@), ", access_key_secret: "@);
    lemma_shows_extend("StorageOssConfig { endpoint_url: "@ + str_debug_text(v.endpoint_url@) + ", presign_endpoint_url: "@ + str_debug_text(v.presign_endpoint_url@) + ", bucket: "@ + str_debug_text(v.bucket@) + ", root: "@ + str_debug_text(v.root@) + ", access_key_id: "@ + secret_debug_text(v.access_key_id@) + ", access_key_secret: "@, "root: "@ + str_debug_text(v.root@), secret_debug_text(v.access_key_secret@));
    lemma_shows_extend("StorageOssConfig { endpoint_url: "@ + str_debug_text(v.endpoint_url@) + ", presign_endpoint_url: "@ + str_debug_text(v.presign_endpoint_url@) + ", bucket: "@ + str_debug_text(v.bucket@) + ", root: "@ + str_debug_text(v.root@) + ", access_key_id: "@ + secret_debug_text(v.access_key_id@) + ", access_key_secret: "@ + secret_debug_text(v.access_key_secret@), "root: "@ + str_debug_text(v.root@), " }"@);
    lemma_glued_shows("StorageOssConfig { endpoint_url: "@ + str_debug_text(v.endpoint_url@) + ", presign_endpoint_url: "@ + str_debug_text(v.presign_endpoint_url@) + ", bucket: "@ + str_debug_text(v.bucket@) + ", root: "@ + str_debug_text(v.root@), ", access_key_id: "@, ", "@, "access_key_id: "@, secret_debug_text(v.access_key_id@));
    lemma_shows_extend("StorageOssConfig { endpoint_url: "@ + str_debug_text(v.endpoint_url@) + ", presign_endpoint_url: "@ + str_debug_text(v.presign_endpoint_url@) + ", bucket: "@ + str_debug_text(v.bucket@) + ", root: "@ + str_debug_text(v.root@) + ", access_key_id: "@ + secret_debug_text(v.access_key_id@), "access_key_id: "@ + secret_debug_text(v.access_key_id@), ", access_key_secret: "@);
    lemma_shows_extend("StorageOssConfig { endpoint_url: "@ + str_debug_text(v.endpoint_url@) + ", presign_endpoint_url: "@ + str_debug_text(v.presign_endpoint_url@) + ", bucket: "@ + str_debug_text(v.bucket@) + ", root: "@ + str_debug_text(v.root@) + ", access_key_id: "@ + secret_debug_text(v.access_key_id@) + ", access_key_secret: "@, "access_key_id: "@ + secret_debug_text(v.access_key_id@), secret_debug_text(v.access_key_secret@));
    lemma_shows_extend("StorageOssConfig { endpoint_url: "@ + str_debug_text(v.endpoint_url@) + ", presign_endpoint_url: "@ + str_debug_text(v.presign_endpoint_url@) + ", bucket: "@ + str_debug_text(v.bucket@) + ", root: "@ + str_debug_text(v.root@) + ", access_key_id: "@ + secret_debug_text(v.access_key_id@) + ", access_key_secret: "@ + secret_debug_text(v.access_key_secret@), "access_key_id: "@ + secret_debug_text(v.access_key_id@), " }"@);
    lemma_glued_shows("StorageOssConfig { endpoint_url: "@ + str_debug_text(v.endpoint_url@) + ", presign_endpoint_url: "@ + str_debug_text(v.presign_endpoint_url@) + ", bucket: "@ + str_debug_text(v.bucket@) + ", root: "@ + str_debug_text(v.root@) + ", access_key_id: "@ + secret_debug_text(v.access_key_id@), ", access_key_secret: "@, ", "@, "access_key_secret: "@, secret_debug_text(v.access_key_secret@));
    lemma_shows_extend("StorageOssConfig { endpoint_url: "@ + str_debug_text(v.endpoint_url@) + ", presign_endpoint_url: "@ + str_debug_text(v.presign_endpoint_url@) + ", bucket: "@ + str_debug_text(v.bucket@) + ", root: "@ + str_debug_text(v.root@) + ", access_key_id: "@ + secret_debug_text(v.access_key_id@) + ", access_key_secret: "@ + secret_debug_text(v.access_key_secret@), "access_key_secret: "@ + secret_debug_text(v.access_key_secret@), " }"@);
}

/// The debug text of a `StorageWebhdfsConfig` starts with its name and shows every field appears as `key: value`, each secret (`delegation`) only in its masked form.
pub proof fn lemma_webhdfs_shows_every_field(v: StorageWebhdfsConfig)
    ensures
        "StorageWebhdfsConfig { "@.is_prefix_of(webhdfs_debug_text(v)),
        shows(webhdfs_debug_text(v), "endpoint_url: "@ + str_debug_text(v.endpoint_url@)),
        shows(webhdfs_debug_text(v), "root: "@ + str_debug_text(v.root@)),
        shows(webhdfs_debug_text(v), "delegation: "@ + secret_debug_text(v.delegation@)),
{
    let text = webhdfs_debug_text(v);
    assert("StorageWebhdfsConfig { endpoint_url: "@ == "StorageWebhdfsConfig { "@ + "endpoint_url: "@) by {
        reveal_strlit("StorageWebhdfsConfig { endpoint_url: ");
        reveal_strlit("StorageWebhdfsConfig { ");
        reveal_strlit("endpoint_url: ");
    }
    assert(", root: "@ == ", "@ + "root: "@) by {
        reveal_strlit(", root: ");
        reveal_strlit(", ");
        reveal_strlit("root: ");
    }
    assert(", delegation: "@ == ", "@ + "delegation: "@) by {
        reveal_strlit(", delegation: ");
        reveal_strlit(", ");
        reveal_strlit("delegation: ");
    }
    lemma_glued_prefix("StorageWebhdfsConfig { "@, "endpoint_url: "@, str_debug_text(v.endpoint_url@));
    lemma_prefix_extend("StorageWebhdfsConfig { "@, "StorageWebhdfsConfig { endpoint_url: "@ + str_debug_text(v.endpoint_url@), ", root: "@);
    lemma_prefix_extend("StorageWebhdfsConfig { "@, "StorageWebhdfsConfig { endpoint_url: "@ + str_debug_text(v.endpoint_url@) + ", root: "@, str_debug_text(v.root@));
    lemma_prefix_extend("StorageWebhdfsConfig { "@, "StorageWebhdfsConfig { endpoint_url: "@ + str_debug_text(v.endpoint_url@) + ", root: "@ + str_debug_text(v.root@), ", delegation: "@);
    lemma_prefix_extend("StorageWebhdfsConfig { "@, "StorageWebhdfsConfig { endpoint_url: "@ + str_debug_text(v.endpoint_url@) + ", root: "@ + str_debug_text(v.root@) + ", delegation: "@, secret_debug_text(v.delegation@));
    lemma_prefix_extend("StorageWebhdfsConfig { "@, "StorageWebhdfsConfig { endpoint_url: "@ + str_debug_text(v.endpoint_url@) + ", root: "@ + str_debug_text(v.root@) + ", delegation: "@ + secret_debug_text(v.delegation@), " }"@);
    assert(text == "StorageWebhdfsConfig { endpoint_url: "@ + str_debug_text(v.endpoint_url@) + ", root: "@ + str_debug_text(v.root@) + ", delegation: "@ + secret_debug_text(v.delegation@) + " }"@);
    lemma_glued_shows(Seq::<char>::empty(), "StorageWebhdfsConfig { endpoint_url: "@, "StorageWebhdfsConfig { "@, "endpoint_url: "@, str_debug_text(v.endpoint_url@));
    assert(Seq::<char>::empty() + "StorageWebhdfsConfig { endpoint_url: "@ =~= "StorageWebhdfsConfig { endpoint_url: "@);
    lemma_shows_extend("StorageWebhdfsConfig { endpoint_url: "@ + str_debug_text(v.endpoint_url@), "endpoint_url: "@ + str_debug_text(v.endpoint_url@), ", root: "@);
    lemma_shows_extend("StorageWebhdfsConfig { endpoint_url: "@ + str_debug_text(v.endpoint_url@) + ", root: "@, "endpoint_url: "@ + str_debug_text(v.endpoint_url@), str_debug_text(v.root@));
    lemma_shows_extend("StorageWebhdfsConfig { endpoint_url: "@ + str_debug_text(v.endpoint_url@) + ", root: "@ + str_debug_text(v.root@), "endpoint_url: "@ + str_debug_text(v.endpoint_url@), ", delegation: "@);
    lemma_shows_extend("StorageWebhdfsConfig { endpoint_url: "@ + str_debug_text(v.endpoint_url@) + ", root: "@ + str_debug_text(v.root@) + ", delegation: "@, "endpoint_url: "@ + str_debug_text(v.endpoint_url@), secret_debug_text(v.delegation@));
    lemma_shows_extend("StorageWebhdfsConfig { endpoint_url: "@ + str_debug_text(v.endpoint_url@) + ", root: "@ + str_debug_text(v.root@) + ", delegation: "@ + secret_debug_text(v.delegation@), "endpoint_url: "@ + str_debug_text(v.endpoint_url@), " }"@);
    lemma_glued_shows("StorageWebhdfsConfig { endpoint_url: "@ + str_debug_text(v.endpoint_url@), ", root: "@, ", "@, "root: "@, str_debug_text(v.root@));
    lemma_shows_extend("StorageWebhdfsConfig { endpoint_url: "@ + str_debug_text(v.endpoint_url@) + ", root: "@ + str_debug_text(v.root@), "root: "@ + str_debug_text(v.root@), ", delegation: "@);
    lemma_shows_extend("StorageWebhdfsConfig { endpoint_url: "@ + str_debug_text(v.endpoint_url@) + ", root: "@ + str_debug_text(v.root@) + ", delegation: "@, "root: "@ + str_debug_text(v.root@), secret_debug_text(v.delegation@));
    lemma_shows_extend("StorageWebhdfsConfig { endpoint_url: "@ + str_debug_text(v.endpoint_url@) + ", root: "@ + str_debug_text(v.root@) + ", delegation: "@ + secret_debug_text(v.delegation@), "root: "@ + str_debug_text(v.root@), " }"@);
    lemma_glued_shows("StorageWebhdfsConfig { endpoint_url: "@ + str_debug_text(v.endpoint_url@) + ", root: "@ + str_debug_text(v.root@), ", delegation: "@, ", "@, "delegation: "@, secret_debug_text(v.delegation@));
    lemma_shows_extend("StorageWebhdfsConfig { endpoint_url: "@ + str_debug_text(v.endpoint_url@) + ", root: "@ + str_debug_text(v.root@) + ", delegation: "@ + secret_debug_text(v.delegation@), "delegation: "@ + secret_debug_text(v.delegation@), " }"@);
}

/// The debug text of a `StorageRedisConfig` starts with its name and shows every field appears as `key: value`.
pub proof fn lemma_redis_head_shows_every_field(v: StorageRedisConfig)
    ensures
        "StorageRedisConfig { "@.is_prefix_of(redis_debug_head(v)),
        shows(redis_debug_head(v), "endpoint_url: "@ + str_debug_text(v.endpoint_url@)),
        shows(redis_debug_head(v), "db: "@ + int_decimal(v.db as int)),
        shows(redis_debug_head(v), "root: "@ + str_debug_text(v.root@)),
        shows(redis_debug_head(v), "default_ttl: "@ + option_i64_debug_text(v.default_ttl)),
{
    let text = redis_debug_head(v);
    assert("StorageRedisConfig { endpoint_url: "@ == "StorageRedisConfig { "@ + "endpoint_url: "@) by {
        reveal_strlit("StorageRedisConfig { endpoint_url: ");
        reveal_strlit("StorageRedisConfig { ");
        reveal_strlit("endpoint_url: ");
    }
    assert(", db: "@ == ", "@ + "db: "@) by {
        reveal_strlit(", db: ");
        reveal_strlit(", ");
        reveal_strlit("db: ");
    }
    assert(", root: "@ == ", "@ + "root: "@) by {
        reveal_strlit(", root: ");
        reveal_strlit(", ");
        reveal_strlit("root: ");
    }
    assert(", default_ttl: "@ == ", "@ + "default_ttl: "@) by {
        reveal_strlit(", default_ttl: ");
        reveal_strlit(", ");
        reveal_strlit("default_ttl: ");
    }
    lemma_glued_prefix("StorageRedisConfig { "@, "endpoint_url: "@, str_debug_text(v.endpoint_url@));
    lemma_prefix_extend("StorageRedisConfig { "@, "StorageRedisConfig { endpoint_url: "@ + str_debug_text(v.endpoint_url@), ", db: "@);
    lemma_prefix_extend("StorageRedisConfig { "@, "StorageRedisConfig { endpoint_url: "@ + str_debug_text(v.endpoint_url@) + ", db: "@, int_decimal(v.db as int));
    lemma_prefix_extend("StorageRedisConfig { "@, "StorageRedisConfig { endpoint_url: "@ + str_debug_text(v.endpoint_url@) + ", db: "@ + int_decimal(v.db as int), ", root: "@);
    lemma_prefix_extend("StorageRedisConfig { "@, "StorageRedisConfig { endpoint_url: "@ + str_debug_text(v.endpoint_url@) + ", db: "@ + int_decimal(v.db as int) + ", root: "@, str_debug_text(v.root@));
    lemma_prefix_extend("StorageRedisConfig { "@, "StorageRedisConfig { endpoint_url: "@ + str_debug_text(v.endpoint_url@) + ", db: "@ + int_decimal(v.db as int) + ", root: "@ + str_debug_text(v.root@), ", default_ttl: "@);
    lemma_prefix_extend("StorageRedisConfig { "@, "StorageRedisConfig { endpoint_url: "@ + str_debug_text(v.endpoint_url@) + ", db: "@ + int_decimal(v.db as int) + ", root: "@ + str_debug_text(v.root@) + ", default_ttl: "@, option_i64_debug_text(v.default_ttl));
    assert(text == "StorageRedisConfig { endpoint_url: "@ + str_debug_text(v.endpoint_url@) + ", db: "@ + int_decimal(v.db as int) + ", root: "@ + str_debug_text(v.root@) + ", default_ttl: "@ + option_i64_debug_text(v.default_ttl));
    lemma_glued_shows(Seq::<char>::empty(), "StorageRedisConfig { endpoint_url: "@, "StorageRedisConfig { "@, "endpoint_url: "@, str_debug_text(v.endpoint_url@));
    assert(Seq::<char>::empty() + "StorageRedisConfig { endpoint_url: "@ =~= "StorageRedisConfig { endpoint_url: "@);
    lemma_shows_extend("StorageRedisConfig { endpoint_url: "@ + str_debug_text(v.endpoint_url@), "endpoint_url: "@ + str_debug_text(v.endpoint_url@), ", db: "@);
    lemma_shows_extend("StorageRedisConfig { endpoint_url: "@ + str_debug_text(v.endpoint_url@) + ", db: "@, "endpoint_url: "@ + str_debug_text(v.endpoint_url@), int_decimal(v.db as int));
    lemma_shows_extend("StorageRedisConfig { endpoint_url: "@ + str_debug_text(v.endpoint_url@) + ", db: "@ + int_decimal(v.db as int), "endpoint_url: "@ + str_debug_text(v.endpoint_url@), ", root: "@);
    lemma_shows_extend("StorageRedisConfig { endpoint_url: "@ + str_debug_text(v.endpoint_url@) + ", db: "@ + int_decimal(v.db as int) + ", root: "@, "endpoint_url: "@ + str_debug_text(v.endpoint_url@), str_debug_text(v.root@));
    lemma_shows_extend("StorageRedisConfig { endpoint_url: "@ + str_debug_text(v.endpoint_url@) + ", db: "@ + int_decimal(v.db as int) + ", root: "@ + str_debug_text(v.root@), "endpoint_url: "@ + str_debug_text(v.endpoint_url@), ", default_ttl: "@);
    lemma_shows_extend("StorageRedisConfig { endpoint_url: "@ + str_debug_text(v.endpoint_url@) + ", db: "@ + int_decimal(v.db as int) + ", root: "@ + str_debug_text(v.root@) + ", default_ttl: "@, "endpoint_url: "@ + str_debug_text(v.endpoint_url@), option_i64_debug_text(v.default_ttl));
    lemma_glued_shows("StorageRedisConfig { endpoint_url: "@ + str_debug_text(v.endpoint_url@), ", db: "@, ", "@, "db: "@, int_decimal(v.db as int));
    lemma_shows_extend("StorageRedisConfig { endpoint_url: "@ + str_debug_text(v.endpoint_url@) + ", db: "@ + int_decimal(v.db as int), "db: "@ + int_decimal(v.db as int), ", root: "@);
    lemma_shows_extend("StorageRedisConfig { endpoint_url: "@ + str_debug_text(v.endpoint_url@) + ", db: "@ + int_decimal(v.db as int) + ", root: "@, "db: "@ + int_decimal(v.db as int), str_debug_text(v.root@));
    lemma_shows_extend("StorageRedisConfig { endpoint_url: "@ + str_debug_text(v.endpoint_url@) + ", db: "@ + int_decimal(v.db as int) + ", root: "@ + str_debug_text(v.root@), "db: "@ + int_decimal(v.db as int), ", default_ttl: "@);
    lemma_shows_extend("StorageRedisConfig { endpoint_url: "@ + str_debug_text(v.endpoint_url@) + ", db: "@ + int_decimal(v.db as int) + ", root: "@ + str_debug_text(v.root@) + ", default_ttl: "@, "db: "@ + int_decimal(v.db as int), option_i64_debug_text(v.default_ttl));
    lemma_glued_shows("StorageRedisConfig { endpoint_url: "@ + str_debug_text(v.endpoint_url@) + ", db: "@ + int_decimal(v.db as int), ", root: "@, ", "@, "root: "@, str_debug_text(v.root@));
    lemma_shows_extend("StorageRedisConfig { endpoint_url: "@ + str_debug_text(v.endpoint_url@) + ", db: "@ + int_decimal(v.db as int) + ", root: "@ + str_debug_text(v.root@), "root: "@ + str_debug_text(v.root@), ", default_ttl: "@);
    lemma_shows_extend("StorageRedisConfig { endpoint_url: "@ + str_debug_text(v.endpoint_url@) + ", db: "@ + int_decimal(v.db as int) + ", root: "@ + str_debug_text(v.root@) + ", default_ttl: "@, "root: "@ + str_debug_text(v.root@), option_i64_debug_text(v.default_ttl));
    lemma_glued_shows("StorageRedisConfig { endpoint_url: "@ + str_debug_text(v.endpoint_url@) + ", db: "@ + int_decimal(v.db as int) + ", root: "@ + str_debug_text(v.root@), ", default_ttl: "@, ", "@, "default_ttl: "@, option_i64_debug_text(v.default_ttl));
}

/// A sequence is a prefix of itself followed by anything.
proof fn lemma_debug_prefix(a: Seq<char>, b: Seq<char>)
    ensures
        a.is_prefix_of(a + b),
{
    assert((a + b).subrange(0, a.len() as int) =~= a);
}

/// A prefix stays a prefix when more follows.
proof fn lemma_prefix_extend(p: Seq<char>, t: Seq<char>, x: Seq<char>)
    requires
        p.is_prefix_of(t),
    ensures
        p.is_prefix_of(t + x),
{
    assert((t + x).subrange(0, p.len() as int) =~= t.subrange(0, p.len() as int));
}

/// The first part of a glued literal is a prefix of what starts with it.
proof fn lemma_glued_prefix(head: Seq<char>, key: Seq<char>, val: Seq<char>)
    ensures
        head.is_prefix_of(head + key + val),
{
    assert(head + key + val =~= head + (key + val));
    lemma_debug_prefix(head, key + val);
}

/// A key and its value occur where a glued literal ending in the key is
/// followed by the value.
proof fn lemma_glued_shows(a: Seq<char>, glued: Seq<char>, sep: Seq<char>, key: Seq<char>, val: Seq<char>)
    requires
        glued == sep + key,
    ensures
        shows(a + glued + val, key + val),
{
    assert(a + glued + val =~= (a + sep) + (key + val) + Seq::<char>::empty());
    lemma_shows(a + sep, key + val, Seq::<char>::empty());
}

/// An occurrence stays when more follows.
proof fn lemma_shows_extend(t: Seq<char>, piece: Seq<char>, x: Seq<char>)
    requires
        shows(t, piece),
    ensures
        shows(t + x, piece),
{
    let i = choose|i: int| 0 <= i <= t.len() - piece.len() && #[trigger] t.subrange(i, i + piece.len()) == piece;
    assert((t + x).subrange(i, i + piece.len()) =~= t.subrange(i, i + piece.len()));
}

} // verus!
