//! Client configuration: API key, endpoint, timeout and retry settings.
//!
//! The API key is held in a `secrecy` wrapper, so its text never appears in
//! debug output; the raw value is exposed only to build the authorization
//! header.

use vstd::prelude::*;

use crate::error::DeepSeekError;
use crate::text::str_to_chars;

verus! {

use vstd::string::StringExecFns;

/// Default API base URL.
pub const DEFAULT_BASE_URL: &'static str = "https://api.deepseek.com";

/// Default request timeout in seconds.
pub const DEFAULT_TIMEOUT_SECS: u64 = 30;

/// Default number of automatic re-attempts.
pub const DEFAULT_MAX_RETRIES: u32 = 3;

/// A secret API key: secrecy's redacting wrapper around the key text.
/// Verus refuses the wrapper type's own declaration (its generic carries an
/// outside trait bound), so this struct holds it opaquely.
#[verifier::external_body]
#[derive(Debug)]
pub struct ApiKey {
    inner: secrecy::Secret<String>,
}

/// The characters a secret API key holds.
pub uninterp spec fn secret_chars(s: ApiKey) -> Seq<char>;

impl ApiKey {
    /// Relies on secrecy's `Secret::new`: the secret holds exactly the
    /// string it was built from.
    #[verifier::external_body]
    pub(crate) fn new(value: String) -> (r: ApiKey)
        ensures
            secret_chars(r) == value@,
    {
        ApiKey { inner: secrecy::Secret::new(value) }
    }

    /// Relies on secrecy's `ExposeSecret::expose_secret`: returns a
    /// reference to the stored string, unchanged.
    #[verifier::external_body]
    pub fn expose_secret(&self) -> (r: &String)
        ensures
            r@ == secret_chars(*self),
    {
        secrecy::ExposeSecret::expose_secret(&self.inner)
    }
}

impl Clone for ApiKey {
    /// Relies on secrecy's `Clone` for `Secret<String>`: the clone holds the
    /// same string.
    #[verifier::external_body]
    fn clone(&self) -> (r: Self)
        ensures
            secret_chars(r) == secret_chars(*self),
    {
        ApiKey { inner: self.inner.clone() }
    }
}

/// A whitespace character in the sense of `char::is_whitespace`: the
/// Unicode White_Space set, which is what `str::trim` removes.
pub open spec fn is_space_char(c: char) -> bool {
    let u = c as u32;
    ||| u == 0x09
    ||| u == 0x0A
    ||| u == 0x0B
    ||| u == 0x0C
    ||| u == 0x0D
    ||| u == 0x20
    ||| u == 0x85
    ||| u == 0xA0
    ||| u == 0x1680
    ||| (0x2000 <= u && u <= 0x200A)
    ||| u == 0x2028
    ||| u == 0x2029
    ||| u == 0x202F
    ||| u == 0x205F
    ||| u == 0x3000
}

/// Whether a text is empty or all whitespace, so that trimming it would
/// leave nothing.
pub open spec fn is_blank(s: Seq<char>) -> bool {
    forall|i: int| 0 <= i < s.len() ==> is_space_char(#[trigger] s[i])
}

/// Whether `s` starts with `p`.
pub open spec fn starts_with(s: Seq<char>, p: Seq<char>) -> bool {
    p.len() <= s.len() && s.subrange(0, p.len() as int) == p
}

fn is_space_char_exec(c: char) -> (r: bool)
    ensures
        r == is_space_char(c),
{
    let u = c as u32;
    u == 0x09 || u == 0x0A || u == 0x0B || u == 0x0C || u == 0x0D || u == 0x20 || u == 0x85 || u
        == 0xA0 || u == 0x1680 || (0x2000 <= u && u <= 0x200A) || u == 0x2028 || u == 0x2029 || u
        == 0x202F || u == 0x205F || u == 0x3000
}

fn is_blank_str(s: &str) -> (r: bool)
    ensures
        r == is_blank(s@),
{
    let cs = str_to_chars(s);
    let mut i: usize = 0;
    while i < cs.len()
        invariant
            i <= cs@.len(),
            cs@ == s@,
            forall|j: int| 0 <= j < i ==> is_space_char(#[trigger] s@[j]),
        decreases cs@.len() - i,
    {
        if !is_space_char_exec(cs[i]) {
            return false;
        }
        i = i + 1;
    }
    true
}

fn starts_with_str(s: &str, p: &str) -> (r: bool)
    ensures
        r == starts_with(s@, p@),
{
    let cs = str_to_chars(s);
    let ps = str_to_chars(p);
    if ps.len() > cs.len() {
        proof {
            assert(!starts_with(s@, p@));
        }
        return false;
    }
    let mut i: usize = 0;
    while i < ps.len()
        invariant
            i <= ps@.len() <= cs@.len(),
            cs@ == s@,
            ps@ == p@,
            forall|j: int| 0 <= j < i ==> s@[j] == p@[j],
        decreases ps@.len() - i,
    {
        if cs[i] != ps[i] {
            proof {
                assert(s@.subrange(0, p@.len() as int)[i as int] == s@[i as int]);
            }
            return false;
        }
        i = i + 1;
    }
    proof {
        assert(s@.subrange(0, p@.len() as int) =~= p@);
    }
    true
}

/// Configuration for the API client.
#[derive(Debug)]
pub struct DeepSeekConfig {
    /// API key for authentication; its text is redacted in debug output.
    pub api_key: ApiKey,
    /// Base URL for the API.
    pub base_url: String,
    /// Request timeout in whole seconds.
    pub timeout_secs: u64,
    /// Maximum number of automatic re-attempts for failed requests.
    pub max_retries: u32,
    /// Whether to validate TLS certificates; true in production.
    pub validate_certs: bool,
    /// Optional proxy URL.
    pub proxy: Option<String>,
    /// User agent string.
    pub user_agent: String,
}

/// A configuration is valid when the key and base URL are non-blank, the
/// base URL names an HTTP or HTTPS endpoint, and the timeout is positive.
pub open spec fn spec_config_valid(c: DeepSeekConfig) -> bool {
    &&& !is_blank(secret_chars(c.api_key))
    &&& !is_blank(c.base_url@)
    &&& (starts_with(c.base_url@, "http://"@) || starts_with(c.base_url@, "https://"@))
    &&& c.timeout_secs > 0
}

impl DeepSeekConfig {
    /// Creates a configuration with the given API key and every other
    /// setting at its default.
    pub fn new(api_key: String) -> (r: Self)
        ensures
            secret_chars(r.api_key) == api_key@,
            r.base_url@ == "https://api.deepseek.com"@,
            r.timeout_secs == DEFAULT_TIMEOUT_SECS,
            r.max_retries == DEFAULT_MAX_RETRIES,
            r.validate_certs == true,
            r.proxy is None,
            r.user_agent@ == "deepseek-rust/0.1.0"@,
    {
        DeepSeekConfig {
            api_key: ApiKey::new(api_key),
            base_url: String::from_str("https://api.deepseek.com"),
            timeout_secs: DEFAULT_TIMEOUT_SECS,
            max_retries: DEFAULT_MAX_RETRIES,
            validate_certs: true,
            proxy: None,
            user_agent: String::from_str("deepseek-rust/0.1.0"),
        }
    }

    /// Sets the base URL.
    pub fn with_base_url(self, url: String) -> (r: Self)
        ensures
            r == (DeepSeekConfig { base_url: url, ..self }),
    {
        DeepSeekConfig { base_url: url, ..self }
    }

    /// Sets the timeout, in whole seconds.
    pub fn with_timeout(self, timeout_secs: u64) -> (r: Self)
        ensures
            r == (DeepSeekConfig { timeout_secs, ..self }),
    {
        DeepSeekConfig { timeout_secs, ..self }
    }

    /// Sets the maximum number of automatic re-attempts.
    pub fn with_max_retries(self, retries: u32) -> (r: Self)
        ensures
            r == (DeepSeekConfig { max_retries: retries, ..self }),
    {
        DeepSeekConfig { max_retries: retries, ..self }
    }

    /// Sets the proxy URL.
    pub fn with_proxy(self, proxy: String) -> (r: Self)
        ensures
            r == (DeepSeekConfig { proxy: Some(proxy), ..self }),
    {
        DeepSeekConfig { proxy: Some(proxy), ..self }
    }

    /// Sets whether TLS certificates are validated.
    pub fn with_validate_certs(self, validate: bool) -> (r: Self)
        ensures
            r == (DeepSeekConfig { validate_certs: validate, ..self }),
    {
        DeepSeekConfig { validate_certs: validate, ..self }
    }

    /// Sets the user agent string.
    pub fn with_user_agent(self, user_agent: String) -> (r: Self)
        ensures
            r == (DeepSeekConfig { user_agent, ..self }),
    {
        DeepSeekConfig { user_agent, ..self }
    }

    /// Validates the configuration: succeeds exactly when it is valid, and
    /// otherwise reports the first failing condition, in the order API key,
    /// base URL presence, base URL scheme, timeout.
    pub fn validate(&self) -> (res: Result<(), DeepSeekError>)
        ensures
            res is Ok <==> spec_config_valid(*self),
            res matches Err(e) ==> e is ConfigError,
            is_blank(secret_chars(self.api_key)) ==> (res matches Err(e) && e
                matches DeepSeekError::ConfigError(m) && m@ == "API key cannot be empty"@),
            !is_blank(secret_chars(self.api_key)) && is_blank(self.base_url@) ==> (res
                matches Err(e) && e matches DeepSeekError::ConfigError(m) && m@
                == "Base URL cannot be empty"@),
            !is_blank(secret_chars(self.api_key)) && !is_blank(self.base_url@) && !(starts_with(
                self.base_url@,
                "http://"@,
            ) || starts_with(self.base_url@, "https://"@)) ==> (res matches Err(e) && e
                matches DeepSeekError::ConfigError(m) && m@
                == "Base URL must start with http:// or https://"@),
            !is_blank(secret_chars(self.api_key)) && !is_blank(self.base_url@) && (starts_with(
                self.base_url@,
                "http://"@,
            ) || starts_with(self.base_url@, "https://"@)) && self.timeout_secs == 0 ==> (res
                matches Err(e) && e matches DeepSeekError::ConfigError(m) && m@
                == "Timeout must be greater than 0"@),
    {
        if is_blank_str(self.api_key.expose_secret().as_str()) {
            return Err(DeepSeekError::ConfigError(String::from_str("API key cannot be empty")));
        }
        if is_blank_str(self.base_url.as_str()) {
            return Err(DeepSeekError::ConfigError(String::from_str("Base URL cannot be empty")));
        }
        if !starts_with_str(self.base_url.as_str(), "http://") && !starts_with_str(
            self.base_url.as_str(),
            "https://",
        ) {
            return Err(
                DeepSeekError::ConfigError(
                    String::from_str("Base URL must start with http:// or https://"),
                ),
            );
        }
        if self.timeout_secs == 0 {
            return Err(
                DeepSeekError::ConfigError(String::from_str("Timeout must be greater than 0")),
            );
        }
        Ok(())
    }

    /// The value of the authorization header: the bearer scheme with the raw
    /// API key. This is the one place the key's text leaves the secret
    /// wrapper.
    pub fn auth_header_value(&self) -> (r: String)
        ensures
            r@ == "Bearer "@ + secret_chars(self.api_key),
    {
        let mut r = String::from_str("Bearer ");
        r.append(self.api_key.expose_secret().as_str());
        r
    }

    /// The completions endpoint: the base URL with the completions path.
    pub fn completions_url(&self) -> (r: String)
        ensures
            r@ == self.base_url@ + "/chat/completions"@,
    {
        let mut r = self.base_url.clone();
        r.append("/chat/completions");
        r
    }
}

impl Clone for DeepSeekConfig {
    /// Cloning preserves every setting, the secret key text included.
    fn clone(&self) -> (r: Self)
        ensures
            secret_chars(r.api_key) == secret_chars(self.api_key),
            r.base_url@ == self.base_url@,
            r.timeout_secs == self.timeout_secs,
            r.max_retries == self.max_retries,
            r.validate_certs == self.validate_certs,
            r.proxy == self.proxy,
            r.user_agent@ == self.user_agent@,
    {
        DeepSeekConfig {
            api_key: self.api_key.clone(),
            base_url: self.base_url.clone(),
            timeout_secs: self.timeout_secs,
            max_retries: self.max_retries,
            validate_certs: self.validate_certs,
            proxy: match &self.proxy {
                Some(p) => Some(p.clone()),
                None => None,
            },
            user_agent: self.user_agent.clone(),
        }
    }
}

impl Default for DeepSeekConfig {
    /// A default configuration with an empty API key, which must be set
    /// before the configuration validates.
    fn default() -> (r: Self)
        ensures
            secret_chars(r.api_key) == Seq::<char>::empty(),
            r.base_url@ == "https://api.deepseek.com"@,
            r.timeout_secs == DEFAULT_TIMEOUT_SECS,
            r.max_retries == DEFAULT_MAX_RETRIES,
            r.validate_certs == true,
            r.proxy is None,
            r.user_agent@ == "deepseek-rust/0.1.0"@,
    {
        Self::new(String::new())
    }
}

} // verus!
