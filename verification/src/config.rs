//! Connection configuration: validated connection string plus pool and
//! timeout settings, built up in the builder style.
//!
//! Timeouts are carried as plain millisecond counts; the layer that talks to
//! the driver turns them into its own duration type.

use vstd::prelude::*;
use vstd::string::StrSliceExecFns;
use crate::error::ConfigError;

verus! {

/// `p` is a prefix of `s`.
pub open spec fn spec_has_prefix(s: Seq<char>, p: Seq<char>) -> bool {
    p.len() <= s.len() && (forall|i: int| 0 <= i < p.len() ==> s[i] == p[i])
}

/// Character-by-character prefix test.
fn has_prefix(s: &str, p: &str) -> (r: bool)
    ensures
        r == spec_has_prefix(s@, p@),
{
    let s_len = s.unicode_len();
    let p_len = p.unicode_len();
    if p_len > s_len {
        return false;
    }
    let mut i: usize = 0;
    while i < p_len
        invariant
            i <= p_len,
            p_len == p@.len(),
            p_len <= s_len,
            s_len == s@.len(),
            forall|j: int| 0 <= j < i ==> s@[j] == p@[j],
        decreases p_len - i,
    {
        if s.get_char(i) != p.get_char(i) {
            return false;
        }
        i += 1;
    }
    true
}

/// The connection string is acceptable: it names one of the two schemes the
/// driver understands.
pub open spec fn spec_valid_connection_string(s: Seq<char>) -> bool {
    spec_has_prefix(s, "mongodb://"@) || spec_has_prefix(s, "mongodb+srv://"@)
}

/// Settings used to open a client connection.
#[derive(Debug, Clone)]
pub struct ConnectionConfig {
    pub connection_string: String,
    pub app_name: Option<String>,
    pub max_pool_size: Option<u32>,
    pub min_pool_size: Option<u32>,
    pub server_selection_timeout_ms: u64,
    pub connect_timeout_ms: u64,
    pub socket_timeout_ms: Option<u64>,
    pub max_idle_time_ms: Option<u64>,
    pub retry_writes: bool,
    pub retry_reads: bool,
    pub direct_connection: bool,
    pub tls_enabled: bool,
}

impl ConnectionConfig {
    /// The fields every fresh configuration starts from, apart from the
    /// connection string.
    pub open spec fn spec_default_rest(self) -> bool {
        &&& self.app_name matches Some(n) && n@ == "gmsv_mongo_v2"@
        &&& self.max_pool_size == Some(100u32)
        &&& self.min_pool_size == Some(10u32)
        &&& self.server_selection_timeout_ms == 30000u64
        &&& self.connect_timeout_ms == 10000u64
        &&& self.socket_timeout_ms is None
        &&& self.max_idle_time_ms == Some(600000u64)
        &&& self.retry_writes == true
        &&& self.retry_reads == true
        &&& self.direct_connection == false
        &&& self.tls_enabled == false
    }

    /// Validates the connection string and starts from the default settings.
    pub fn new(connection_string: String) -> (r: Result<Self, ConfigError>)
        ensures
            r matches Ok(c) ==> spec_valid_connection_string(connection_string@)
                && c.connection_string@ == connection_string@ && c.spec_default_rest(),
            r matches Err(e) ==> !spec_valid_connection_string(connection_string@) && (
            e matches ConfigError::InvalidConnectionString(m) && m@
                == "Connection string must start with 'mongodb://' or 'mongodb+srv://'"@),
    {
        if !has_prefix(connection_string.as_str(), "mongodb://") && !has_prefix(
            connection_string.as_str(),
            "mongodb+srv://",
        ) {
            return Err(
                ConfigError::InvalidConnectionString(
                    "Connection string must start with 'mongodb://' or 'mongodb+srv://'".to_owned(),
                ),
            );
        }
        let mut c = Self::default();
        c.connection_string = connection_string;
        Ok(c)
    }

    pub fn with_app_name(self, name: String) -> (r: Self)
        ensures
            r == (Self { app_name: Some(name), ..self }),
    {
        Self { app_name: Some(name), ..self }
    }

    pub fn with_max_pool_size(self, size: u32) -> (r: Self)
        ensures
            r == (Self { max_pool_size: Some(size), ..self }),
    {
        Self { max_pool_size: Some(size), ..self }
    }

    pub fn with_min_pool_size(self, size: u32) -> (r: Self)
        ensures
            r == (Self { min_pool_size: Some(size), ..self }),
    {
        Self { min_pool_size: Some(size), ..self }
    }

    pub fn with_server_selection_timeout(self, timeout_ms: u64) -> (r: Self)
        ensures
            r == (Self { server_selection_timeout_ms: timeout_ms, ..self }),
    {
        Self { server_selection_timeout_ms: timeout_ms, ..self }
    }

    pub fn with_connect_timeout(self, timeout_ms: u64) -> (r: Self)
        ensures
            r == (Self { connect_timeout_ms: timeout_ms, ..self }),
    {
        Self { connect_timeout_ms: timeout_ms, ..self }
    }

    pub fn with_tls(self, enabled: bool) -> (r: Self)
        ensures
            r == (Self { tls_enabled: enabled, ..self }),
    {
        Self { tls_enabled: enabled, ..self }
    }

    pub fn with_retry_writes(self, enabled: bool) -> (r: Self)
        ensures
            r == (Self { retry_writes: enabled, ..self }),
    {
        Self { retry_writes: enabled, ..self }
    }

    pub fn with_retry_reads(self, enabled: bool) -> (r: Self)
        ensures
            r == (Self { retry_reads: enabled, ..self }),
    {
        Self { retry_reads: enabled, ..self }
    }
}

impl Default for ConnectionConfig {
    /// An empty connection string beside the standard settings.
    fn default() -> (r: Self)
        ensures
            r.connection_string@ == Seq::<char>::empty(),
            r.spec_default_rest(),
    {
        ConnectionConfig {
            connection_string: String::new(),
            app_name: Some("gmsv_mongo_v2".to_owned()),
            max_pool_size: Some(100),
            min_pool_size: Some(10),
            server_selection_timeout_ms: 30000,
            connect_timeout_ms: 10000,
            socket_timeout_ms: None,
            max_idle_time_ms: Some(600000),
            retry_writes: true,
            retry_reads: true,
            direct_connection: false,
            tls_enabled: false,
        }
    }
}

} // verus!
