use vstd::prelude::*;

verus! {

use vstd::utf8::encode_utf8;

/// The UTF-8 bytes of a string value.
pub open spec fn spec_str_bytes(s: Seq<char>) -> Seq<u8> {
    encode_utf8(s)
}

/// Runtime configuration of the daemon.
pub struct Config {
    /// Stream-socket path used for log ingestion.
    pub socket_path: String,
    /// Directory where columnar files are stored.
    pub storage_dir: String,
    /// Optional path to a schema file for validation.
    pub schema_path: Option<String>,
    /// Number of records per batch; a full batch is flushed at once.
    pub batch_size: usize,
    /// Compression codec name (snappy, zstd, gzip, none).
    pub compression: String,
    /// Maximum number of concurrent connections.
    pub max_connections: usize,
    /// File rotation size in bytes; accepted but unused, every flush rotates.
    pub rotation_size: u64,
    /// Seconds of idle time before the batch is flushed.
    pub flush_interval_secs: u64,
}

/// A reason a configuration is rejected.
#[derive(Debug)]
pub enum ConfigError {
    /// `batch_size` must be greater than zero.
    ZeroBatchSize,
    /// `max_connections` must be greater than zero.
    ZeroMaxConnections,
    /// The codec is not one of snappy, zstd, gzip, none.
    InvalidCompression,
}

pub fn default_socket_path() -> (r: String)
    ensures
        r@ == "/tmp/logdaemon.sock"@,
{
    "/tmp/logdaemon.sock".to_owned()
}

pub fn default_storage_dir() -> (r: String)
    ensures
        r@ == "./logs"@,
{
    "./logs".to_owned()
}

pub fn default_batch_size() -> (n: usize)
    ensures
        n == 1000,
{
    1000
}

pub fn default_compression() -> (r: String)
    ensures
        r@ == "snappy"@,
{
    "snappy".to_owned()
}

pub fn default_max_connections() -> (n: usize)
    ensures
        n == 1000,
{
    1000
}

pub fn default_rotation_size() -> (n: u64)
    ensures
        n == 104857600,
{
    // 100 MiB
    104857600
}

pub fn default_flush_interval() -> (n: u64)
    ensures
        n == 5,
{
    5
}

impl Default for Config {
    fn default() -> (r: Self)
        ensures
            r.socket_path@ == "/tmp/logdaemon.sock"@,
            r.storage_dir@ == "./logs"@,
            r.schema_path is None,
            r.batch_size == 1000,
            r.compression@ == "snappy"@,
            r.max_connections == 1000,
            r.rotation_size == 104857600,
            r.flush_interval_secs == 5,
    {
        Config {
            socket_path: default_socket_path(),
            storage_dir: default_storage_dir(),
            schema_path: None,
            batch_size: default_batch_size(),
            compression: default_compression(),
            max_connections: default_max_connections(),
            rotation_size: default_rotation_size(),
            flush_interval_secs: default_flush_interval(),
        }
    }
}

/// The four codec names `validate` accepts, byte for byte.
pub open spec fn spec_codec_name(s: Seq<u8>) -> bool {
    ||| s == spec_snappy_bytes()
    ||| s == spec_zstd_bytes()
    ||| s == spec_gzip_bytes()
    ||| s == spec_none_bytes()
}

/// The bytes of "snappy".
pub open spec fn spec_snappy_bytes() -> Seq<u8> {
    seq![115u8, 110u8, 97u8, 112u8, 112u8, 121u8]
}

/// The bytes of "zstd".
pub open spec fn spec_zstd_bytes() -> Seq<u8> {
    seq![122u8, 115u8, 116u8, 100u8]
}

/// The bytes of "gzip".
pub open spec fn spec_gzip_bytes() -> Seq<u8> {
    seq![103u8, 122u8, 105u8, 112u8]
}

/// The bytes of "none".
pub open spec fn spec_none_bytes() -> Seq<u8> {
    seq![110u8, 111u8, 110u8, 101u8]
}

/// The bytes of "uncompressed".
pub open spec fn spec_uncompressed_bytes() -> Seq<u8> {
    seq![117u8, 110u8, 99u8, 111u8, 109u8, 112u8, 114u8, 101u8, 115u8, 115u8, 101u8, 100u8]
}

/// Compare two byte slices for equality.
pub fn bytes_eq(a: &[u8], b: &[u8]) -> (r: bool)
    ensures
        r <==> a@ == b@,
{
    if a.len() != b.len() {
        return false;
    }
    let n = a.len();
    let mut i: usize = 0;
    while i < n
        invariant
            n == a@.len() == b@.len(),
            i <= n,
            forall|j: int| 0 <= j < i ==> a@[j] == b@[j],
        decreases n - i,
    {
        if a[i] != b[i] {
            return false;
        }
        i += 1;
    }
    assert(a@ =~= b@);
    true
}

impl Config {
    /// Reject configurations the daemon cannot run with: a zero batch size, a
    /// zero connection limit, or an unknown compression codec.
    pub fn validate(&self) -> (r: Result<(), ConfigError>)
        ensures
            r matches Ok(()) <==> (self.batch_size > 0 && self.max_connections > 0
                && spec_codec_name(spec_str_bytes(self.compression@))),
            self.batch_size == 0 ==> (r matches Err(e) && e is ZeroBatchSize),
            (self.batch_size > 0 && self.max_connections == 0) ==> (r matches Err(e)
                && e is ZeroMaxConnections),
            (self.batch_size > 0 && self.max_connections > 0 && !spec_codec_name(
                spec_str_bytes(self.compression@),
            )) ==> (r matches Err(e) && e is InvalidCompression),
    {
        if self.batch_size == 0 {
            return Err(ConfigError::ZeroBatchSize);
        }
        if self.max_connections == 0 {
            return Err(ConfigError::ZeroMaxConnections);
        }
        let snappy: Vec<u8> = vec![115u8, 110u8, 97u8, 112u8, 112u8, 121u8];
        let zstd: Vec<u8> = vec![122u8, 115u8, 116u8, 100u8];
        let gzip: Vec<u8> = vec![103u8, 122u8, 105u8, 112u8];
        let none: Vec<u8> = vec![110u8, 111u8, 110u8, 101u8];
        let c = self.compression.as_str().as_bytes();
        if bytes_eq(c, snappy.as_slice()) || bytes_eq(c, zstd.as_slice()) || bytes_eq(
            c,
            gzip.as_slice(),
        ) || bytes_eq(c, none.as_slice()) {
            Ok(())
        } else {
            Err(ConfigError::InvalidCompression)
        }
    }
}

impl ConfigError {
    /// A human-readable description of the rejection.
    pub fn message(&self) -> (r: String)
        ensures
            self is ZeroBatchSize ==> r@ == "batch_size must be greater than 0"@,
            self is ZeroMaxConnections ==> r@ == "max_connections must be greater than 0"@,
            self is InvalidCompression ==> r@
                == "Invalid compression codec. Must be one of: snappy, zstd, gzip, none"@,
    {
        match self {
            ConfigError::ZeroBatchSize => "batch_size must be greater than 0".to_owned(),
            ConfigError::ZeroMaxConnections => "max_connections must be greater than 0".to_owned(),
            ConfigError::InvalidCompression => {
                "Invalid compression codec. Must be one of: snappy, zstd, gzip, none".to_owned()
            },
        }
    }
}

} // verus!
