use vstd::prelude::*;

verus! {

/// Address the server binds to when the configuration names none.
pub const DEFAULT_BIND_ADDR: &'static str = "[::]";

/// Port the server binds to when the configuration names none.
pub const DEFAULT_BIND_PORT: u16 = 8080;

/// Lifetime of a presigned URL, in seconds, when the configuration names none.
pub const DEFAULT_PRESIGN_EXPIRY: u64 = 300;

/// Region of a bucket whose configuration names none.
pub const DEFAULT_S3_REGION: &'static str = "us-east-1";

/// Whether a bucket is addressed by path when its configuration does not say.
pub const DEFAULT_S3_FORCE_PATH_STYLE: bool = true;

/// Environment variable that names the configuration file.
pub const CELIA_CONFIG_PATH: &'static str = "CELIA_CONFIG_PATH";

/// Configuration file that is read when the environment names none.
pub const DEFAULT_CONFIG_PATH: &'static str = "/etc/celia-media/config.yml";

} // verus!
