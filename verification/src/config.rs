use vstd::prelude::*;
use vstd::string::*;
use vstd::utf8::{decode_utf8, valid_utf8};

pub mod constants;

verus! {

/// Region of a bucket whose configuration names none.
pub fn default_region() -> (region: String)
    ensures
        region@ == constants::DEFAULT_S3_REGION@,
{
    constants::DEFAULT_S3_REGION.to_owned()
}

/// Whether a bucket is addressed by path when its configuration does not say.
pub fn default_force_path_style() -> (flag: bool)
    ensures
        flag == constants::DEFAULT_S3_FORCE_PATH_STYLE,
        flag,
{
    constants::DEFAULT_S3_FORCE_PATH_STYLE
}

/// The character that stands for a digit.
pub open spec fn digit_char(digit: nat) -> char {
    if digit == 0 {
        '0'
    } else if digit == 1 {
        '1'
    } else if digit == 2 {
        '2'
    } else if digit == 3 {
        '3'
    } else if digit == 4 {
        '4'
    } else if digit == 5 {
        '5'
    } else if digit == 6 {
        '6'
    } else if digit == 7 {
        '7'
    } else if digit == 8 {
        '8'
    } else {
        '9'
    }
}

/// A number written in decimal, without leading zeros.
pub open spec fn decimal(n: nat) -> Seq<char>
    decreases n,
{
    if n < 10 {
        seq![digit_char(n)]
    } else {
        decimal(n / 10).push(digit_char(n % 10))
    }
}

/// The text of one digit.
fn digit_text(digit: u16) -> (text: &'static str)
    requires
        digit < 10,
    ensures
        text@ == seq![digit_char(digit as nat)],
{
    proof {
        reveal_strlit("0");
        reveal_strlit("1");
        reveal_strlit("2");
        reveal_strlit("3");
        reveal_strlit("4");
        reveal_strlit("5");
        reveal_strlit("6");
        reveal_strlit("7");
        reveal_strlit("8");
        reveal_strlit("9");
    }
    let text = if digit == 0 {
        "0"
    } else if digit == 1 {
        "1"
    } else if digit == 2 {
        "2"
    } else if digit == 3 {
        "3"
    } else if digit == 4 {
        "4"
    } else if digit == 5 {
        "5"
    } else if digit == 6 {
        "6"
    } else if digit == 7 {
        "7"
    } else if digit == 8 {
        "8"
    } else {
        "9"
    };
    assert(text@ =~= seq![digit_char(digit as nat)]);
    text
}

/// Writes a port number in decimal.
fn port_text(port: u16) -> (text: String)
    ensures
        text@ == decimal(port as nat),
    decreases port,
{
    if port < 10 {
        String::from_str(digit_text(port))
    } else {
        let text = port_text(port / 10).concat(digit_text(port % 10));
        assert(text@ =~= decimal(port as nat));
        text
    }
}

/// Address and port that the server listens on when the configuration
/// names none: the default address, a colon, and the default port in
/// decimal, that is `[::]:8080`.
pub fn default_listen() -> (listen: String)
    ensures
        listen@ == constants::DEFAULT_BIND_ADDR@ + seq![':'] + decimal(
            constants::DEFAULT_BIND_PORT as nat,
        ),
        listen@ == "[::]:8080"@,
{
    let listen = String::from_str(constants::DEFAULT_BIND_ADDR).concat(":").concat(
        port_text(constants::DEFAULT_BIND_PORT).as_str(),
    );
    proof {
        reveal_strlit(":");
        reveal_strlit("[::]");
        reveal_strlit("[::]:8080");
        reveal_with_fuel(decimal, 4);
        assert(":"@ =~= seq![':']);
        assert(decimal(8080) =~= seq!['8', '0', '8', '0']);
        assert(listen@ =~= constants::DEFAULT_BIND_ADDR@ + seq![':'] + decimal(8080));
        assert(listen@ =~= "[::]:8080"@);
    }
    listen
}

/// Lifetime of a presigned URL, in seconds, when the configuration names none.
pub fn default_presign_expiry_secs() -> (secs: u64)
    ensures
        secs == constants::DEFAULT_PRESIGN_EXPIRY,
        secs == 300,
{
    constants::DEFAULT_PRESIGN_EXPIRY
}

/// Where a secret is to be taken from.
#[derive(Debug, PartialEq)]
pub enum CredentialConfig {
    /// The secret itself.
    Plain { plain: String },
    /// The path of a file that holds the secret.
    Path { path: String },
    /// The name of an environment variable that holds the secret.
    Env { env: String },
}

/// A [`CredentialConfig`] with its text as a sequence of characters.
pub enum CredentialConfigView {
    Plain { plain: Seq<char> },
    Path { path: Seq<char> },
    Env { env: Seq<char> },
}

impl View for CredentialConfig {
    type V = CredentialConfigView;

    open spec fn view(&self) -> CredentialConfigView {
        match self {
            CredentialConfig::Plain { plain } => CredentialConfigView::Plain { plain: plain@ },
            CredentialConfig::Path { path } => CredentialConfigView::Path { path: path@ },
            CredentialConfig::Env { env } => CredentialConfigView::Env { env: env@ },
        }
    }
}

/// Why a secret could not be had.
#[derive(Debug)]
pub enum CredentialError {
    /// The file of the given path could not be read.
    UnreadableFile(String),
    /// The file of the given path holds no text.
    InvalidFileContent(String),
    /// The environment variable of the given name is not set, or holds no
    /// text.
    MissingEnv(String),
}

/// A [`CredentialError`] with its text as a sequence of characters.
pub enum CredentialErrorView {
    UnreadableFile(Seq<char>),
    InvalidFileContent(Seq<char>),
    MissingEnv(Seq<char>),
}

impl View for CredentialError {
    type V = CredentialErrorView;

    open spec fn view(&self) -> CredentialErrorView {
        match self {
            CredentialError::UnreadableFile(path) => CredentialErrorView::UnreadableFile(path@),
            CredentialError::InvalidFileContent(path) => CredentialErrorView::InvalidFileContent(
                path@,
            ),
            CredentialError::MissingEnv(env) => CredentialErrorView::MissingEnv(env@),
        }
    }
}

impl CredentialErrorView {
    /// The line that says what went wrong, with the path or the name in
    /// double quotes.
    pub open spec fn message(self) -> Seq<char> {
        match self {
            CredentialErrorView::UnreadableFile(path) => "Unable to read credential file \""@
                + path + "\""@,
            CredentialErrorView::InvalidFileContent(path) =>
                "Unable to read content of credential file \""@ + path + "\""@,
            CredentialErrorView::MissingEnv(env) =>
                "Missing or unprocessable environment variable \""@ + env + "\""@,
        }
    }
}

impl CredentialError {
    /// The line that says what went wrong.
    pub fn to_string(&self) -> (text: String)
        ensures
            text@ == self@.message(),
    {
        match self {
            CredentialError::UnreadableFile(path) => String::from_str(
                "Unable to read credential file \"",
            ).concat(path.as_str()).concat("\""),
            CredentialError::InvalidFileContent(path) => String::from_str(
                "Unable to read content of credential file \"",
            ).concat(path.as_str()).concat("\""),
            CredentialError::MissingEnv(env) => String::from_str(
                "Missing or unprocessable environment variable \"",
            ).concat(env.as_str()).concat("\""),
        }
    }
}

/// `String::from_utf8`: the text that the bytes encode, where they are
/// well-formed UTF-8, and nothing where they are not.
#[verifier::external_body]
fn text_from_utf8(bytes: Vec<u8>) -> (text: Option<String>)
    ensures
        text is Some <==> valid_utf8(bytes@),
        text matches Some(decoded) ==> decoded@ == decode_utf8(bytes@),
{
    String::from_utf8(bytes).ok()
}

/// The secret that a reference stands for, given what was found where it
/// points: the content of the file, or the value of the variable, as
/// bytes, or nothing where there is none. A literal is the secret itself,
/// whatever was found. A file must have been read and must hold UTF-8; so
/// must a variable.
pub open spec fn resolved(reference: CredentialConfigView, found: Option<Seq<u8>>) -> Result<
    Seq<char>,
    CredentialErrorView,
> {
    match reference {
        CredentialConfigView::Plain { plain } => Ok(plain),
        CredentialConfigView::Path { path } => match found {
            None => Err(CredentialErrorView::UnreadableFile(path)),
            Some(bytes) => if valid_utf8(bytes) {
                Ok(decode_utf8(bytes))
            } else {
                Err(CredentialErrorView::InvalidFileContent(path))
            },
        },
        CredentialConfigView::Env { env } => match found {
            None => Err(CredentialErrorView::MissingEnv(env)),
            Some(bytes) => if valid_utf8(bytes) {
                Ok(decode_utf8(bytes))
            } else {
                Err(CredentialErrorView::MissingEnv(env))
            },
        },
    }
}

/// The bytes that were found, as a sequence.
pub open spec fn found_view(found: Option<Vec<u8>>) -> Option<Seq<u8>> {
    match found {
        Some(bytes) => Some(bytes@),
        None => None,
    }
}

/// A resolved secret, or the failure, with the texts as sequences of
/// characters.
pub open spec fn secret_view(secret: Result<String, CredentialError>) -> Result<
    Seq<char>,
    CredentialErrorView,
> {
    match secret {
        Ok(text) => Ok(text@),
        Err(error) => Err(error@),
    }
}

impl Clone for CredentialConfig {
    fn clone(&self) -> (copy: CredentialConfig)
        ensures
            copy@ == self@,
    {
        match self {
            CredentialConfig::Plain { plain } => CredentialConfig::Plain { plain: plain.clone() },
            CredentialConfig::Path { path } => CredentialConfig::Path { path: path.clone() },
            CredentialConfig::Env { env } => CredentialConfig::Env { env: env.clone() },
        }
    }
}

impl CredentialConfig {
    /// Whether this is the secret itself.
    pub fn is_plain(&self) -> (plain: bool)
        ensures
            plain == (self@ is Plain),
    {
        match self {
            CredentialConfig::Plain { .. } => true,
            _ => false,
        }
    }

    /// The secret that this reference stands for, given what was found
    /// where it points. Reading the file or the variable is the caller's
    /// part; `found` holds the bytes, or nothing where the read failed.
    pub fn resolve(self, found: Option<Vec<u8>>) -> (secret: Result<String, CredentialError>)
        ensures
            secret_view(secret) == resolved(self@, found_view(found)),
    {
        match self {
            CredentialConfig::Plain { plain } => Ok(plain),
            CredentialConfig::Path { path } => match found {
                None => Err(CredentialError::UnreadableFile(path)),
                Some(bytes) => match text_from_utf8(bytes) {
                    Some(text) => Ok(text),
                    None => Err(CredentialError::InvalidFileContent(path)),
                },
            },
            CredentialConfig::Env { env } => match found {
                None => Err(CredentialError::MissingEnv(env)),
                Some(bytes) => match text_from_utf8(bytes) {
                    Some(text) => Ok(text),
                    None => Err(CredentialError::MissingEnv(env)),
                },
            },
        }
    }

    /// The secret that this reference stands for, where it can be had: a
    /// literal; a file that was read and holds UTF-8; a variable that is
    /// set and holds UTF-8. A caller for whom anything else is fatal tests
    /// with [`CredentialConfig::resolve`] first, and stops on its error.
    pub fn into_secret(self, found: Option<Vec<u8>>) -> (secret: String)
        requires
            resolved(self@, found_view(found)) is Ok,
        ensures
            resolved(self@, found_view(found)) == Ok::<Seq<char>, CredentialErrorView>(secret@),
    {
        match self.resolve(found) {
            Ok(secret) => secret,
            Err(_) => String::new(),
        }
    }
}

/// The settings of one tenant: where its bucket is, how to sign in, and how
/// its objects are delivered.
#[derive(Debug)]
pub struct BucketConfig {
    pub endpoint_url: String,
    pub bucket_name: String,
    pub access_key: CredentialConfig,
    pub secret_key: CredentialConfig,
    pub region: String,
    pub force_path_style: bool,
    /// Lifetime of this tenant's presigned URLs, in seconds, where it differs
    /// from the system-wide one.
    pub presign_expiry_secs: Option<u64>,
    /// Whether objects are streamed through the gateway rather than
    /// delivered by a redirect.
    pub proxy: bool,
}

/// A [`BucketConfig`] with its texts as sequences of characters.
pub struct BucketConfigView {
    pub endpoint_url: Seq<char>,
    pub bucket_name: Seq<char>,
    pub access_key: CredentialConfigView,
    pub secret_key: CredentialConfigView,
    pub region: Seq<char>,
    pub force_path_style: bool,
    pub presign_expiry_secs: Option<u64>,
    pub proxy: bool,
}

impl View for BucketConfig {
    type V = BucketConfigView;

    open spec fn view(&self) -> BucketConfigView {
        BucketConfigView {
            endpoint_url: self.endpoint_url@,
            bucket_name: self.bucket_name@,
            access_key: self.access_key@,
            secret_key: self.secret_key@,
            region: self.region@,
            force_path_style: self.force_path_style,
            presign_expiry_secs: self.presign_expiry_secs,
            proxy: self.proxy,
        }
    }
}

impl BucketConfigView {
    /// Lifetime of this tenant's presigned URLs: its own where it names one,
    /// else the system-wide one.
    pub open spec fn effective_presign_expiry(self, system_wide: u64) -> u64 {
        match self.presign_expiry_secs {
            Some(secs) => secs,
            None => system_wide,
        }
    }

    /// Both credentials are given as the secrets themselves.
    pub open spec fn credentials_resolved(self) -> bool {
        self.access_key is Plain && self.secret_key is Plain
    }
}

/// The gateway's configuration. The tenants are listed with their names; of
/// two entries with one name the later one counts. They are kept as a list,
/// which the registry is built from by walking it; what the list stands
/// for is the mapping from names to settings that the view gives.
#[derive(Debug)]
pub struct AppConfig {
    /// Address and port to listen on.
    pub listen: String,
    /// Lifetime of presigned URLs, in seconds, for tenants that name none.
    pub presign_expiry_secs: u64,
    pub buckets: Vec<(String, BucketConfig)>,
}

/// An [`AppConfig`] as a mapping from tenant names to settings.
pub struct AppConfigView {
    pub listen: Seq<char>,
    pub presign_expiry_secs: u64,
    pub buckets: Map<Seq<char>, BucketConfigView>,
}

/// The mapping that a list of named tenants stands for: each name is mapped
/// to the settings of the last entry that bears it.
pub open spec fn buckets_by_name(entries: Seq<(String, BucketConfig)>) -> Map<
    Seq<char>,
    BucketConfigView,
>
    decreases entries.len(),
{
    if entries.len() == 0 {
        Map::empty()
    } else {
        buckets_by_name(entries.drop_last()).insert(entries.last().0@, entries.last().1@)
    }
}

impl View for AppConfig {
    type V = AppConfigView;

    open spec fn view(&self) -> AppConfigView {
        AppConfigView {
            listen: self.listen@,
            presign_expiry_secs: self.presign_expiry_secs,
            buckets: buckets_by_name(self.buckets@),
        }
    }
}

impl BucketConfig {
    /// Whether both credentials are given as the secrets themselves.
    pub fn is_resolved(&self) -> (resolved: bool)
        ensures
            resolved == self@.credentials_resolved(),
    {
        self.access_key.is_plain() && self.secret_key.is_plain()
    }
}

impl AppConfig {
    /// Every credential of every entry is given as the secret itself.
    pub open spec fn credentials_resolved(&self) -> bool {
        forall|i: int|
            0 <= i < self.buckets@.len() ==> (#[trigger] self.buckets@[i]).1@.credentials_resolved()
    }

    /// Whether every credential of every entry is given as the secret
    /// itself.
    pub fn is_resolved(&self) -> (resolved: bool)
        ensures
            resolved == self.credentials_resolved(),
    {
        let mut i: usize = 0;
        while i < self.buckets.len()
            invariant
                i <= self.buckets.len(),
                forall|j: int|
                    0 <= j < i ==> (#[trigger] self.buckets@[j]).1@.credentials_resolved(),
            decreases self.buckets.len() - i,
        {
            if !self.buckets[i].1.is_resolved() {
                return false;
            }
            i += 1;
        }
        true
    }
}

} // verus!
