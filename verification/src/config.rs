//! The configuration of the client: where the protos are, which server to
//! talk to, where history and logs go.

use vstd::prelude::*;

verus! {

/// Whether `text` names no environment variable: it holds no dollar sign.
pub open spec fn names_no_variable(text: Seq<char>) -> bool {
    !text.contains('$')
}

/// `shellexpand::env` replaces each `$NAME` and `${NAME}` by the value that
/// the process environment gives the variable, and fails where a variable is
/// not set. What it returns depends on the environment, but for a text
/// without a dollar sign, which comes back unchanged.
#[verifier::external_body]
fn expand_env(text: &str) -> (expanded: Option<String>)
    ensures
        match expanded {
            Some(s) => names_no_variable(text@) ==> s@ == text@,
            None => !names_no_variable(text@),
        },
{
    shellexpand::env(text).ok().map(|s| s.into_owned())
}

/// The expansion where there is one, else the text as it was written.
pub fn expanded_or_unchanged(written: &String, expansion: Option<String>) -> (path: String)
    ensures
        path@ == match expansion {
            Some(expanded) => expanded@,
            None => written@,
        },
{
    match expansion {
        Some(expanded) => expanded,
        None => written.clone(),
    }
}

/// Expands the environment variables that `path` names. A path that names a
/// variable which is not set stays as it is.
pub fn shell_expand(path: &String) -> (expanded: String)
    ensures
        names_no_variable(path@) ==> expanded@ == path@,
{
    let expansion = expand_env(path.as_str());
    expanded_or_unchanged(path, expansion)
}

/// Expands each path of a list.
pub fn shell_expand_all(paths: &Vec<String>) -> (expanded: Vec<String>)
    ensures
        expanded@.len() == paths@.len(),
        forall|i: int|
            0 <= i < paths@.len() && names_no_variable(#[trigger] paths@[i]@) ==> expanded@[i]@
                == paths@[i]@,
{
    let mut expanded: Vec<String> = Vec::new();
    let mut i: usize = 0;
    while i < paths.len()
        invariant
            0 <= i <= paths.len(),
            expanded@.len() == i,
            forall|k: int|
                0 <= k < i && names_no_variable(#[trigger] paths@[k]@) ==> expanded@[k]@
                    == paths@[k]@,
        decreases paths.len() - i,
    {
        expanded.push(shell_expand(&paths[i]));
        i = i + 1;
    }
    expanded
}

/// The config for the server values of the grpc client.
#[derive(Debug, Clone, PartialEq, Eq)]
pub struct ServerConfig {
    /// The default address.
    pub default_address: String,
}

impl ServerConfig {
    pub fn new(default_address: &str) -> (config: Self)
        ensures
            config.default_address@ == default_address@,
    {
        Self { default_address: default_address.to_owned() }
    }
}

impl Default for ServerConfig {
    fn default() -> (config: Self)
        ensures
            config.default_address@ == Seq::<char>::empty(),
    {
        Self { default_address: String::new() }
    }
}

/// Whether histories are saved on their own when nothing is configured.
pub fn default_autosave() -> (autosave: bool)
    ensures
        autosave,
{
    true
}

/// The history config of the grpc client.
#[derive(Debug, Clone, PartialEq, Eq)]
pub struct HistoryConfig {
    /// The directory where the history is saved.
    pub directory: String,
    /// Whether autosave is enabled.
    pub autosave: bool,
    /// Whether the history is disabled.
    pub disabled: bool,
}

impl Default for HistoryConfig {
    fn default() -> (config: Self)
        ensures
            config.directory@ == Seq::<char>::empty(),
            config.autosave,
            !config.disabled,
    {
        Self { directory: String::new(), autosave: default_autosave(), disabled: false }
    }
}

impl HistoryConfig {
    /// Instantiate a new history config.
    pub fn new(directory: &str, autosave: bool, disabled: bool) -> (config: Self)
        ensures
            config.directory@ == directory@,
            config.autosave == autosave,
            config.disabled == disabled,
    {
        Self { directory: directory.to_owned(), autosave, disabled }
    }

    /// Returns the path to the history, with the environment variables that
    /// it names expanded.
    pub fn directory_expanded(&self) -> (path: String)
        ensures
            names_no_variable(self.directory@) ==> path@ == self.directory@,
    {
        shell_expand(&self.directory)
    }
}

/// How much the client logs.
#[derive(Debug, Clone, Copy, PartialEq, Eq, Structural)]
pub enum LogLevel {
    Debug,
    Info,
    Warn,
    Error,
}

impl Default for LogLevel {
    fn default() -> (level: Self)
        ensures
            level == LogLevel::Info,
    {
        LogLevel::Info
    }
}

/// The name of the log file, as a sequence of characters.
pub open spec fn log_file_name() -> Seq<char> {
    "wireman.log"@
}

/// The logger config.
#[derive(Debug, Clone, PartialEq, Eq)]
pub struct LoggingConfig {
    /// The log level.
    pub level: LogLevel,
    /// The directory where the log file is stored.
    pub directory: String,
}

impl Default for LoggingConfig {
    fn default() -> (config: Self)
        ensures
            config.level == LogLevel::Info,
            config.directory@ == Seq::<char>::empty(),
    {
        Self { level: LogLevel::Info, directory: String::new() }
    }
}

impl LoggingConfig {
    /// Instantiate a new logging config.
    pub fn new(level: LogLevel, file_path: &str) -> (config: Self)
        ensures
            config.level == level,
            config.directory@ == file_path@,
    {
        Self { level, directory: file_path.to_owned() }
    }

    /// Returns the directory of the log file, with the environment variables
    /// that it names expanded.
    pub fn directory_expanded(&self) -> (path: String)
        ensures
            names_no_variable(self.directory@) ==> path@ == self.directory@,
    {
        shell_expand(&self.directory)
    }

    /// The name of the log file.
    pub fn file_name() -> (name: String)
        ensures
            name@ == log_file_name(),
    {
        "wireman.log".to_owned()
    }
}

/// The TLS config of the grpc client.
#[derive(Debug, Clone, PartialEq, Eq)]
pub struct TlsConfig {
    /// Custom certificates.
    pub custom_cert: Option<String>,
}

impl Default for TlsConfig {
    fn default() -> (config: Self)
        ensures
            config.custom_cert is None,
    {
        Self { custom_cert: None }
    }
}

impl TlsConfig {
    /// Instantiate a `TlsConfig`.
    pub fn new(custom_cert: Option<String>) -> (config: Self)
        ensures
            config.custom_cert == custom_cert,
    {
        Self { custom_cert }
    }
}

/// The top level config.
#[derive(Debug, Clone, PartialEq, Eq)]
pub struct Config {
    /// The include directories in which to search for the protos.
    pub includes: Vec<String>,
    /// A list of proto files such as [internal.proto, api.proto].
    pub files: Vec<String>,
    /// The history config.
    pub history: HistoryConfig,
    /// The server config.
    pub server: ServerConfig,
    /// The logger config.
    pub logging: LoggingConfig,
    /// Optional TLS settings.
    pub tls: TlsConfig,
}

impl Config {
    /// Gets the include directories, each with the environment variables
    /// that it names expanded.
    pub fn includes(&self) -> (paths: Vec<String>)
        ensures
            paths@.len() == self.includes@.len(),
            forall|i: int|
                0 <= i < self.includes@.len() && names_no_variable(#[trigger] self.includes@[i]@)
                    ==> paths@[i]@ == self.includes@[i]@,
    {
        shell_expand_all(&self.includes)
    }

    /// Gets the files, each with the environment variables that it names
    /// expanded.
    pub fn files(&self) -> (paths: Vec<String>)
        ensures
            paths@.len() == self.files@.len(),
            forall|i: int|
                0 <= i < self.files@.len() && names_no_variable(#[trigger] self.files@[i]@)
                    ==> paths@[i]@ == self.files@[i]@,
    {
        shell_expand_all(&self.files)
    }
}

} // verus!
