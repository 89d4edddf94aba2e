//! Server configuration: construction, directory resolution, and the
//! merge of file-provided settings with command-line settings.
//!
//! The directory is modelled as a plain path string. Reading the current
//! working directory and asking the file system whether the resolved path
//! exists are left to the caller; the functions here compute the resolved
//! path and decide, from the answers, whether the configuration is usable.

use vstd::prelude::*;

verus! {

/// Default for the CORS flag when a config file leaves it out.
pub fn default_cors() -> (b: bool)
    ensures
        b,
{
    true
}

/// Default for boolean settings that are on unless switched off.
pub fn default_true() -> (b: bool)
    ensures
        b,
{
    true
}

/// Default index file name served for directory requests.
pub fn default_index() -> (s: String)
    ensures
        s@ == "index.html"@,
{
    String::from_str("index.html")
}

/// Default bound on the number of ports tried when binding.
pub fn default_port_attempts() -> (n: u8)
    ensures
        n == 10,
{
    10
}

/// Why a configuration cannot be used. Reported before any network
/// activity starts.
#[derive(Debug, Clone, Copy, PartialEq, Eq, Structural)]
pub enum ConfigError {
    /// The resolved directory does not exist.
    DirectoryMissing,
    /// The resolved path exists but is not a directory.
    NotADirectory,
}

impl ConfigError {
    /// The report this rejection prints for the offending path.
    pub fn message(&self, path: &str) -> (r: String)
        ensures
            self is DirectoryMissing ==> r@ == "Directory does not exist: "@ + path@,
            self is NotADirectory ==> r@ == "Path is not a directory: "@ + path@,
    {
        proof {
            reveal_strlit("Directory does not exist: ");
            reveal_strlit("Path is not a directory: ");
        }
        let mut out = match self {
            ConfigError::DirectoryMissing => String::from_str("Directory does not exist: "),
            ConfigError::NotADirectory => String::from_str("Path is not a directory: "),
        };
        out.append(path);
        out
    }
}

/// Resolved server settings, owned by one run of the server.
#[derive(Debug, Clone)]
pub struct ServerConfig {
    /// Port to listen on.
    pub port: u16,
    /// Directory to serve files from, as a path string; absolute once
    /// `resolve_directory` has accepted it.
    pub directory: String,
    /// Directory path exactly as it was given.
    pub directory_str: String,
    /// Whether to send permissive cross-origin headers.
    pub enable_cors: bool,
    /// Whether to show hidden files in directory listings.
    pub show_hidden: bool,
    /// Whether to follow symlinks.
    pub follow_symlinks: bool,
    /// Index file served for directory requests.
    pub index_file: String,
    /// Maximum number of ports tried when binding.
    pub max_port_attempts: u8,
}

/// The settings every configuration starts from: port 8000, the current
/// directory, CORS on, hidden files off, symlinks followed, `index.html`,
/// ten port attempts.
pub open spec fn is_default_config(c: ServerConfig) -> bool {
    &&& c.port == 8000
    &&& c.directory@ == "."@
    &&& c.directory_str@ == "."@
    &&& c.enable_cors == true
    &&& c.show_hidden == false
    &&& c.follow_symlinks == true
    &&& c.index_file@ == "index.html"@
    &&& c.max_port_attempts == 10
}

impl Default for ServerConfig {
    fn default() -> (c: Self)
        ensures
            is_default_config(c),
    {
        ServerConfig {
            port: 8000,
            directory: String::from_str("."),
            directory_str: String::from_str("."),
            enable_cors: true,
            show_hidden: false,
            follow_symlinks: true,
            index_file: String::from_str("index.html"),
            max_port_attempts: 10,
        }
    }
}

impl ServerConfig {
    /// A configuration with the given port and directory and every other
    /// setting at its default.
    pub fn new(port: u16, directory: &str) -> (c: Self)
        ensures
            c.port == port,
            c.directory@ == directory@,
            c.directory_str@ == directory@,
            c.enable_cors == true,
            c.show_hidden == false,
            c.follow_symlinks == true,
            c.index_file@ == "index.html"@,
            c.max_port_attempts == 10,
    {
        ServerConfig {
            port,
            directory: String::from_str(directory),
            directory_str: String::from_str(directory),
            ..Default::default()
        }
    }
}

/// Whether a path string is absolute: it starts with the path separator.
pub open spec fn is_absolute_path(s: Seq<char>) -> bool {
    s.len() > 0 && s[0] == '/'
}

/// The path obtained by interpreting `rel` relative to `base`: `rel`
/// itself when it is absolute, otherwise `base` and `rel` joined with a
/// separator (none added when `base` already ends with one).
pub open spec fn spec_joined_path(base: Seq<char>, rel: Seq<char>) -> Seq<char> {
    if is_absolute_path(rel) {
        rel
    } else if base.len() > 0 && base.last() == '/' {
        base + rel
    } else {
        base + "/"@ + rel
    }
}

/// Whether a path string is absolute.
pub fn path_is_absolute(s: &str) -> (b: bool)
    ensures
        b == is_absolute_path(s@),
{
    let n = s.unicode_len();
    n > 0 && s.get_char(0) == '/'
}

/// Join `rel` onto `base` unless `rel` is already absolute.
pub fn join_path(base: &str, rel: &str) -> (r: String)
    ensures
        r@ == spec_joined_path(base@, rel@),
{
    if path_is_absolute(rel) {
        return rel.to_owned();
    }
    let mut out = base.to_owned();
    let n = base.unicode_len();
    if !(n > 0 && base.get_char(n - 1) == '/') {
        out.append("/");
    }
    out.append(rel);
    out
}

impl ServerConfig {
    /// The absolute directory this configuration asks to serve: the given
    /// directory itself when absolute, otherwise the given directory
    /// joined onto the current working directory handed in by the caller.
    pub fn resolved_directory(&self, current_dir: &str) -> (r: String)
        ensures
            r@ == spec_joined_path(current_dir@, self.directory_str@),
    {
        join_path(current_dir, self.directory_str.as_str())
    }

    /// Accept or reject the resolved directory, given the file system's
    /// answers about the resolved path. On acceptance the configuration
    /// holds the resolved path; on rejection it is unchanged and the
    /// error says which check failed.
    pub fn resolve_directory(&mut self, resolved: String, exists: bool, is_dir: bool) -> (r: Result<
        (),
        ConfigError,
    >)
        ensures
            exists && is_dir ==> r is Ok && *final(self) == (ServerConfig {
                directory: resolved,
                ..*old(self)
            }),
            !exists ==> r == Err::<(), ConfigError>(ConfigError::DirectoryMissing) && *final(self)
                == *old(self),
            exists && !is_dir ==> r == Err::<(), ConfigError>(ConfigError::NotADirectory)
                && *final(self) == *old(self),
    {
        if !exists {
            return Err(ConfigError::DirectoryMissing);
        }
        if !is_dir {
            return Err(ConfigError::NotADirectory);
        }
        self.directory = resolved;
        Ok(())
    }
}

/// Overlay file-provided settings on command-line settings. Every
/// file setting wins except the port, which the command line keeps
/// whenever a port was given there; the directory is never taken from
/// the file here (the caller fixes it against the file's location).
pub fn merge_configs(cmd_config: &mut ServerConfig, file_config: ServerConfig, port_specified: bool)
    ensures
        final(cmd_config).port == if port_specified {
            old(cmd_config).port
        } else {
            file_config.port
        },
        final(cmd_config).directory == old(cmd_config).directory,
        final(cmd_config).directory_str == old(cmd_config).directory_str,
        final(cmd_config).enable_cors == file_config.enable_cors,
        final(cmd_config).show_hidden == file_config.show_hidden,
        final(cmd_config).follow_symlinks == file_config.follow_symlinks,
        final(cmd_config).index_file == file_config.index_file,
        final(cmd_config).max_port_attempts == file_config.max_port_attempts,
{
    if !port_specified {
        cmd_config.port = file_config.port;
    }
    cmd_config.enable_cors = file_config.enable_cors;
    cmd_config.show_hidden = file_config.show_hidden;
    cmd_config.follow_symlinks = file_config.follow_symlinks;
    cmd_config.index_file = file_config.index_file;
    cmd_config.max_port_attempts = file_config.max_port_attempts;
}

} // verus!
