use srv::args::{parse_arguments, parse_port};
use srv::config::{
    default_cors, default_index, default_port_attempts, default_true, join_path, merge_configs,
    path_is_absolute, ConfigError, ServerConfig,
};

fn args(list: &[&str]) -> Vec<String> {
    list.iter().map(|s| s.to_string()).collect()
}

#[test]
fn test_new_config_keeps_port_and_directory() {
    let config = ServerConfig::new(9000, "/srv/files");
    assert_eq!(config.port, 9000);
    assert_eq!(config.directory, "/srv/files");
    assert_eq!(config.directory_str, "/srv/files");
    assert!(config.enable_cors);
    assert!(!config.show_hidden);
    assert!(config.follow_symlinks);
    assert_eq!(config.index_file, "index.html");
    assert_eq!(config.max_port_attempts, 10);
}

#[test]
fn test_defaults() {
    assert!(default_cors());
    assert!(default_true());
    assert_eq!(default_index(), "index.html");
    assert_eq!(default_port_attempts(), 10);
    let config = ServerConfig::default();
    assert_eq!(config.port, 8000);
    assert_eq!(config.directory_str, ".");
}

#[test]
fn test_parse_port_accepts_u16_decimals() {
    assert_eq!(parse_port("0"), Some(0));
    assert_eq!(parse_port("8000"), Some(8000));
    assert_eq!(parse_port("65535"), Some(65535));
    assert_eq!(parse_port("+80"), Some(80));
    assert_eq!(parse_port("007"), Some(7));
}

#[test]
fn test_parse_port_rejects_everything_else() {
    assert_eq!(parse_port(""), None);
    assert_eq!(parse_port("+"), None);
    assert_eq!(parse_port("65536"), None);
    assert_eq!(parse_port("123456789"), None);
    assert_eq!(parse_port("-1"), None);
    assert_eq!(parse_port("80a"), None);
    assert_eq!(parse_port("docs"), None);
    assert_eq!(parse_port("8 0"), None);
}

#[test]
fn test_parse_arguments_positional_convention() {
    let (port, dir) = parse_arguments(&args(&["srv"]));
    assert_eq!((port, dir.as_str()), (8000, "."));

    let (port, dir) = parse_arguments(&args(&["srv", "9123"]));
    assert_eq!((port, dir.as_str()), (9123, "."));

    let (port, dir) = parse_arguments(&args(&["srv", "9123", "/tmp/site"]));
    assert_eq!((port, dir.as_str()), (9123, "/tmp/site"));

    let (port, dir) = parse_arguments(&args(&["srv", "docs"]));
    assert_eq!((port, dir.as_str()), (8000, "docs"));

    // A number too large for a port is a directory name.
    let (port, dir) = parse_arguments(&args(&["srv", "65536"]));
    assert_eq!((port, dir.as_str()), (8000, "65536"));
}

#[test]
fn test_join_path() {
    assert_eq!(join_path("/home/user", "site"), "/home/user/site");
    assert_eq!(join_path("/", "site"), "/site");
    assert_eq!(join_path("/home/user", "/var/www"), "/var/www");
    assert!(path_is_absolute("/var/www"));
    assert!(!path_is_absolute("www"));
    assert!(!path_is_absolute(""));
}

#[test]
fn test_resolved_directory_joins_relative_paths() {
    let config = ServerConfig::new(8000, "site");
    assert_eq!(config.resolved_directory("/home/user"), "/home/user/site");

    let config = ServerConfig::new(8000, "/var/www");
    assert_eq!(config.resolved_directory("/home/user"), "/var/www");
}

#[test]
fn test_resolve_directory_accepts_directories_only() {
    let mut config = ServerConfig::new(8000, "site");

    let r = config.resolve_directory("/home/user/site".to_string(), false, false);
    assert!(matches!(r, Err(ConfigError::DirectoryMissing)));
    assert_eq!(config.directory, "site");

    let r = config.resolve_directory("/home/user/site".to_string(), true, false);
    assert!(matches!(r, Err(ConfigError::NotADirectory)));
    assert_eq!(config.directory, "site");

    let r = config.resolve_directory("/home/user/site".to_string(), true, true);
    assert!(r.is_ok());
    assert_eq!(config.directory, "/home/user/site");
}

#[test]
fn test_config_error_messages() {
    let msg = ConfigError::DirectoryMissing.message("/no/such/dir");
    assert_eq!(msg, "Directory does not exist: /no/such/dir");
    let msg = ConfigError::NotADirectory.message("/etc/passwd");
    assert_eq!(msg, "Path is not a directory: /etc/passwd");
}

#[test]
fn test_merge_configs_file_settings_win_except_port() {
    let mut cmd = ServerConfig::new(9000, "site");
    let mut file = ServerConfig::new(7000, "ignored");
    file.enable_cors = false;
    file.show_hidden = true;
    file.follow_symlinks = false;
    file.index_file = "home.html".to_string();
    file.max_port_attempts = 3;

    // A port given on the command line is kept.
    merge_configs(&mut cmd, file, true);
    assert_eq!(cmd.port, 9000);
    assert_eq!(cmd.directory_str, "site");
    assert!(!cmd.enable_cors);
    assert!(cmd.show_hidden);
    assert!(!cmd.follow_symlinks);
    assert_eq!(cmd.index_file, "home.html");
    assert_eq!(cmd.max_port_attempts, 3);
}

#[test]
fn test_merge_configs_takes_file_port_when_none_given() {
    let mut cmd = ServerConfig::new(8000, ".");
    let file = ServerConfig::new(7000, "ignored");
    merge_configs(&mut cmd, file, false);
    assert_eq!(cmd.port, 7000);
    assert_eq!(cmd.directory_str, ".");
}
