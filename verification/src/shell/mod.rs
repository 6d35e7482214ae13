//! Steps that run a shell command line.
pub mod shell_config;

pub use self::shell_config::ShellConfig;
