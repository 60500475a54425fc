//! Operations of the deployment's administrators.

pub mod init_global_config;
