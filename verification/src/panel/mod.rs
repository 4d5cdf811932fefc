//! The control panel's API: the checks and decisions behind its handlers.

pub mod access;
pub mod admin_ip;
pub mod apps;
pub mod auth;
pub mod backups;
pub mod branding;
pub mod cloudflare;
pub mod databases;
pub mod filemanager;
pub mod git_deploy;
pub mod host;
pub mod logs;
pub mod migration;
pub mod notifications;
pub mod plugins;
pub mod reseller;
pub mod runtimes;
pub mod settings;
pub mod sites;
