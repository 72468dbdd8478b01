//! Verified core of the Pika Backup user interface: the decisions, texts and
//! small parsers that the GTK front end displays and acts upon.

pub mod error;
pub mod i18n;
pub mod duration;
pub mod status_level;
pub mod schedule_status;
pub mod status_tracking;
pub mod schedule;
pub mod text;
pub mod check;
pub mod background;
pub mod borg_ops;
pub mod repo;
pub mod df;
pub mod shell_args;
pub mod paths;
pub mod dialogs;
pub mod config_io;
pub mod archives;
pub mod exclude;
pub mod backup_page;
pub mod backup_info;
pub mod transfer;
pub mod preferences;
pub mod setup_flow;
