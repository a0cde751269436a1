pub mod app_list;
pub mod app_order;
pub mod capture;
pub mod capture_clock;
pub mod capture_status;
pub mod copyright_pages;
pub mod decimal;
pub mod device_model;
pub mod icon_grid;
pub mod ipa_watch;
pub mod ios_version;
pub mod microphone;
pub mod option_args;
pub mod options;
pub mod quick_options;
pub mod resolution;
