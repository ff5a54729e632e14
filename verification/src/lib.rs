//! The logic of a tray utility that turns GitHub notifications into desktop
//! toasts: rules from a YAML file decide, first match wins, what happens to
//! each notification; the library also reads poll responses, builds the
//! toast documents, reads deep links and decides tray commands.
pub mod text;
pub mod decimal;
pub mod config;
pub mod github;
pub mod rules;
pub mod poll;
pub mod notify;
pub mod parsed_url;
pub mod actions;
pub mod tray;
