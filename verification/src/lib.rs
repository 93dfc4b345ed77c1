//! The desktop UI's logic for MyConnect: what the windows, the tray and the
//! dialogs show and decide, as plain values, with what each function does
//! stated and proved. Drawing and the desktop's services live around it.

pub mod text;
pub mod error;
pub mod paths;
pub mod device;
pub mod browse_describe;
pub mod browse;
pub mod browse_order;
pub mod route;
pub mod ping;
pub mod findmyphone;
pub mod features;
pub mod clipboard;
pub mod share;
pub mod notifications;
pub mod browse_ui;
pub mod tray;
pub mod drop;
pub mod toast;
pub mod autostart;
pub mod licenses;
pub mod placement;
pub mod instance;
pub mod pseudo;
pub mod incoming;
pub mod i18n;
pub mod dialog;
pub mod browse_update;
pub mod browse_page;
pub mod shell;
pub mod dropping;
pub mod notices;
pub mod address;
pub mod prompts;
pub mod ftl;
pub mod words;
pub mod demo;
