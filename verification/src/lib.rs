//! Android UI automation driven through ADB and a device-side JSON-RPC
//! service: the selectors, key codes, settings, element checks and the
//! parsing of device answers.
pub mod adb;
pub mod atx_agent;
pub mod device;
pub mod duration;
pub mod error;
pub mod json;
pub mod jsonrpc;
pub mod key;
pub mod models;
pub mod number;
pub mod outside;
pub mod screen;
pub mod selector;
pub mod settings;
pub mod text;
pub mod uiobject;
