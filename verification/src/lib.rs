//! Decision logic of a harvester that retrieves administrative communications
//! from a legacy web portal, and of the steps that sort and report the
//! downloaded documents afterwards.
//!
//! Everything here works on plain values. The portal, the browser and the
//! file system are driven by the caller, which performs the commands that the
//! state machines of this crate hand out and reports back what came of them.
//!
//! The harvester is made of
//! - [`monitor`], which tells when the downloads in a directory are complete;
//! - [`profile`], the disposable browser profile and its deletion;
//! - [`session`], which brings the portal to a fresh sign-in;
//! - [`pagination`], the arithmetic of pages and places on a page;
//! - [`attachments`] and [`listed`], the work on one item;
//! - [`web_automation`] and [`busqueda_comunicaciones`], the runs over a range
//!   and over a list of items;
//! - [`remote`], [`portal`], [`policy`] and [`messages`], the commands, the
//!   map of the portal's controls, the waits and the words that the runs use.
//!
//! What follows the harvest is in [`file_processor`], [`pdf_extractor`] and
//! [`excel_handler`]; [`config`] and [`gui`] hold the accounts and the state
//! of the window. [`text`] and [`patterns`] are the helpers on text.

pub mod attachments;
pub mod busqueda_comunicaciones;
pub mod config;
pub mod excel_handler;
pub mod file_processor;
pub mod gui;
pub mod listed;
pub mod messages;
pub mod monitor;
pub mod pagination;
pub mod patterns;
pub mod pdf_extractor;
pub mod policy;
pub mod portal;
pub mod profile;
pub mod remote;
pub mod session;
pub mod text;
pub mod web_automation;
