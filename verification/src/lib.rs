//! Control-plane adapter for a DAB multiplex daemon: translates a
//! UI-editable ensemble/service description into the daemon's startup
//! configuration document, and models the daemon's remote-control
//! request/reply protocol (parameter discovery and mutation).

pub mod config;
pub mod document;
pub mod numfmt;
pub mod rc;
