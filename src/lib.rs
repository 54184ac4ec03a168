//! Classification, preview-server bookkeeping and bundle planning for PHP
//! web projects.

pub mod bundle;
pub mod classify;
pub mod dependencies;
pub mod descriptor;
pub mod error;
pub mod project;
pub mod registry;
pub mod text;
