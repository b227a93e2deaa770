//! Build-trigger and dispatch core of a package-build service.
//!
//! A push notification names the paths its commits changed (`webhook`,
//! `changeset`). For each project registered for the pushed repository, a
//! `notify::PushSession` checks the project's plan (`plan`) and build
//! configuration (`build_config`, read through `toml_doc`), records a
//! failure state where a check fails, and builds a job where a changed path
//! lies under one of the project's triggers (`trigger`). After a build,
//! `postprocessor` decides whether the package is published. `handlers`
//! holds the decisions of the manual project and job requests.

pub mod changeset;
pub mod webhook;
pub mod toml_doc;
pub mod config;
pub mod text;
pub mod build_config;
pub mod plan;
pub mod project;
pub mod paths;
pub mod trigger;
pub mod notify;
pub mod postprocessor;
pub mod requests;
pub mod handlers;
