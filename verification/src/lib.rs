//! Decision logic of a repository backup tool.
//!
//! The tool lists the repositories of an account over a hosting platform's
//! REST interface, downloads each one as a compressed archive and stores the
//! archives in a directory. Everything that decides something lives here and
//! works on plain values: which requests are made, which repositories are
//! kept, where an archive is stored, how failures are counted and what is
//! reported. Sending requests, decoding documents and writing files is left to
//! the program that drives a [`run::BackupRun`].
//!
//! - [`config`]: the settings of a run and its credential.
//! - [`repository`]: repositories, their owners and the ownership filter.
//! - [`request`]: the requests that are made and how an answer is judged.
//! - [`archive`]: the archive of a repository and the place where it is stored.
//! - [`text`]: the lines that are shown.
//! - [`error`]: the ways in which a backup can fail.
//! - [`events`]: what a run and its driver tell each other.
//! - [`model`]: the course of a run as a transition function.
//! - [`run`]: the run that a driver carries from event to event.
//! - [`laws`]: what holds of every run.

pub mod archive;
pub mod config;
pub mod error;
pub mod events;
pub mod laws;
pub mod model;
pub mod repository;
pub mod request;
pub mod run;
pub mod text;
