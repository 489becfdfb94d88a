//! Orchestration of image-generation requests: payload assembly, the request
//! to the prediction service, interpretation of its reply, and the archival
//! of each finished generation in a timestamped directory.
//!
//! The library decides; the surrounding application performs. Every network
//! and filesystem operation is described by an [`effects::Effect`] that the
//! application carries out, reporting back with an [`effects::Report`]. A
//! generation is one [`orchestrator::Orchestrator`], which runs a
//! [`client::PredictionClient`] and then an [`archiver::Archiver`]; the
//! archiver in turn runs a [`storage::StorageSetup`] and a
//! [`downloader::Downloader`].
//!
//! Each type has a view that holds its content as mathematical values, and
//! each machine's answers are given by a function on those views. The laws
//! of the pipeline are proved of these functions.

pub mod archiver;
pub mod client;
pub mod clock;
pub mod decimal;
pub mod downloader;
pub mod effects;
pub mod error;
pub mod model;
pub mod orchestrator;
pub mod payload;
pub mod storage;
