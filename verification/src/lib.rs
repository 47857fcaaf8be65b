//! A fleet-deployment orchestrator.
//!
//! Given the declarative description of an application and the nodes of a
//! pool, the library resolves the targets of a deploy, plans and tracks the
//! pipeline that runs against each target, coordinates the run over all of
//! them, sequentially or concurrently, and aggregates what they report. It
//! decides and never performs: every command it builds is text, every step
//! it asks for is carried out by its caller, who hands the outcome back.
//!
//! - `target`, `config`: what the operator names and declares.
//! - `pool`, `report`: node groups, their health and drain state, and what
//!   is shown of them.
//! - `resolver`, `deploy`: from request to the filtered list of targets.
//! - `pipeline`, `remote`: the steps against one target and their commands.
//! - `coordinator`, `batch`: the run over many targets; bounded fan-out.
//! - `tunnel`: a long-lived operation that cleans up on every way out.
//! - `scanner`, `launch`, `wizard`, `init`, `images`: project detection and
//!   set-up.
//! - `serve`, `metrics`, `node`, `domain`, `account`, `api`, `update`,
//!   `prompt`, `output`: the node daemon and the smaller commands.
//! - `text`, `json`: text primitives and parsed documents.

pub mod account;
pub mod api;
pub mod batch;
pub mod config;
pub mod coordinator;
pub mod deploy;
pub mod domain;
pub mod images;
pub mod init;
pub mod json;
pub mod launch;
pub mod metrics;
pub mod node;
pub mod output;
pub mod pipeline;
pub mod pool;
pub mod prompt;
pub mod remote;
pub mod report;
pub mod resolver;
pub mod scanner;
pub mod serve;
pub mod target;
pub mod text;
pub mod tunnel;
pub mod update;
pub mod wizard;
