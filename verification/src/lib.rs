//! Planning and policy for packaging a Node.js application into standalone
//! executables.
//!
//! The library decides; it reads no file, opens no connection and starts no
//! program. `config` merges the command line, a configuration file and the
//! environment into one validated request. `pipeline` turns a request into the
//! ordered actions of a build, one at a time, as its caller reports how the
//! last one went; `transitions` states that order, and `laws` proves what
//! holds of every build. The other modules are the stages' own rules:
//! `version` resolves the runtime version, `archive` names and unpacks runtime
//! archives, `source`, `install`, `bundle` and `sea` build the commands of
//! their stages, `platform` and `layout` hold the fixed names.

pub mod archive;
pub mod bundle;
pub mod command;
pub mod config;
pub mod env_vars;
pub mod error;
pub mod install;
pub mod keygen;
pub mod laws;
pub mod layout;
pub mod pipeline;
pub mod platform;
pub mod sea;
pub mod source;
pub mod stages;
pub mod text;
pub mod transitions;
pub mod version;
