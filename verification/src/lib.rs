//! A verified core of a file-linting pipeline: rules match occurrences in a
//! modelled syntax tree, a workspace service pulls capped diagnostics and
//! applies suggested fixes, and a per-file orchestrator classifies the
//! outcome. The syntax-tree parser, the on-disk storage and any interactive
//! review surface are external collaborators; they hand this library plain
//! values and take plain values back.

pub mod diagnostics;
pub mod laws;
pub mod orchestrator;
pub mod quota;
pub mod render;
pub mod review;
pub mod rules;
pub mod service;
pub mod syntax;
pub mod workspace;
