//! Decision logic of an operator that runs a Clair installation.

pub mod assets;
pub mod clairs;
mod clock;
pub mod compose;
pub mod condition;
pub mod config;
pub mod event;
pub mod image;
pub mod indexers;
pub mod json;
pub mod k8s;
pub mod keyed;
pub mod labels;
pub mod laws;
pub mod lists;
pub mod maps;
pub mod matchers;
pub mod merge;
pub mod model;
pub mod mounts;
pub mod owned;
pub mod render;
pub mod resource;
pub mod sort;
pub mod status;
pub mod subresource;
pub mod templates;
pub mod testing;
pub mod text;
pub mod v1alpha1;
pub mod webhook;
pub mod xtask;
