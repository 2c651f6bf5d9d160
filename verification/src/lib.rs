//! The development watch loop of a static-site generator, with the site's
//! data-shaping kernels, written and verified with Verus.
//!
//! The core is in `dev`: building the set of files that influence the
//! generated site, coalescing bursts of filesystem events into single change
//! batches, and the rebuild loop that recovers from failed builds and never
//! overlaps two of them. The `config`, `data` and `site` modules hold the
//! configuration layering, release data and page-content computations the
//! site consumes; calls into outside crates stand behind small trusted
//! wrappers whose contracts name what they rely on.

pub mod config;
pub mod data;
pub mod dev;
pub mod errors;
pub mod site;
pub mod strutil;
