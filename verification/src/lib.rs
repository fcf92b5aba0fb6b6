//! Reconciliation engine of a controller that keeps a content store, a
//! workload and an endpoint in step with a `MarkdownView` resource.

pub mod apply;
pub mod assoc;
pub mod builder;
pub mod convergence;
pub mod driver;
pub mod error;
pub mod markdown;
pub mod ownership;
pub mod reconciler;
pub mod resources;
pub mod scheduler;
pub mod status;
pub mod store;
pub mod string_map;
pub mod timers;
