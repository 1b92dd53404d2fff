//! Lifecycle-hook orchestration for a module bundler: which hooks exist, which
//! are switched off, in what order they fire, and how a handler's answer steers
//! the build.
//!
//! The hooks themselves: [`hook`] names them, [`disabled`] holds those that
//! are switched off, [`stage`] orders the sub-stages of asset processing, and
//! [`contract`] says what each handler is given and gives back. [`adapter`]
//! reads the outcome of one call. [`sequence`] fixes the order of a build,
//! [`driver`] leads a build through it, and [`laws`] states what holds of
//! every build. [`loan`] keeps what is lent to handlers apart.
//!
//! Three plugins raise no hooks of their own but decide along the way:
//! [`consume_shared_plugin`] with [`consume`], [`request`], [`description`]
//! and [`shared_map`]; [`minimizer`] with [`pattern`] and
//! [`raw_swc_js_minimizer`]; and [`wasm_plugin`].
//! [`module_type`] and [`text`] serve them all.

pub mod adapter;
pub mod consume;
pub mod consume_shared_plugin;
pub mod contract;
pub mod description;
pub mod disabled;
pub mod driver;
pub mod hook;
pub mod laws;
pub mod loan;
pub mod minimizer;
pub mod module_type;
pub mod pattern;
pub mod raw_swc_js_minimizer;
pub mod request;
pub mod sequence;
pub mod shared_map;
pub mod stage;
pub mod text;
pub mod wasm_plugin;
