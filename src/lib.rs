//! Launch orchestration of an execution-client node: the ordered setup of a
//! launch context, the wiring decisions made once components exist, and the
//! static composition of a node's component types.
pub mod context;
pub mod events;
pub mod exex;
pub mod exit;
pub mod node;
pub mod node_types;
pub mod wiring;
