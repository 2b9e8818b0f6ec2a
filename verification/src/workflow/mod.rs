//! The workflow engine: typed node graphs, the remaining-work scheduling
//! graph, run state rebuilt from events, and the orchestration decisions.

pub mod port;
pub mod node;
pub mod edge;
pub mod error;
pub mod graph_store;
pub mod graph;
pub mod execution;
pub mod remaining_work;
pub mod work_history;
pub mod run_state;
pub mod definition;
pub mod orchestrator;
pub mod trigger;
pub mod envelope;
pub mod worker;
pub mod nats;
