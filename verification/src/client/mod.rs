//! The client's model of the servers that it is connected to.

pub mod bootstrap;
pub mod bootstrap_laws;
pub mod change_laws;
pub mod laws;
pub mod model;
pub mod outcome_laws;
pub mod overlay_laws;
pub mod overlays;
pub mod plan_laws;
pub mod plans;
pub mod routes;
pub mod row_laws;
pub mod rows;
pub mod state;
pub mod types;
