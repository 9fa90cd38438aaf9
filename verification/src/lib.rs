//! Verified core of Opt-Out Desk: broker search links, discovery queries,
//! status and progress bookkeeping for data-broker removal workflows.

pub mod text;
pub mod keyed;
pub mod model;
pub mod encoding;
pub mod search;
pub mod status;
pub mod order;
pub mod routes;
pub mod storage;
pub mod laws;
pub mod search_laws;
pub mod status_laws;
pub mod order_laws;
