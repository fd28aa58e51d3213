//! Page routing, authentication gating and response shaping for a small web
//! front end, stated over plain values so that every decision carries a
//! machine-checked contract.

pub mod filters;
pub mod handlers;
pub mod laws;
pub mod middleware;
pub mod proxy;
pub mod reply;
pub mod router;
pub mod status;
