//! Port bindings, known-service metadata, Docker context, security
//! analysis, and health-check records.

pub mod binding;
pub mod docker_info;
pub mod enriched;
pub mod enrichment;
pub mod health;
pub mod health_service;
pub mod overview;
pub mod port_service;
pub mod registry;
pub mod security;
pub mod security_service;
pub mod service_info;
