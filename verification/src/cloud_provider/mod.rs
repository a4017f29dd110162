//! Deployable units and the resources that own them.

pub mod aws;
pub mod chart_laws;
pub mod chart_plan;
pub mod chart_request;
pub mod chart_run;
pub mod helm;
pub mod plan_laws;
pub mod service;
pub mod template;
pub mod utilities;
pub mod versions;
