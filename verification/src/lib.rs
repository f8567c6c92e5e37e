//! Request validation, access rules and workflow decisions of the contest
//! platform API, with their contracts.
pub mod error;
pub mod presentation;
pub mod text;
pub mod auth;
pub mod backoff;
pub mod contests;
pub mod digest;
pub mod printing;
pub mod orchestration;
pub mod contest_problems;
pub mod judge_dispatch;
