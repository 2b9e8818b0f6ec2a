//! Verified core of the silver-telegram platform: workflow graphs and their
//! execution state machine, triggers and schedules, rate limiting, platform
//! access control, authorization requests, conversation and AI primitives.

pub mod support;
pub mod platform_core;
pub mod workflow;
pub mod platform_access;
pub mod authz;
pub mod scheduler;
pub mod integration;
pub mod conversation;
pub mod ai;
