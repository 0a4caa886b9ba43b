//! Server-side logic: task storage and management, push notification
//! configuration, event handling decisions, identifiers and request context.

pub mod task_store;
pub mod task_manager;
pub mod push;
pub mod id_generator;
pub mod middleware;
pub mod call_context;
pub mod handler;
pub mod result_aggregator;
pub mod app;
pub mod streaming;
pub mod dispatch;
pub mod rest;
pub mod events;
pub mod context_builder;
pub mod task_updater;
