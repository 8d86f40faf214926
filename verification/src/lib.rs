//! Routing and task-flow decisions of the Nature data-flow engine.
//!
//! The engine moves business data (`Instance`s) through relations: a stored
//! instance is routed to the relations whose selection demands it meets, each
//! relation yields a conversion task, and converted instances are stored again.
//! This crate holds the data model, the selection rules, the construction of
//! tasks, and the decisions each controller takes after every outside step
//! (a database write, a cache read, a converter call, a channel send).

pub mod error;
pub mod flow;
pub mod inner_controller;
pub mod model;
pub mod route;
pub mod serial;
pub mod task_store;
