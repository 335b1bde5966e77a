//! The server side of ROS 2 actions.
//!
//! A server accepts goals from action clients, executes them, reports their status, and answers
//! cancel and result requests. This crate holds the rules of that protocol: the table of goals and
//! its transitions, the typed goal handles, the naming of an action's endpoints, and the decisions
//! of the loops that serve requests. Sending and receiving is left to the caller, who hands over
//! what came in together with a clock reading and gets back what is to go out.

pub mod action;
pub mod builder;
pub mod calls;
pub mod driver;
pub mod effects;
pub mod laws;
pub mod messages;
pub mod naming;
pub mod server;
pub mod state;
pub mod time;
pub mod token;
