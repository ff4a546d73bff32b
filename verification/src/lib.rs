//! A cooperative yield for asynchronous tasks.
//!
//! [`YieldNow`] is a future that suspends the task awaiting it exactly once:
//! its first poll wakes the task and reports `Pending`, every later poll
//! reports `Ready(())`. It holds nothing but its own state, so it needs no
//! allocation and can be dropped at any point.
//!
//! [`current_route`] decides whether a yield should instead be handed to the
//! native yield of a host runtime that is built into the program.
pub mod lifetime;
pub mod once;
pub mod route;
pub mod trusted;

pub use once::YieldNow;
pub use route::{choose_route, current_route, route_for, Hosts, Route};
