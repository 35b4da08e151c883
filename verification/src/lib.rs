//! The verified core of a terminal dashboard with projects, todos, a table
//! and gauges: selection state, key handling, input editing and the small
//! computations that the screens show.

pub mod badge;
pub mod clock;
pub mod dashboard;
pub mod defaults;
pub mod input;
pub mod key_laws;
pub mod laws;
pub mod layout;
pub mod model;
pub mod state;
pub mod storage;
