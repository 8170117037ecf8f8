//! Activity timeouts for large sets of independent entities.
//!
//! Every tracked entity carries an [`ActiveState`]: a flag that says whether
//! the entity is active or idle, a stopwatch, and the time after which an
//! entity without renewed activity goes idle. Once per tick the host hands
//! each state and the tick's length to [`check_timeout`], which reports the
//! moment an entity goes idle exactly once.
//!
//! The behaviour is stated over a mathematical model, [`timer::Timer`], and
//! the general facts about it are proved in [`laws`].

pub mod time;
pub mod watch;
pub mod timer;
pub mod laws;
pub mod state;
pub mod scan;

pub use state::{check_timeout, ActiveState, TimeoutEvent};
