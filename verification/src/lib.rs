//! System overview: the state and decision logic behind a terminal system
//! monitor (CPU, RAM, GPU and disk charts, an error log and three tabs).

pub mod history;
pub mod dashboard;
pub mod monitor;
pub mod cli;
pub mod laws;
pub mod behaviour;
