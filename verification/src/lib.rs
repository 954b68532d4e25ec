//! An in-memory collector of diagnostic events, filtered by severity and by
//! target name, kept in the order in which they were accepted.

pub mod collector;
pub mod event;
pub mod laws;
pub mod level;
pub mod targets;

pub use collector::EventCollector;
pub use event::CollectedEvent;
pub use level::Level;
pub use targets::AllowedTargets;
