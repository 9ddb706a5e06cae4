pub mod cargo;
pub mod model;
pub mod policy;
pub mod fanout;
pub mod progress;
pub mod sequencer;
pub mod run;
