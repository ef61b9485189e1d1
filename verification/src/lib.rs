//! A single-user microblogging feed: the data model, the decisions of the
//! start-up load, the application state machine and the description of what
//! is shown for each state.

pub mod laws;
pub mod load;
pub mod screen;
pub mod state;
pub mod tweet;
pub mod user;
