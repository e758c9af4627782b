//! Editing an object of a bucket/key addressed store as if it were a local
//! file: the object's address, the commands the edit runs on the host, the
//! rules of the store client, and the edit session itself, which is a state
//! machine from outcomes to the next thing to do.
//!
//! Nothing here touches the network, the terminal or the file system. A
//! driver performs each action the session asks for and reports the outcome.

pub mod location;
pub mod laws;
pub mod process;
pub mod session;
pub mod store;
