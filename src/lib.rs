//! A headless bootstrap harness for a layout pipeline: the identity namespace,
//! the event-loop waker, the font-key round trip, the layout worker's command
//! handling and the orchestration sequence, each as verified state and
//! transitions. Threads and channels live with the caller.

pub mod namespace;
pub mod waker;
pub mod font;
pub mod layout;
pub mod bootstrap;
