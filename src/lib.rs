//! Backend core of a desktop markdown editor: the shared file-system watch
//! registry, the normaliser for raw watch events, the single-slot startup file
//! mailbox, and the relay for a second launch of an already running instance.

pub mod events;
pub mod launch;
pub mod mailbox;
pub mod os_watch;
pub mod registry;
