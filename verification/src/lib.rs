//! A rotation-aware incremental line reader ("tailer") for a single text
//! file.
//!
//! The verified core is a state machine over plain values: a cursor
//! (`FileWatcher`) that tracks the watched path, the inode of the currently
//! open file instance, the byte offset up to which lines were delivered, and
//! a one-way `finish` flag.  Every poll decision — emit a line, report "no
//! data yet", run the reopen/rotation procedure, or terminate — is a verified
//! function from the current state and a filesystem event to the next state
//! and an action.  The filesystem itself (open, read, seek, metadata) is the
//! caller's side; it feeds events in and performs the returned actions.
//!
//! `lines` holds the mathematical model of line-splitting a file's contents
//! and the laws the cursor obeys: the lines emitted from an offset
//! concatenate to exactly the bytes after that offset, and resuming from a
//! checkpoint repeats nothing and skips nothing.

pub mod lines;
pub mod watcher;

pub use watcher::FileWatcher;
pub use watcher::Message;
pub use watcher::OpenEvent;
pub use watcher::ReadEvent;
pub use watcher::ReadStep;
pub use watcher::ReopenStep;
pub use watcher::WatcherView;
