//! The tailer cursor and its poll/reopen step functions.

use vstd::prelude::*;

verus! {

/// One item produced by a poll: either a full line together with the
/// checkpoint (inode, offset) reached after it, or the "no data yet"
/// sentinel that tells the caller nothing new has appeared.
#[allow(non_camel_case_types)]
pub enum Message {
    NONE,
    Line { inode: u64, position: u64, line: String },
}

/// What one attempt to read a line from the open handle produced: a clean
/// end-of-file (zero bytes), or a newline-terminated chunk of `len` bytes.
/// A read error is not an event: it is fatal and the caller aborts.
pub enum ReadEvent {
    Eof,
    Data { line: String, len: u64 },
}

/// What the caller must do after a poll step.
pub enum ReadStep {
    /// Terminate the sequence: no further items, ever.
    End,
    /// Run the reopen procedure, then yield `Message::NONE`.
    Reopen,
    /// Yield this item, with the handle reseeked to the new position.
    Item(Message),
}

/// Outcome of one open-and-stat attempt in the reopen loop.
pub enum OpenEvent {
    /// The path does not currently exist.
    NotFound,
    /// The open failed for some other reason.
    OtherError,
    /// The open succeeded but reading its metadata failed.
    MetaFailed,
    /// The open and metadata query succeeded; the fresh file instance has
    /// this inode and size, and its handle is now the cursor's handle.
    Opened { inode: u64, size: u64 },
}

/// What the caller must do after one reopen attempt.
pub enum ReopenStep {
    /// Give up the reopen loop: the cursor was closed while the file was
    /// unusable.  The next poll terminates the sequence.
    Stop,
    /// Wait a nonzero backoff, then attempt another open.
    Retry,
    /// A usable file is acquired: seek its handle to this offset and leave
    /// the loop.
    Acquired { seek_to: u64 },
}

/// The abstract state of a `FileWatcher`: the watched path, the identity of
/// the currently open file instance, the delivered-up-to offset, and the
/// terminal flag.
pub struct WatcherView {
    pub filename: Seq<char>,
    pub inode: u64,
    pub position: u64,
    pub finish: bool,
}

/// The tailer cursor.  It records where in which file instance the next line
/// begins; the caller owns the actual file handle and keeps its read
/// position equal to `position` by performing the seeks the step functions
/// call for.
pub struct FileWatcher {
    filename: String,
    inode: u64,
    position: u64,
    finish: bool,
}

impl View for FileWatcher {
    type V = WatcherView;

    closed spec fn view(&self) -> WatcherView {
        WatcherView {
            filename: self.filename@,
            inode: self.inode,
            position: self.position,
            finish: self.finish,
        }
    }
}

impl FileWatcher {
    /// Starts a cursor on a freshly opened file: `inode` and `size` are the
    /// opened file's metadata.  The cursor starts at end-of-file, so only
    /// future appends are seen, and is not finished.
    pub fn new(filename: String, inode: u64, size: u64) -> (w: FileWatcher)
        ensures
            w@ == (WatcherView { filename: filename@, inode, position: size, finish: false }),
    {
        FileWatcher { filename, inode, position: size, finish: false }
    }

    /// The watched path.
    pub fn get_filename(&mut self) -> (r: String)
        ensures
            *final(self) == *old(self),
            r@ == old(self)@.filename,
    {
        self.filename.clone()
    }

    /// The inode of the currently open file instance.
    pub fn get_inode(&mut self) -> (r: u64)
        ensures
            *final(self) == *old(self),
            r == old(self)@.inode,
    {
        self.inode
    }

    /// The byte offset up to which lines have been delivered.
    pub fn get_position(&mut self) -> (r: u64)
        ensures
            *final(self) == *old(self),
            r == old(self)@.position,
    {
        self.position
    }

    /// Requests termination.  Idempotent and one-way: the flag never unsets,
    /// and no other field changes.
    pub fn close(&mut self)
        ensures
            final(self)@ == (WatcherView { finish: true, ..old(self)@ }),
    {
        self.finish = true;
    }

    /// Resumes from a checkpoint: moves the cursor to `start_pos` and hands
    /// back an independent cursor there (the caller seeks both handles).
    ///
    /// A nonzero `inode` asks for a staleness check: if it differs from the
    /// current inode the checkpoint belongs to a rotated-away file instance,
    /// the operation fails, and the cursor is left exactly as it was.  An
    /// `inode` of 0 bypasses the check.  This is the only way the offset can
    /// move backwards; reads only advance it.
    pub fn reposition(&mut self, inode: u64, start_pos: u64) -> (r: Result<FileWatcher, &'static str>)
        ensures
            r is Err <==> inode > 0 && old(self)@.inode != inode,
            r is Err ==> *final(self) == *old(self),
            r is Ok ==> final(self)@ == (WatcherView { position: start_pos, ..old(self)@ }),
            (r matches Ok(w) ==> w@ == final(self)@),
    {
        if inode > 0 && self.inode != inode {
            return Err("stale checkpoint: the live file's inode does not match");
        }
        self.position = start_pos;
        Ok(self.fork())
    }

    /// The poll decision: what one attempted line read means for the cursor.
    ///
    /// A close request takes priority over delivering further content: once
    /// `finish` is set, every event terminates the sequence and nothing
    /// changes.  Otherwise a read of `len` bytes advances the offset by
    /// exactly `len` and yields the line together with the checkpoint
    /// reached after it, and a clean end-of-file asks the caller to run the
    /// reopen procedure and yield the "no data" sentinel.
    pub fn read(&mut self, event: ReadEvent) -> (step: ReadStep)
        requires
            (event matches ReadEvent::Data { len, .. } ==> old(self)@.position + len <= u64::MAX),
        ensures
            old(self)@.finish ==> step is End && *final(self) == *old(self),
            !old(self)@.finish ==> match event {
                ReadEvent::Eof => step is Reopen && *final(self) == *old(self),
                ReadEvent::Data { line, len } => {
                    &&& final(self)@ == (WatcherView {
                        position: (old(self)@.position + len) as u64,
                        ..old(self)@
                    })
                    &&& step == (ReadStep::Item(Message::Line {
                        inode: old(self)@.inode,
                        position: (old(self)@.position + len) as u64,
                        line,
                    }))
                },
            },
    {
        match event {
            ReadEvent::Eof => {
                if self.finish {
                    ReadStep::End
                } else {
                    ReadStep::Reopen
                }
            },
            ReadEvent::Data { line, len } => {
                if self.finish {
                    return ReadStep::End;
                }
                self.position = self.position + len;
                ReadStep::Item(Message::Line { inode: self.inode, position: self.position, line })
            },
        }
    }

    /// The rotation-detection decision: what one open-and-stat attempt means
    /// for the cursor.
    ///
    /// Every failure — a missing path, any other open error, a failed
    /// metadata query — is retried rather than silently dropping the watch,
    /// but the close flag is consulted on every attempt: a cursor closed
    /// while the path is unusable stops retrying, so a requested close
    /// bounds the wait at retry granularity.  A successful open with a
    /// different inode is
    /// a rotation: the cursor moves to offset 0 of the new file instance.
    /// With the same inode but a size now smaller than the offset the file
    /// was truncated in place, and the cursor resets to offset 0 of the same
    /// instance rather than seeking past end-of-file.  Otherwise nothing
    /// changed and the cursor stays where it was.
    pub fn reopen_step(&mut self, event: OpenEvent) -> (step: ReopenStep)
        ensures
            final(self)@.filename == old(self)@.filename,
            final(self)@.finish == old(self)@.finish,
            match event {
                OpenEvent::NotFound | OpenEvent::OtherError | OpenEvent::MetaFailed => {
                    &&& *final(self) == *old(self)
                    &&& if old(self)@.finish {
                        step is Stop
                    } else {
                        step is Retry
                    }
                },
                OpenEvent::Opened { inode, size } => {
                    if inode != old(self)@.inode {
                        &&& final(self)@ == (WatcherView { inode, position: 0u64, ..old(self)@ })
                        &&& step == (ReopenStep::Acquired { seek_to: 0u64 })
                    } else if size < old(self)@.position {
                        &&& final(self)@ == (WatcherView { position: 0u64, ..old(self)@ })
                        &&& step == (ReopenStep::Acquired { seek_to: 0u64 })
                    } else {
                        &&& *final(self) == *old(self)
                        &&& step == (ReopenStep::Acquired { seek_to: old(self)@.position })
                    }
                },
            },
    {
        match event {
            OpenEvent::NotFound | OpenEvent::OtherError | OpenEvent::MetaFailed => {
                if self.finish {
                    ReopenStep::Stop
                } else {
                    ReopenStep::Retry
                }
            },
            OpenEvent::Opened { inode, size } => {
                if inode != self.inode {
                    self.inode = inode;
                    self.position = 0;
                } else if size < self.position {
                    self.position = 0;
                }
                ReopenStep::Acquired { seek_to: self.position }
            },
        }
    }

    /// An independent cursor at the same state.  The caller gives the copy
    /// its own file handle, seeked to the shared position; afterwards the
    /// two evolve independently.
    pub fn fork(&self) -> (w: FileWatcher)
        ensures
            w@ == self@,
    {
        FileWatcher {
            filename: self.filename.clone(),
            inode: self.inode,
            position: self.position,
            finish: self.finish,
        }
    }
}

} // verus!
