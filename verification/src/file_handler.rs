//! The file acquisition pipeline: one polling state machine that
//! unifies "user picked a file via a dialog" and "user dropped a file"
//! into at most one result per frame, without ever blocking the frame
//! loop.
//!
//! The dialog itself runs in a background task owned by the host; each
//! frame the host reports what that task shows (`None` while still
//! running, otherwise its result) and, when the head of the drop queue
//! must be read from disk, hands in the outcome of that read.  All
//! decisions — which source wins, what is consumed, what is returned —
//! are made here.

use vstd::prelude::*;

use crate::errors::AppError;

verus! {

/// A fully acquired file: its raw bytes and the path or filename it
/// came from.
#[derive(Debug, Clone)]
pub struct File {
    /// File contents.
    pub data: Vec<u8>,
    /// Path or filename.
    pub path: String,
}

impl Default for File {
    /// An empty file with an empty path.
    fn default() -> (r: Self)
        ensures
            r.data@ == Seq::<u8>::empty(),
            r.path@ == Seq::<char>::empty(),
    {
        File { data: Vec::new(), path: String::new() }
    }
}

/// A file the host environment reports as dropped onto the window:
/// either its bytes are already in memory (web-style drops) or only a
/// path is known and the bytes must still be read (native drops).
#[derive(Debug, Clone)]
pub struct DroppedFile {
    /// Display name of the dropped file.
    pub name: String,
    /// Filesystem path, when the environment knows one.
    pub path: Option<String>,
    /// In-memory contents, when the environment already holds them.
    pub bytes: Option<Vec<u8>>,
}

/// Outcome of a single acquisition attempt.
#[derive(Debug, Clone)]
pub enum FileState {
    /// The dialog closed without a selection (a transient non-failure).
    NotSelected,
    /// A dialog request is outstanding but not resolved yet.
    UploadedOrSelected,
    /// No dialog request is outstanding.
    NoUpload,
    /// A file is fully acquired.
    Ready(File),
}

/// State of the pipeline: the latest batch of dropped files, and
/// whether a dialog request is outstanding.
#[derive(Debug)]
pub struct FileHandler {
    /// The latest batch of dropped files.  The first unclaimed poll
    /// reads the first of them and discards the rest of the batch.
    pub dropped_files: Vec<DroppedFile>,
    /// Whether a dialog request is outstanding.
    pub upload_pending: bool,
}

impl Default for FileHandler {
    /// No drops queued, no dialog request outstanding.
    fn default() -> (r: Self)
        ensures
            r.dropped_files@ == Seq::<DroppedFile>::empty(),
            !r.upload_pending,
    {
        FileHandler { dropped_files: Vec::new(), upload_pending: false }
    }
}

impl FileHandler {
    /// What this frame's poll sees of the dialog request, given the
    /// host's observation of the background task: `obs` is `None`
    /// while the task is still running, and carries the task's result
    /// once it resolved.  Without an outstanding request the
    /// observation is ignored.
    pub open spec fn upload_outcome(self, obs: Option<Result<FileState, AppError>>) -> Result<
        FileState,
        AppError,
    > {
        if !self.upload_pending {
            Ok(FileState::NoUpload)
        } else {
            match obs {
                Option::None => Ok(FileState::UploadedOrSelected),
                Option::Some(r) => r,
            }
        }
    }

    /// Whether this frame's poll goes on to consider the drop queue:
    /// only when no dialog request claims the frame.
    pub open spec fn proceeds_to_drops(self, obs: Option<Result<FileState, AppError>>) -> bool {
        match self.upload_outcome(obs) {
            Ok(st) => st is NotSelected || st is NoUpload,
            Err(_) => false,
        }
    }

    /// The path this frame's poll will read from disk, if any: the head
    /// of the drop queue, when it is about to be consumed and carries a
    /// path but no in-memory bytes.
    pub open spec fn drop_read_request(self, obs: Option<Result<FileState, AppError>>) -> Option<
        Seq<char>,
    > {
        if self.proceeds_to_drops(obs) && self.dropped_files@.len() > 0
            && self.dropped_files@[0].bytes is None && self.dropped_files@[0].path is Some {
            Some(self.dropped_files@[0].path->0@)
        } else {
            None
        }
    }

    /// Marks a dialog request as outstanding.  The host launches the
    /// actual picker task alongside; at most one request is in flight,
    /// and issuing a new one while one is pending is the caller's
    /// responsibility to avoid.
    pub fn handle_file_open(&mut self)
        ensures
            final(self).upload_pending,
            final(self).dropped_files@ == old(self).dropped_files@,
    {
        self.upload_pending = true;
    }

    /// Clears the pending-request slot.
    pub fn reset(&mut self)
        ensures
            !final(self).upload_pending,
            final(self).dropped_files@ == old(self).dropped_files@,
    {
        self.upload_pending = false;
    }

    /// Takes over the host environment's currently-dropped-files list:
    /// a non-empty list replaces the queue, an empty one leaves it
    /// alone.
    pub fn ingest_drops(&mut self, drops: Vec<DroppedFile>)
        ensures
            drops@.len() > 0 ==> final(self).dropped_files@ == drops@,
            drops@.len() == 0 ==> final(self).dropped_files@ == old(self).dropped_files@,
            final(self).upload_pending == old(self).upload_pending,
    {
        if drops.len() > 0 {
            self.dropped_files = drops;
        }
    }

    /// Resolves the dialog-driven side of the poll; see
    /// [`Self::upload_outcome`].
    pub fn handle_file_upload(&self, obs: Option<Result<FileState, AppError>>) -> (r: Result<
        FileState,
        AppError,
    >)
        ensures
            r == self.upload_outcome(obs),
    {
        if !self.upload_pending {
            Ok(FileState::NoUpload)
        } else {
            match obs {
                None => Ok(FileState::UploadedOrSelected),
                Some(r) => r,
            }
        }
    }

    /// The path this frame's poll needs read from disk, if any; see
    /// [`Self::drop_read_request`].  The host resolves it before
    /// calling [`Self::handle_files`].
    pub fn needs_drop_read(&self, obs: &Option<Result<FileState, AppError>>) -> (r: Option<String>)
        ensures
            r is Some <==> self.drop_read_request(*obs) is Some,
            r matches Some(p) ==> p@ == self.drop_read_request(*obs)->0,
    {
        if self.upload_pending {
            match obs {
                None => {
                    return None;
                },
                Some(Ok(FileState::NotSelected)) => {},
                Some(Ok(FileState::NoUpload)) => {},
                Some(_) => {
                    return None;
                },
            }
        }
        if self.dropped_files.len() > 0 {
            let head = &self.dropped_files[0];
            if head.bytes.is_none() {
                if let Some(p) = &head.path {
                    return Some(p.clone());
                }
            }
        }
        None
    }

    /// One per-frame poll.  A resolved dialog request dominates; only
    /// when no dialog request claims the frame is the drop batch
    /// consumed — its first file is read and any additional
    /// simultaneously-dropped files are discarded.  Never blocks: an
    /// unresolved request yields `Ok(None)` for this frame.
    ///
    /// `obs` is the host's observation of the background dialog task
    /// (see [`Self::upload_outcome`]); `drop_read` is the outcome of
    /// reading the path in [`Self::drop_read_request`], exactly when
    /// one is requested.
    pub fn handle_files(
        &mut self,
        obs: Option<Result<FileState, AppError>>,
        drop_read: Option<Result<Vec<u8>, AppError>>,
    ) -> (r: Result<Option<File>, AppError>)
        requires
            drop_read is Some <==> old(self).drop_read_request(obs) is Some,
        ensures
            // the pending-request slot survives only an unresolved dialog request
            final(self).upload_pending <==> (old(self).upload_outcome(obs) matches Ok(
                FileState::UploadedOrSelected,
            )),
            // a failed dialog read surfaces as the error, and the slot is cleared
            old(self).upload_outcome(obs) matches Err(e) ==> r == Err::<Option<File>, AppError>(e)
                && final(self).dropped_files@ == old(self).dropped_files@,
            // an unresolved dialog request yields nothing and changes nothing
            old(self).upload_outcome(obs) matches Ok(FileState::UploadedOrSelected) ==> r == Ok::<
                Option<File>,
                AppError,
            >(None) && final(self).dropped_files@ == old(self).dropped_files@,
            // dialog priority: a ready dialog result is returned, and a
            // pending drop stays queued for a later frame
            old(self).upload_outcome(obs) matches Ok(FileState::Ready(f)) ==> r == Ok::<
                Option<File>,
                AppError,
            >(Some(f)) && final(self).dropped_files@ == old(self).dropped_files@,
            // no dialog claim and no drop: a no-op
            old(self).proceeds_to_drops(obs) && old(self).dropped_files@.len() == 0 ==> r == Ok::<
                Option<File>,
                AppError,
            >(None) && final(self).dropped_files@ == old(self).dropped_files@,
            // no dialog claim: the first dropped file is consumed and
            // any additional simultaneously-dropped files are discarded
            old(self).proceeds_to_drops(obs) && old(self).dropped_files@.len() > 0 ==> final(self).dropped_files@.len()
                == 0 && ({
                let head = old(self).dropped_files@[0];
                &&& head.bytes matches Some(b) ==> r == Ok::<Option<File>, AppError>(
                    Some(
                        (File {
                            data: b,
                            path: if head.path is Some {
                                head.path->0
                            } else {
                                head.name
                            },
                        }),
                    ),
                )
                &&& head.bytes is None && head.path is Some ==> {
                    &&& drop_read matches Some(Ok(b)) ==> r == Ok::<Option<File>, AppError>(
                        Some((File { data: b, path: head.path->0 })),
                    )
                    &&& drop_read matches Some(Err(e)) ==> r == Err::<Option<File>, AppError>(e)
                }
                &&& head.bytes is None && head.path is None ==> r == Ok::<Option<File>, AppError>(
                    None,
                )
            }),
            // polling with no outstanding request and no queued drop is
            // idempotent: always `Ok(None)`, never an error
            !old(self).upload_pending && old(self).dropped_files@.len() == 0 ==> r == Ok::<
                Option<File>,
                AppError,
            >(None) && !final(self).upload_pending
                && final(self).dropped_files@ == old(self).dropped_files@,
    {
        let outcome = self.handle_file_upload(obs);
        match outcome {
            Err(e) => {
                self.reset();
                return Err(e);
            },
            Ok(FileState::UploadedOrSelected) => {
                return Ok(None);
            },
            Ok(FileState::Ready(f)) => {
                self.reset();
                return Ok(Some(f));
            },
            Ok(FileState::NotSelected) => {
                self.reset();
            },
            Ok(FileState::NoUpload) => {
                self.reset();
            },
        }
        if self.dropped_files.len() == 0 {
            return Ok(None);
        }
        let dropped = self.dropped_files.remove(0);
        self.dropped_files.clear();
        match dropped.bytes {
            Some(b) => {
                let path = match dropped.path {
                    Some(p) => p,
                    None => dropped.name,
                };
                Ok(Some(File { data: b, path }))
            },
            None => {
                match dropped.path {
                    Some(p) => {
                        match drop_read {
                            Some(Ok(b)) => Ok(Some(File { data: b, path: p })),
                            Some(Err(e)) => Err(e),
                            None => Ok(None),
                        }
                    },
                    None => Ok(None),
                }
            },
        }
    }
}

} // verus!
