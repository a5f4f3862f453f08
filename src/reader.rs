use vstd::prelude::*;
use vstd::string::StringExecFns;

verus! {

/// How many bytes to ask the host's body stream for at a time.
pub const CHUNK_SIZE: u64 = 4096;

/// What one read of the request body stream gave.
#[derive(Debug)]
pub enum ReadEvent {
    /// A chunk of the body; an empty chunk marks the end of the data.
    Chunk(Vec<u8>),
    /// The stream was closed: the body is complete.
    Closed,
    /// The read failed, for the given reason.
    Failed(String),
}

/// What to do after a read.
#[derive(Debug)]
pub enum ReadStep {
    /// Read again.
    More,
    /// The body is complete.
    Done,
    /// Give up, with this message.
    Failed(String),
}

/// The message given when reading the body stream failed for `cause`.
pub open spec fn read_failure(cause: Seq<char>) -> Seq<char> {
    "Failed to read from request stream: "@ + cause
}

/// Collects a request body from the chunks the host's stream hands out.
#[derive(Debug)]
pub struct BodyReader {
    data: Vec<u8>,
    finished: bool,
}

impl BodyReader {
    /// The bytes received so far.
    pub closed spec fn received(&self) -> Seq<u8> {
        self.data@
    }

    /// Whether the stream has ended, one way or another.
    pub closed spec fn is_finished(&self) -> bool {
        self.finished
    }

    pub fn new() -> (r: BodyReader)
        ensures
            r.received() == Seq::<u8>::empty(),
            !r.is_finished(),
    {
        BodyReader { data: Vec::new(), finished: false }
    }

    /// Takes in what a read gave and says what to do next. A closed stream
    /// ends the body without error, also before any data came.
    pub fn step(&mut self, event: ReadEvent) -> (r: ReadStep)
        requires
            !old(self).is_finished(),
        ensures
            match event {
                ReadEvent::Chunk(c) => if c@.len() > 0 {
                    &&& r is More
                    &&& final(self).received() == old(self).received() + c@
                    &&& !final(self).is_finished()
                } else {
                    &&& r is Done
                    &&& final(self).received() == old(self).received()
                    &&& final(self).is_finished()
                },
                ReadEvent::Closed => {
                    &&& r is Done
                    &&& final(self).received() == old(self).received()
                    &&& final(self).is_finished()
                },
                ReadEvent::Failed(cause) => {
                    &&& r matches ReadStep::Failed(m) && m@ == read_failure(cause@)
                    &&& final(self).received() == old(self).received()
                    &&& final(self).is_finished()
                },
            },
    {
        match event {
            ReadEvent::Chunk(c) => {
                if c.len() > 0 {
                    let mut c = c;
                    self.data.append(&mut c);
                    ReadStep::More
                } else {
                    self.finished = true;
                    ReadStep::Done
                }
            },
            ReadEvent::Closed => {
                self.finished = true;
                ReadStep::Done
            },
            ReadEvent::Failed(cause) => {
                self.finished = true;
                let m = String::from_str("Failed to read from request stream: ").concat(
                    cause.as_str(),
                );
                ReadStep::Failed(m)
            },
        }
    }

    /// The complete body.
    pub fn into_bytes(self) -> (r: Vec<u8>)
        ensures
            r@ == self.received(),
    {
        self.data
    }
}

} // verus!
