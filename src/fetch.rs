//! The bounded fetcher's decisions: a body grows chunk by chunk and is given up
//! as soon as the bytes received pass the ceiling.
use vstd::prelude::*;

verus! {

/// Largest response body accepted, in bytes (100 MiB).
pub const MAX_SIZE: u64 = 100 * 1024 * 1024;

/// Why a fetch failed.
#[derive(Clone, Copy, Debug, PartialEq, Eq, Structural)]
pub enum FetchError {
    /// The body passed the ceiling.
    TooLarge,
    /// The request could not be sent, or failed before any body came.
    SendError,
    /// Reading a chunk of the body failed.
    ChunkError,
}

pub open spec fn fetch_error_message(e: FetchError) -> Seq<char> {
    match e {
        FetchError::ChunkError => "Error Decoding Response"@,
        FetchError::SendError => "Error Sending Request"@,
        FetchError::TooLarge => "Response Body Exceeded the maximum of 104857600 bytes"@,
    }
}

pub open spec fn fetch_error_status(e: FetchError) -> u16 {
    match e {
        FetchError::TooLarge => 413,
        _ => 500,
    }
}

impl FetchError {
    /// A short reason, for the body of the error response.
    pub fn to_string(&self) -> (r: String)
        ensures
            r@ == fetch_error_message(*self),
    {
        match self {
            FetchError::ChunkError => String::from_str("Error Decoding Response"),
            FetchError::SendError => String::from_str("Error Sending Request"),
            FetchError::TooLarge => String::from_str(
                "Response Body Exceeded the maximum of 104857600 bytes",
            ),
        }
    }

    /// The HTTP status and reason: 413 for an oversized body, 500 otherwise.
    pub fn to_http_error(&self) -> (r: (u16, String))
        ensures
            r.0 == fetch_error_status(*self),
            r.1@ == fetch_error_message(*self),
    {
        let status: u16 = match self {
            FetchError::TooLarge => 413,
            _ => 500,
        };
        (status, self.to_string())
    }
}

/// What the transport reported since the last step.
#[derive(Clone, Debug)]
pub enum FetchEvent {
    /// The request could not be sent.
    SendFailed,
    /// A chunk of the body arrived.
    Chunk(Vec<u8>),
    /// Reading the next chunk failed.
    ChunkFailed,
    /// The body ended.
    End,
}

/// A body being received, never longer than its ceiling.
#[derive(Clone, Debug)]
pub struct BoundedBody {
    pub ceiling: u64,
    pub bytes: Vec<u8>,
}

/// Where a fetch stands after a step.
#[derive(Clone, Debug)]
pub enum FetchProgress {
    /// More is to come.
    Pending(BoundedBody),
    /// The whole body.
    Complete(Vec<u8>),
    /// The fetch is over and failed.
    Failed(FetchError),
}

impl BoundedBody {
    pub open spec fn wf(&self) -> bool {
        self.bytes@.len() <= self.ceiling
    }

    /// An empty body that accepts at most `ceiling` bytes.
    pub fn new(ceiling: u64) -> (r: BoundedBody)
        ensures
            r.wf(),
            r.ceiling == ceiling,
            r.bytes@ == Seq::<u8>::empty(),
    {
        BoundedBody { ceiling, bytes: Vec::new() }
    }

    /// One step: a failure ends the fetch with its error; the end of the body
    /// completes it; a chunk is kept only if the total stays within the ceiling,
    /// else the fetch ends with `TooLarge` and the chunk is dropped.
    pub fn advance(self, event: FetchEvent) -> (r: FetchProgress)
        requires
            self.wf(),
        ensures
            match event {
                FetchEvent::SendFailed => r == FetchProgress::Failed(FetchError::SendError),
                FetchEvent::ChunkFailed => r == FetchProgress::Failed(FetchError::ChunkError),
                FetchEvent::End => r matches FetchProgress::Complete(b) && b@ == self.bytes@,
                FetchEvent::Chunk(c) => if self.bytes@.len() + c@.len() > self.ceiling {
                    r == FetchProgress::Failed(FetchError::TooLarge)
                } else {
                    r matches FetchProgress::Pending(next) && next.wf() && next.ceiling
                        == self.ceiling && next.bytes@ == self.bytes@ + c@
                },
            },
            event matches FetchEvent::Chunk(c) ==> match feed(
                self.bytes@,
                self.ceiling as nat,
                seq![c@],
            ) {
                None => r == FetchProgress::Failed(FetchError::TooLarge),
                Some(b) => r matches FetchProgress::Pending(next) && next.bytes@ == b
                    && next.ceiling == self.ceiling,
            },
    {
        match event {
            FetchEvent::SendFailed => FetchProgress::Failed(FetchError::SendError),
            FetchEvent::ChunkFailed => FetchProgress::Failed(FetchError::ChunkError),
            FetchEvent::End => FetchProgress::Complete(self.bytes),
            FetchEvent::Chunk(c) => {
                proof {
                    reveal_with_fuel(feed, 2);
                    assert(seq![c@].drop_first() =~= Seq::<Seq<u8>>::empty());
                }
                let have = self.bytes.len() as u64;
                let more = c.len() as u64;
                if more > self.ceiling - have {
                    FetchProgress::Failed(FetchError::TooLarge)
                } else {
                    let mut bytes = self.bytes;
                    let mut chunk = c;
                    bytes.append(&mut chunk);
                    FetchProgress::Pending(BoundedBody { ceiling: self.ceiling, bytes })
                }
            },
        }
    }
}

/// All chunks, one after the other.
pub open spec fn joined(chunks: Seq<Seq<u8>>) -> Seq<u8>
    decreases chunks.len(),
{
    if chunks.len() == 0 {
        Seq::empty()
    } else {
        chunks[0] + joined(chunks.drop_first())
    }
}

/// The body after feeding `chunks`, one step each, to a body that holds `acc`:
/// `None` when a step gives `TooLarge`.
pub open spec fn feed(acc: Seq<u8>, ceiling: nat, chunks: Seq<Seq<u8>>) -> Option<Seq<u8>>
    decreases chunks.len(),
{
    if chunks.len() == 0 {
        Some(acc)
    } else if acc.len() + chunks[0].len() > ceiling {
        None
    } else {
        feed(acc + chunks[0], ceiling, chunks.drop_first())
    }
}

/// Feeding chunks one step at a time is feeding them all: a body fed `first` and
/// then `rest` ends as the body fed `first` followed by `rest`. So a run of
/// `advance` steps, each stated over `feed` of one chunk, is `feed` of all of them.
pub proof fn lemma_feed_steps(acc: Seq<u8>, ceiling: nat, first: Seq<u8>, rest: Seq<Seq<u8>>)
    ensures
        feed(acc, ceiling, seq![first] + rest) == match feed(acc, ceiling, seq![first]) {
            None => None,
            Some(b) => feed(b, ceiling, rest),
        },
{
    reveal_with_fuel(feed, 2);
    let all = seq![first] + rest;
    assert(all[0] == first);
    assert(all.drop_first() =~= rest);
    assert(seq![first].drop_first() =~= Seq::<Seq<u8>>::empty());
}

proof fn lemma_feed_from(acc: Seq<u8>, ceiling: nat, chunks: Seq<Seq<u8>>)
    requires
        acc.len() <= ceiling,
    ensures
        feed(acc, ceiling, chunks) is None <==> acc.len() + joined(chunks).len() > ceiling,
        feed(acc, ceiling, chunks) matches Some(b) ==> b == acc + joined(chunks) && b.len()
            <= ceiling,
    decreases chunks.len(),
{
    if chunks.len() > 0 {
        if acc.len() + chunks[0].len() <= ceiling {
            lemma_feed_from(acc + chunks[0], ceiling, chunks.drop_first());
            assert(acc + chunks[0] + joined(chunks.drop_first()) =~= acc + joined(chunks));
        }
    } else {
        assert(acc + joined(chunks) =~= acc);
    }
}

/// A body whose chunks add up to more than the ceiling ends in `TooLarge`, and
/// only then; whatever is kept is exactly the chunks received, within the ceiling.
/// No length announced by the sender takes part.
pub proof fn lemma_ceiling_enforced(ceiling: nat, chunks: Seq<Seq<u8>>)
    ensures
        feed(Seq::empty(), ceiling, chunks) is None <==> joined(chunks).len() > ceiling,
        feed(Seq::empty(), ceiling, chunks) matches Some(b) ==> b == joined(chunks) && b.len()
            <= ceiling,
{
    lemma_feed_from(Seq::empty(), ceiling, chunks);
    assert(Seq::<u8>::empty() + joined(chunks) =~= joined(chunks));
}

} // verus!
