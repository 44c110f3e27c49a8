//! What the session makes of the results of transport calls: how a
//! non-blocking read is understood, and how a frame is written out in full
//! over calls that may each take only part of it.

use vstd::prelude::*;

verus! {

/// The failure a transport call reported, by the condition it names.
#[derive(Clone, Copy, Debug, PartialEq, Eq, Structural)]
pub enum IoFault {
    WouldBlock,
    Interrupted,
    TimedOut,
    ConnectionReset,
    ConnectionAborted,
    BrokenPipe,
    NotConnected,
    UnexpectedEof,
    WriteZero,
    Other,
}

/// What a failure means for the session.
#[derive(Clone, Copy, Debug, PartialEq, Eq, Structural)]
pub enum FaultClass {
    /// Nothing could be done right now; a later call may succeed.
    Transient,
    /// The peer is gone.
    Disconnected,
    /// The connection is broken.
    Hard,
}

impl IoFault {
    /// The class of each failure.
    pub open spec fn class(self) -> FaultClass {
        match self {
            IoFault::WouldBlock | IoFault::Interrupted | IoFault::TimedOut => FaultClass::Transient,
            IoFault::ConnectionReset
            | IoFault::ConnectionAborted
            | IoFault::BrokenPipe
            | IoFault::NotConnected
            | IoFault::UnexpectedEof => FaultClass::Disconnected,
            IoFault::WriteZero | IoFault::Other => FaultClass::Hard,
        }
    }

    /// Sorts a failure into its class.
    pub fn classify(&self) -> (r: FaultClass)
        ensures
            r == self.class(),
    {
        match self {
            IoFault::WouldBlock => FaultClass::Transient,
            IoFault::Interrupted => FaultClass::Transient,
            IoFault::TimedOut => FaultClass::Transient,
            IoFault::ConnectionReset => FaultClass::Disconnected,
            IoFault::ConnectionAborted => FaultClass::Disconnected,
            IoFault::BrokenPipe => FaultClass::Disconnected,
            IoFault::NotConnected => FaultClass::Disconnected,
            IoFault::UnexpectedEof => FaultClass::Disconnected,
            IoFault::WriteZero => FaultClass::Hard,
            IoFault::Other => FaultClass::Hard,
        }
    }
}

/// The result of one non-blocking read, as the session sees it.
#[derive(Debug, PartialEq, Eq)]
pub enum ReadOutcome {
    /// The bytes that arrived; fewer than asked for is a short read.
    Data(Vec<u8>),
    /// Nothing was available.
    WouldBlock,
    /// The peer closed the connection.
    Closed,
    /// The connection is broken.
    Failed,
}

/// A read outcome with its bytes as a sequence.
pub enum ReadOutcomeView {
    Data(Seq<u8>),
    WouldBlock,
    Closed,
    Failed,
}

impl View for ReadOutcome {
    type V = ReadOutcomeView;

    open spec fn view(&self) -> ReadOutcomeView {
        match self {
            ReadOutcome::Data(bytes) => ReadOutcomeView::Data(bytes@),
            ReadOutcome::WouldBlock => ReadOutcomeView::WouldBlock,
            ReadOutcome::Closed => ReadOutcomeView::Closed,
            ReadOutcome::Failed => ReadOutcomeView::Failed,
        }
    }
}

/// How a read that was handed `buffer` and returned `result` is understood.
/// A count of zero into a buffer with room is the end of the stream. Any
/// other count yields that many leading bytes of the buffer, at most all of
/// them.
pub open spec fn read_outcome(result: Result<usize, IoFault>, buffer: Seq<u8>) -> ReadOutcomeView {
    match result {
        Ok(count) => if count == 0 && buffer.len() > 0 {
            ReadOutcomeView::Closed
        } else if count <= buffer.len() {
            ReadOutcomeView::Data(buffer.take(count as int))
        } else {
            ReadOutcomeView::Data(buffer)
        },
        Err(fault) => match fault.class() {
            FaultClass::Transient => ReadOutcomeView::WouldBlock,
            FaultClass::Disconnected => ReadOutcomeView::Closed,
            FaultClass::Hard => ReadOutcomeView::Failed,
        },
    }
}

/// Interprets the result of a non-blocking read into `buffer`.
pub fn classify_read(result: Result<usize, IoFault>, buffer: Vec<u8>) -> (outcome: ReadOutcome)
    ensures
        outcome@ == read_outcome(result, buffer@),
{
    match result {
        Ok(count) => {
            if count == 0 && buffer.len() > 0 {
                ReadOutcome::Closed
            } else {
                let mut bytes = buffer;
                if count < bytes.len() {
                    bytes.truncate(count);
                }
                assert(bytes@ =~= if count <= buffer@.len() {
                    buffer@.take(count as int)
                } else {
                    buffer@
                });
                ReadOutcome::Data(bytes)
            }
        },
        Err(fault) => match fault.classify() {
            FaultClass::Transient => ReadOutcome::WouldBlock,
            FaultClass::Disconnected => ReadOutcome::Closed,
            FaultClass::Hard => ReadOutcome::Failed,
        },
    }
}

/// How the attempt to send one window's frame ended.
#[derive(Clone, Copy, Debug, PartialEq, Eq, Structural)]
pub enum SendOutcome {
    /// There was nothing to send.
    Nothing,
    /// Every byte of the frame was written.
    Complete,
    /// The transport would not take the rest in time; the frame is given up.
    Abandoned,
    /// The peer closed the connection.
    Closed,
    /// The connection is broken.
    Failed,
}

/// What to do next while a frame is being written.
#[derive(Clone, Copy, Debug, PartialEq, Eq, Structural)]
pub enum SendStep {
    /// Write the bytes of the frame from offset `from` on.
    Write { from: usize },
    /// Stop writing.
    Finished(SendOutcome),
}

/// Progress of writing one frame of `total` bytes: `sent` of them are out,
/// and `retries` more fruitless calls will be put up with.
#[derive(Clone, Copy, Debug, PartialEq, Eq, Structural)]
pub struct SendCursor {
    pub total: usize,
    pub sent: usize,
    pub retries: u32,
}

impl SendCursor {
    /// No more is counted as sent than the frame holds.
    pub open spec fn valid(self) -> bool {
        self.sent <= self.total
    }

    /// Bytes still to be written.
    pub open spec fn remaining(self) -> nat {
        if self.sent < self.total {
            (self.total - self.sent) as nat
        } else {
            0
        }
    }

    /// Bound on the number of write calls still to come.
    pub open spec fn budget(self) -> nat {
        self.remaining() + self.retries as nat
    }

    /// The step that the cursor's position calls for.
    pub open spec fn step(self) -> SendStep {
        if self.sent < self.total {
            SendStep::Write { from: self.sent }
        } else if self.total == 0 {
            SendStep::Finished(SendOutcome::Nothing)
        } else {
            SendStep::Finished(SendOutcome::Complete)
        }
    }

    /// The cursor after a call that moved nothing: one retry is used up, if
    /// any is left.
    pub open spec fn stalled(self) -> (SendCursor, SendStep) {
        if self.retries > 0 {
            let next = SendCursor { retries: (self.retries - 1) as u32, ..self };
            (next, next.step())
        } else {
            (self, SendStep::Finished(SendOutcome::Abandoned))
        }
    }

    /// The cursor and the next step after a write call returned `result`.
    /// A partial write moves the cursor and is followed by another write:
    /// it never counts as the whole frame.
    pub open spec fn after(self, result: Result<usize, IoFault>) -> (SendCursor, SendStep) {
        match result {
            Ok(count) => if self.remaining() == 0 {
                (self, self.step())
            } else if count == 0 {
                self.stalled()
            } else if count >= self.remaining() {
                let next = SendCursor { sent: self.total, ..self };
                (next, next.step())
            } else {
                let next = SendCursor { sent: (self.sent + count) as usize, ..self };
                (next, next.step())
            },
            Err(fault) => match fault.class() {
                FaultClass::Transient => self.stalled(),
                FaultClass::Disconnected => (self, SendStep::Finished(SendOutcome::Closed)),
                FaultClass::Hard => (self, SendStep::Finished(SendOutcome::Failed)),
            },
        }
    }

    /// A cursor at the start of a frame of `total` bytes.
    pub fn new(total: usize, retries: u32) -> (cursor: SendCursor)
        ensures
            cursor == (SendCursor { total, sent: 0, retries }),
            cursor.valid(),
    {
        SendCursor { total, sent: 0, retries }
    }

    /// The step to take at the cursor's position.
    pub fn next_step(&self) -> (step: SendStep)
        ensures
            step == self.step(),
    {
        if self.sent < self.total {
            SendStep::Write { from: self.sent }
        } else if self.total == 0 {
            SendStep::Finished(SendOutcome::Nothing)
        } else {
            SendStep::Finished(SendOutcome::Complete)
        }
    }

    /// Takes in the result of the write call that the last step asked for
    /// and says what to do next.
    pub fn record(&mut self, result: Result<usize, IoFault>) -> (step: SendStep)
        ensures
            (*final(self), step) == old(self).after(result),
            old(self).valid() ==> final(self).valid(),
    {
        let remaining: usize = if self.sent < self.total {
            self.total - self.sent
        } else {
            0
        };
        match result {
            Ok(count) => {
                if remaining == 0 {
                    self.next_step()
                } else if count == 0 {
                    self.stall()
                } else if count >= remaining {
                    self.sent = self.total;
                    self.next_step()
                } else {
                    self.sent = self.sent + count;
                    self.next_step()
                }
            },
            Err(fault) => match fault.classify() {
                FaultClass::Transient => self.stall(),
                FaultClass::Disconnected => SendStep::Finished(SendOutcome::Closed),
                FaultClass::Hard => SendStep::Finished(SendOutcome::Failed),
            },
        }
    }

    fn stall(&mut self) -> (step: SendStep)
        ensures
            (*final(self), step) == old(self).stalled(),
    {
        if self.retries > 0 {
            self.retries = self.retries - 1;
            self.next_step()
        } else {
            SendStep::Finished(SendOutcome::Abandoned)
        }
    }
}

/// Writing a frame ends: every call that is followed by another write
/// lowers the bound on the calls still to come.
pub proof fn lemma_send_makes_progress(cursor: SendCursor, result: Result<usize, IoFault>)
    requires
        cursor.valid(),
        cursor.after(result).1 is Write,
    ensures
        cursor.after(result).0.budget() < cursor.budget(),
        cursor.after(result).0.valid(),
        cursor.after(result).1 == (SendStep::Write { from: cursor.after(result).0.sent }),
{
}

/// A frame counts as sent only when all of it is out: the outcome
/// `Complete` comes with a cursor at the end of a frame that is not empty.
pub proof fn lemma_complete_means_all_sent(cursor: SendCursor, result: Result<usize, IoFault>)
    requires
        cursor.valid(),
        cursor.after(result).1 == SendStep::Finished(SendOutcome::Complete),
    ensures
        cursor.after(result).0.sent == cursor.total,
        cursor.total > 0,
{
}

} // verus!
