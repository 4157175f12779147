//! The bounded log of one run.
use vstd::prelude::*;

verus! {

/// A run's log holds at most this many bytes.
pub const MAX_LOG_BYTES: u64 = 2_097_152;

/// How much more a run's log takes.
#[derive(Clone, Copy, Debug, PartialEq, Eq, Structural)]
pub struct BoundedLog {
    pub remaining: u64,
}

impl BoundedLog {
    pub open spec fn wf(self) -> bool {
        self.remaining <= MAX_LOG_BYTES
    }

    /// The bytes that have gone into the log so far.
    pub open spec fn written(self) -> int {
        MAX_LOG_BYTES - self.remaining
    }

    /// How many bytes of a buffer of this length still fit.
    pub open spec fn room_for(self, length: int) -> int {
        if length <= self.remaining {
            length
        } else {
            self.remaining as int
        }
    }

    /// The log once as much of a buffer as fits has gone into it.
    pub open spec fn holding(self, length: int) -> Self {
        BoundedLog { remaining: (self.remaining - self.room_for(length)) as u64 }
    }

    /// An empty log.
    pub fn open() -> (log: Self)
        ensures
            log.wf(),
            log.written() == 0,
    {
        BoundedLog { remaining: MAX_LOG_BYTES }
    }

    /// How many bytes of a buffer still fit, and are to be written.
    pub fn accepts(&self, length: usize) -> (accepted: usize)
        ensures
            accepted == self.room_for(length as int),
    {
        if length as u64 <= self.remaining {
            length
        } else {
            self.remaining as usize
        }
    }

    /// Writes a buffer of this length, where `written` says how writing the part
    /// that fits went. What does not fit is dropped, and the whole buffer counts
    /// as written; so nothing fails once the log is full. A write that failed
    /// takes up no room.
    pub fn write<E>(&mut self, length: usize, written: Result<(), E>) -> (result: Result<usize, E>)
        ensures
            match written {
                Err(error) => if old(self).room_for(length as int) > 0 {
                    result == Err::<usize, E>(error) && *final(self) == *old(self)
                } else {
                    result == Ok::<usize, E>(length) && *final(self) == *old(self)
                },
                Ok(_) => {
                    &&& result == Ok::<usize, E>(length)
                    &&& *final(self) == old(self).holding(length as int)
                },
            },
    {
        let accepted: usize = self.accepts(length);
        match written {
            Err(error) => if accepted > 0 {
                return Err(error);
            },
            Ok(_) => {
                self.remaining = self.remaining - accepted as u64;
            },
        }
        Ok(length)
    }
}

/// The log's size after writes of the given lengths.
pub open spec fn size_after(lengths: Seq<nat>) -> nat
    decreases lengths.len(),
{
    if lengths.len() == 0 {
        0
    } else {
        let size = size_after(lengths.drop_last()) + lengths.last();
        if size <= MAX_LOG_BYTES {
            size
        } else {
            MAX_LOG_BYTES as nat
        }
    }
}

pub open spec fn total(lengths: Seq<nat>) -> nat
    decreases lengths.len(),
{
    if lengths.len() == 0 {
        0
    } else {
        total(lengths.drop_last()) + lengths.last()
    }
}

/// The log after writes of the given lengths.
pub open spec fn log_after(log: BoundedLog, lengths: Seq<nat>) -> BoundedLog
    decreases lengths.len(),
{
    if lengths.len() == 0 {
        log
    } else {
        log_after(log, lengths.drop_last()).holding(lengths.last() as int)
    }
}

/// However much is written, a log never grows past its limit, and up to the
/// limit nothing is dropped.
pub proof fn log_is_bounded(log: BoundedLog, lengths: Seq<nat>)
    requires
        log.wf(),
        log.written() == 0,
    ensures
        log_after(log, lengths).wf(),
        log_after(log, lengths).written() == size_after(lengths),
        size_after(lengths) <= MAX_LOG_BYTES,
        size_after(lengths) == if total(lengths) <= MAX_LOG_BYTES {
            total(lengths)
        } else {
            MAX_LOG_BYTES as nat
        },
    decreases lengths.len(),
{
    if lengths.len() > 0 {
        log_is_bounded(log, lengths.drop_last());
    }
}

/// What became of the log's copy of a line.
#[derive(Clone, Copy, Debug, PartialEq, Eq, Structural)]
pub enum LogWrite {
    /// There is no log.
    Absent,
    Written,
    Failed,
}

/// The result of writing a line to both standard error and the log: whether
/// the line counts as written, and whether diagnostics are now incomplete.
pub fn write_outcome(stderr_written: bool, log: LogWrite) -> (outcome: (bool, bool))
    ensures
        outcome.0 == (stderr_written || log == LogWrite::Written),
        outcome.1 == (log == LogWrite::Failed),
{
    (stderr_written || matches!(log, LogWrite::Written), matches!(log, LogWrite::Failed))
}

/// The result of flushing both: a failed standard error leaves the log alone.
pub fn flush_outcome(stderr_flushed: bool, log: LogWrite) -> (outcome: (bool, bool))
    ensures
        outcome.0 == (stderr_flushed && log != LogWrite::Failed),
        outcome.1 == (stderr_flushed && log == LogWrite::Failed),
{
    (
        stderr_flushed && !matches!(log, LogWrite::Failed),
        stderr_flushed && matches!(log, LogWrite::Failed),
    )
}

/// It does not matter how a text is cut into writes: two of them take what one of
/// both together would. A full log takes nothing more.
pub proof fn writes_add_up(log: BoundedLog, first: nat, second: nat)
    ensures
        log.holding(first as int).holding(second as int) == log.holding((first + second) as int),
        log.room_for(first as int) + log.holding(first as int).room_for(second as int)
            == log.room_for((first + second) as int),
        first <= log.remaining ==> log.room_for(first as int) == first,
        log.remaining == 0 ==> log.room_for(first as int) == 0 && log.holding(first as int) == log,
        log.room_for(first as int) + log.holding(first as int).remaining == log.remaining,
{
}

} // verus!
