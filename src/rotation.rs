use vstd::prelude::*;

verus! {

/// Number of distinct rotation indices; the index wraps from 99 back to 0.
pub const INDEX_CYCLE: usize = 100;

/// When the engine rolls over to a new file.
#[derive(Clone, Copy, Debug, PartialEq, Eq, Structural)]
pub struct RotationPolicy {
    /// A line that would bring the open file to this many bytes or more goes to
    /// a new file.
    pub max_file_size: usize,
    /// A file left without writes for longer than this many milliseconds is
    /// closed before the next line, and numbering restarts at 0.
    pub idle_timeout_ms: u64,
}

/// Milliseconds in a second.
pub const MILLIS_PER_SEC: u64 = 1000;

/// A timeout of `secs` seconds in milliseconds, saturating at `u64::MAX`.
pub open spec fn timeout_ms_spec(secs: int) -> int {
    if secs * 1000 > u64::MAX {
        u64::MAX as int
    } else {
        secs * 1000
    }
}

/// A timeout of `secs` seconds in milliseconds, saturating at `u64::MAX`.
pub fn timeout_ms_of(secs: u64) -> (r: u64)
    ensures
        r == timeout_ms_spec(secs as int),
{
    if secs > u64::MAX / MILLIS_PER_SEC {
        u64::MAX
    } else {
        secs * MILLIS_PER_SEC
    }
}

impl RotationPolicy {
    /// The policy for a size limit in bytes and an idle timeout in seconds.
    pub fn from_limits(max_file_size: usize, timeout_secs: u64) -> (r: RotationPolicy)
        ensures
            r.max_file_size == max_file_size,
            r.idle_timeout_ms == timeout_ms_spec(timeout_secs as int),
    {
        RotationPolicy { max_file_size, idle_timeout_ms: timeout_ms_of(timeout_secs) }
    }
}

/// What the engine knows of the file that is open for writing.
#[derive(Clone, Copy, Debug, PartialEq, Eq, Structural)]
pub struct OpenLog {
    /// Bytes in the file, counting those it held when it was opened.
    pub size: usize,
    /// Monotonic time of the last write (or of the opening), in milliseconds.
    pub last_write_ms: u64,
}

/// The rotation engine's decisions, apart from the file I/O they call for.
///
/// For each line the owner calls, in order: `begin_line`; where it asks for a
/// file, opens it and calls `file_opened`; `admit_line`, and where it asks for a
/// new file, opens that one; writes the line and calls `line_written`.
#[derive(Clone, Copy, Debug)]
pub struct RotationEngine {
    pub policy: RotationPolicy,
    pub open: Option<OpenLog>,
    pub index: usize,
}

/// What `begin_line` asks the owner to do before the line is sized.
#[derive(Clone, Copy, Debug, PartialEq, Eq, Structural)]
pub struct LineStart {
    /// The open file went idle: flush and close it.
    pub idle_closed: bool,
    /// No file is open: open one with this rotation index.
    pub open_index: Option<usize>,
}

/// The bytes a line takes in a file: the line and its newline.
pub open spec fn line_size(line_len: int) -> int {
    line_len + 1
}

impl RotationEngine {
    pub open spec fn wf(&self) -> bool {
        self.index < INDEX_CYCLE
    }

    /// The open file has gone longer than the idle timeout without a write.
    pub open spec fn idle_at(&self, now_ms: int) -> bool {
        self.open matches Some(f) && now_ms - f.last_write_ms > self.policy.idle_timeout_ms
    }

    /// The state after the idle rule at `now_ms`.
    pub open spec fn begin_spec(&self, now_ms: int) -> RotationEngine {
        if self.idle_at(now_ms) {
            RotationEngine { open: None, index: 0, ..*self }
        } else {
            *self
        }
    }

    /// Writing a line of `line_len` bytes would bring the open file to the size
    /// limit or past it.
    pub open spec fn rotates(&self, line_len: int) -> bool {
        self.open matches Some(f) && f.size + line_size(line_len) >= self.policy.max_file_size
    }

    /// The state after the size rule for a line of `line_len` bytes.
    pub open spec fn admit_spec(&self, line_len: int) -> RotationEngine {
        if self.rotates(line_len) {
            RotationEngine {
                open: Some(OpenLog { size: 0, last_write_ms: self.open->0.last_write_ms }),
                index: ((self.index + 1) % (INDEX_CYCLE as int)) as usize,
                ..*self
            }
        } else {
            *self
        }
    }

    /// The state after a line of `line_len` bytes was written at `now_ms`.
    pub open spec fn written_spec(&self, line_len: int, now_ms: int) -> RotationEngine {
        RotationEngine {
            open: Some(
                OpenLog {
                    size: (self.open->0.size + line_size(line_len)) as usize,
                    last_write_ms: now_ms as u64,
                },
            ),
            ..*self
        }
    }

    /// A new engine: no file open, rotation index 0.
    pub fn new(policy: RotationPolicy) -> (r: RotationEngine)
        ensures
            r.wf(),
            r.policy == policy,
            r.open is None,
            r.index == 0,
    {
        RotationEngine { policy, open: None, index: 0 }
    }

    /// The idle rule before a line: an open file idle for longer than the
    /// timeout is closed and the index restarts at 0; then, where no file is
    /// open, asks for one with the current index.
    pub fn begin_line(&mut self, now_ms: u64) -> (r: LineStart)
        requires
            old(self).wf(),
        ensures
            final(self).wf(),
            *final(self) == old(self).begin_spec(now_ms as int),
            r.idle_closed == old(self).idle_at(now_ms as int),
            r.open_index == (if final(self).open is None {
                Some(final(self).index)
            } else {
                None
            }),
    {
        let mut idle_closed = false;
        if let Some(f) = self.open {
            if now_ms > f.last_write_ms && now_ms - f.last_write_ms > self.policy.idle_timeout_ms {
                self.open = None;
                self.index = 0;
                idle_closed = true;
            }
        }
        let open_index = if self.open.is_none() {
            Some(self.index)
        } else {
            None
        };
        LineStart { idle_closed, open_index }
    }

    /// Records that a file was opened at `now_ms`, already holding
    /// `existing_size` bytes.
    pub fn file_opened(&mut self, existing_size: usize, now_ms: u64)
        requires
            old(self).open is None,
        ensures
            *final(self) == (RotationEngine {
                open: Some(OpenLog { size: existing_size, last_write_ms: now_ms }),
                ..*old(self)
            }),
    {
        self.open = Some(OpenLog { size: existing_size, last_write_ms: now_ms });
    }

    /// The size rule for a line of `line_len` bytes: where the line would
    /// bring the open file to the limit or past it, the index advances (from 99
    /// to 0), the size restarts at 0, and the index of the new file to open is
    /// returned.
    pub fn admit_line(&mut self, line_len: usize) -> (r: Option<usize>)
        requires
            old(self).wf(),
            old(self).open is Some,
            line_len < usize::MAX,
        ensures
            final(self).wf(),
            *final(self) == old(self).admit_spec(line_len as int),
            final(self).open->0.size + line_size(line_len as int) <= usize::MAX,
            r == (if old(self).rotates(line_len as int) {
                Some(final(self).index)
            } else {
                None
            }),
    {
        let f = self.open.unwrap();
        let needed = line_len + 1;
        if needed >= self.policy.max_file_size || f.size >= self.policy.max_file_size - needed {
            self.index = (self.index + 1) % INDEX_CYCLE;
            self.open = Some(OpenLog { size: 0, last_write_ms: f.last_write_ms });
            Some(self.index)
        } else {
            None
        }
    }

    /// Records that a line of `line_len` bytes and its newline were written at
    /// `now_ms`.
    pub fn line_written(&mut self, line_len: usize, now_ms: u64)
        requires
            old(self).open is Some,
            old(self).open->0.size + line_size(line_len as int) <= usize::MAX,
        ensures
            *final(self) == old(self).written_spec(line_len as int, now_ms as int),
    {
        let f = self.open.unwrap();
        self.open = Some(OpenLog { size: f.size + line_len + 1, last_write_ms: now_ms });
    }
}

/// A line that would bring the open file to the size limit or past it goes to a
/// new file whose index is one more, modulo 100, and that new file then holds
/// exactly the line and its newline. Otherwise the index stays and the file stays
/// under the limit. So only the first line of a file can take it to the limit,
/// and with a positive limit a file never reaches the limit plus its last line.
pub proof fn lemma_size_rotation(e: RotationEngine, line_len: int, now_ms: int)
    requires
        e.wf(),
        e.open is Some,
        0 <= line_len < usize::MAX,
        0 <= now_ms <= u64::MAX,
    ensures
        e.rotates(line_len) <==> e.open->0.size + line_size(line_len) >= e.policy.max_file_size,
        ({
            let a = e.admit_spec(line_len);
            let w = a.written_spec(line_len, now_ms);
            &&& a.wf() && w.wf()
            &&& w.index == a.index
            &&& e.rotates(line_len) ==> a.index == (e.index + 1) % 100 && a.open->0.size == 0
                && w.open->0.size == line_size(line_len)
            &&& !e.rotates(line_len) ==> a == e && w.open->0.size < e.policy.max_file_size
            &&& e.policy.max_file_size > 0 ==> w.open->0.size < e.policy.max_file_size
                + line_size(line_len)
        }),
{
}

/// A line that comes after the open file has gone idle for longer than the
/// timeout opens a new file with index 0, whatever the index was; a size
/// rotation in that new file then goes on at index 1.
pub proof fn lemma_idle_rotation(
    e: RotationEngine,
    now_ms: int,
    existing_size: usize,
    line_len: int,
)
    requires
        e.wf(),
        e.open matches Some(f) && now_ms - f.last_write_ms > e.policy.idle_timeout_ms,
        0 <= now_ms <= u64::MAX,
    ensures
        e.begin_spec(now_ms).open is None,
        e.begin_spec(now_ms).index == 0,
        e.begin_spec(now_ms).policy == e.policy,
        ({
            let o = RotationEngine {
                open: Some(OpenLog { size: existing_size, last_write_ms: now_ms as u64 }),
                ..e.begin_spec(now_ms)
            };
            o.rotates(line_len) ==> o.admit_spec(line_len).index == 1
        }),
{
}

/// Without an idle gap, a size rotation from index 99 goes on at index 0; the
/// index never leaves `0..100`.
pub proof fn lemma_index_wraps(e: RotationEngine, line_len: int, now_ms: int)
    requires
        e.wf(),
        e.index == 99,
        e.open is Some,
        !e.idle_at(now_ms),
        e.rotates(line_len),
    ensures
        e.begin_spec(now_ms) == e,
        e.begin_spec(now_ms).admit_spec(line_len).index == 0,
        e.begin_spec(now_ms).admit_spec(line_len).open is Some,
        e.begin_spec(now_ms).admit_spec(line_len).wf(),
{
}

} // verus!
