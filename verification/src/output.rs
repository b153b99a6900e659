//! Bytes that a child process wrote: trimming what was captured, and reading a stream line
//! by line.

use vstd::prelude::*;

verus! {

/// Line feed.
pub const LF: u8 = 10;

/// Carriage return.
pub const CR: u8 = 13;

/// `s` without its last byte when that byte is `b`, otherwise `s` itself.
pub open spec fn without_trailing(s: Seq<u8>, b: u8) -> Seq<u8> {
    if s.len() > 0 && s.last() == b {
        s.drop_last()
    } else {
        s
    }
}

/// `s` with one trailing line terminator removed: a final LF is dropped first, then a final
/// CR of what is left.
pub open spec fn trimmed(s: Seq<u8>) -> Seq<u8> {
    without_trailing(without_trailing(s, LF), CR)
}

/// Removes one trailing line terminator (`\n`, `\r\n` or a lone `\r`) from `v`.
pub fn trim(v: &mut Vec<u8>)
    ensures
        final(v)@ == trimmed(old(v)@),
{
    let n = v.len();
    if n > 0 && v[n - 1] == LF {
        v.pop();
    }
    let n = v.len();
    if n > 0 && v[n - 1] == CR {
        v.pop();
    }
}

/// Whether `i` is the position of the first `b` in `s`.
pub open spec fn first_at(s: Seq<u8>, b: u8, i: int) -> bool {
    &&& 0 <= i < s.len()
    &&& s[i] == b
    &&& forall|j: int| 0 <= j < i ==> s[j] != b
}

/// Whether `b` occurs nowhere in `s`.
pub open spec fn absent(s: Seq<u8>, b: u8) -> bool {
    forall|j: int| 0 <= j < s.len() ==> s[j] != b
}

/// Finds the first occurrence of `needle` in `haystack`.
///
/// Wraps `memchr::memchr`, which returns the index of the first occurrence of the byte, or
/// nothing when the byte does not occur.
#[verifier::external_body]
fn find_byte(needle: u8, haystack: &[u8]) -> (r: Option<usize>)
    ensures
        match r {
            Some(i) => first_at(haystack@, needle, i as int),
            None => absent(haystack@, needle),
        },
{
    memchr::memchr(needle, haystack)
}

/// What a reader of lines does next.
#[derive(Debug)]
pub enum ReadStep {
    /// A complete line, without its terminating LF, to hand to the script.
    Line(Vec<u8>),
    /// No complete line is buffered and the stream is still open: read more, then ask
    /// again.
    NeedMore,
    /// The stream has ended and everything was handed out: nothing is pushed.
    Finished,
}

/// The content of a [`ReadStep`].
pub enum ReadStepView {
    Line(Seq<u8>),
    NeedMore,
    Finished,
}

impl View for ReadStep {
    type V = ReadStepView;

    open spec fn view(&self) -> ReadStepView {
        match self {
            ReadStep::Line(l) => ReadStepView::Line(l@),
            ReadStep::NeedMore => ReadStepView::NeedMore,
            ReadStep::Finished => ReadStepView::Finished,
        }
    }
}

/// The position of the first `b` in `s`, where there is one.
pub open spec fn first_of(s: Seq<u8>, b: u8) -> int {
    choose|i: int| first_at(s, b, i)
}

/// The next step on a stream that is open or not and has `buffered` in its buffer, and
/// what the step leaves in the buffer. With an LF buffered, the bytes before the first LF
/// are the line, and they leave the buffer together with that LF. Without one, an open
/// stream needs more input; an ended stream hands out what is left as the last line, or is
/// finished when nothing is left.
pub open spec fn next_of(open: bool, buffered: Seq<u8>) -> (ReadStepView, Seq<u8>) {
    if !absent(buffered, LF) {
        let i = first_of(buffered, LF);
        (ReadStepView::Line(buffered.take(i)), buffered.skip(i + 1))
    } else if open {
        (ReadStepView::NeedMore, buffered)
    } else if buffered.len() == 0 {
        (ReadStepView::Finished, buffered)
    } else {
        (ReadStepView::Line(buffered), Seq::empty())
    }
}

/// The buffered output of a child process, read line by line.
pub struct OutputState {
    open: bool,
    buf: Vec<u8>,
}

impl OutputState {
    /// Whether the stream may still deliver bytes.
    pub closed spec fn is_open(&self) -> bool {
        self.open
    }

    /// The bytes received and not yet handed out.
    pub closed spec fn buffered(&self) -> Seq<u8> {
        self.buf@
    }

    /// An open stream with nothing buffered.
    pub fn new() -> (r: Self)
        ensures
            r.is_open(),
            r.buffered() == Seq::<u8>::empty(),
    {
        OutputState { open: true, buf: Vec::new() }
    }

    /// Takes in bytes that were read from the stream.
    pub fn feed(&mut self, bytes: &[u8])
        ensures
            final(self).is_open() == old(self).is_open(),
            final(self).buffered() == old(self).buffered() + bytes@,
    {
        let mut i: usize = 0;
        while i < bytes.len()
            invariant
                i <= bytes.len(),
                self.open == old(self).open,
                self.buf@ == old(self).buf@ + bytes@.take(i as int),
            decreases bytes.len() - i,
        {
            self.buf.push(bytes[i]);
            i += 1;
        }
    }

    /// Records that the stream has ended.
    pub fn end(&mut self)
        ensures
            !final(self).is_open(),
            final(self).buffered() == old(self).buffered(),
    {
        self.open = false;
    }

    /// Whether the stream has ended and everything was handed out.
    pub fn exhausted(&self) -> (r: bool)
        ensures
            r == (!self.is_open() && self.buffered().len() == 0),
    {
        !self.open && self.buf.len() == 0
    }

    /// Decides the next step, as [`next_of`] says.
    pub fn next(&mut self) -> (r: ReadStep)
        ensures
            final(self).is_open() == old(self).is_open(),
            r@ == next_of(old(self).is_open(), old(self).buffered()).0,
            final(self).buffered() == next_of(old(self).is_open(), old(self).buffered()).1,
    {
        match find_byte(LF, self.buf.as_slice()) {
            Some(i) => {
                let n = self.buf.len();
                assert(i < n);
                let mut rest = self.buf.split_off(i + 1);
                self.buf.pop();
                core::mem::swap(&mut self.buf, &mut rest);
                assert(rest@ == old(self).buf@.take(i as int));
                proof {
                    let j = first_of(old(self).buf@, LF);
                    law_first_line_unique(old(self).buf@, LF, i as int, j);
                }
                ReadStep::Line(rest)
            },
            None => {
                if self.open {
                    ReadStep::NeedMore
                } else if self.buf.len() == 0 {
                    ReadStep::Finished
                } else {
                    let mut rest: Vec<u8> = Vec::new();
                    core::mem::swap(&mut self.buf, &mut rest);
                    ReadStep::Line(rest)
                }
            },
        }
    }
}

/// A read of the stream was refused.
#[derive(Clone, Copy, PartialEq, Eq, Structural, Debug)]
pub enum ReadError {
    /// Another read of the same stream is still active.
    Concurrent,
    /// A format other than the default, a line, was asked for.
    Format,
}

impl ReadError {
    /// The message of this error.
    pub open spec fn spec_message(self) -> Seq<char> {
        match self {
            ReadError::Concurrent => "concurrent read is not supported"@,
            ReadError::Format => "non-default format currently not supported"@,
        }
    }

    /// The message of this error.
    pub fn message(self) -> (r: &'static str)
        ensures
            r@ == self.spec_message(),
    {
        match self {
            ReadError::Concurrent => "concurrent read is not supported",
            ReadError::Format => "non-default format currently not supported",
        }
    }
}

/// Class of `stdout` property of the value returned from `os.spawn`.
///
/// One read at a time: a read begins, asks for steps until one hands out a line or finds
/// the stream finished, and only then can the next read begin.
pub struct OutputStream {
    reading: bool,
    state: OutputState,
}

/// What an attempt to begin a read with `args` arguments gives. A stream on which a read
/// is active refuses. A stream that has ended and handed everything out has nothing to
/// read. Otherwise the read has to ask for the default format, which it does by passing
/// nothing but the stream itself.
pub open spec fn begin_of(reading: bool, open: bool, buffered: Seq<u8>, args: int) -> Result<
    bool,
    ReadError,
> {
    if reading {
        Err(ReadError::Concurrent)
    } else if !open && buffered.len() == 0 {
        Ok(false)
    } else if args != 1 {
        Err(ReadError::Format)
    } else {
        Ok(true)
    }
}

impl OutputStream {
    /// Whether a read is active.
    pub closed spec fn reading(&self) -> bool {
        self.reading
    }

    /// Whether the stream may still deliver bytes.
    pub closed spec fn is_open(&self) -> bool {
        self.state.is_open()
    }

    /// The bytes received and not yet handed out.
    pub closed spec fn buffered(&self) -> Seq<u8> {
        self.state.buffered()
    }

    /// An open stream with nothing buffered and no read active.
    pub fn new() -> (r: Self)
        ensures
            !r.reading(),
            r.is_open(),
            r.buffered() == Seq::<u8>::empty(),
    {
        OutputStream { reading: false, state: OutputState::new() }
    }

    /// Begins a read that was called with `args` arguments. Returns whether there is
    /// anything to read; the read is active from then on exactly if there is.
    pub fn begin(&mut self, args: usize) -> (r: Result<bool, ReadError>)
        ensures
            r == begin_of(
                old(self).reading(),
                old(self).is_open(),
                old(self).buffered(),
                args as int,
            ),
            final(self).reading() == (old(self).reading() || r == Ok::<bool, ReadError>(true)),
            final(self).is_open() == old(self).is_open(),
            final(self).buffered() == old(self).buffered(),
    {
        if self.reading {
            Err(ReadError::Concurrent)
        } else if self.state.exhausted() {
            Ok(false)
        } else if args != 1 {
            Err(ReadError::Format)
        } else {
            self.reading = true;
            Ok(true)
        }
    }

    /// Takes in bytes that were read from the stream.
    pub fn feed(&mut self, bytes: &[u8])
        ensures
            final(self).reading() == old(self).reading(),
            final(self).is_open() == old(self).is_open(),
            final(self).buffered() == old(self).buffered() + bytes@,
    {
        self.state.feed(bytes);
    }

    /// Records that the stream has ended.
    pub fn end(&mut self)
        ensures
            final(self).reading() == old(self).reading(),
            !final(self).is_open(),
            final(self).buffered() == old(self).buffered(),
    {
        self.state.end();
    }

    /// Gives up the active read: the reader was abandoned while it waited, or reading
    /// from the stream failed. What is buffered stays for the next read, which may begin.
    pub fn give_up(&mut self)
        ensures
            !final(self).reading(),
            final(self).is_open() == old(self).is_open(),
            final(self).buffered() == old(self).buffered(),
    {
        self.reading = false;
    }

    /// Decides the next step of the active read, as [`OutputState::next`] does. A step
    /// that hands out a line, or finds the stream finished, ends the read.
    pub fn step(&mut self) -> (r: ReadStep)
        ensures
            final(self).is_open() == old(self).is_open(),
            final(self).reading() == (old(self).reading() && r@ is NeedMore),
            r@ == next_of(old(self).is_open(), old(self).buffered()).0,
            final(self).buffered() == next_of(old(self).is_open(), old(self).buffered()).1,
    {
        let r = self.state.next();
        match r {
            ReadStep::NeedMore => {},
            _ => {
                self.reading = false;
            },
        }
        r
    }
}

/// A read that re-enters a stream while an earlier read of it is still active is refused
/// as concurrent, and the earlier read goes on undisturbed.
pub proof fn law_concurrent_read_refused(open: bool, buffered: Seq<u8>, args: int, again: int)
    requires
        begin_of(false, open, buffered, args) == Ok::<bool, ReadError>(true),
    ensures
        begin_of(true, open, buffered, again) == Err::<bool, ReadError>(ReadError::Concurrent),
{
}

/// A read that was given up does not stand in the way of the next one, and the next one
/// finds what was buffered.
pub proof fn law_given_up_read_is_over(open: bool, buffered: Seq<u8>, args: int)
    ensures
        begin_of(false, open, buffered, args) != Err::<bool, ReadError>(ReadError::Concurrent),
        args == 1 && (open || buffered.len() > 0) ==> begin_of(false, open, buffered, args)
            == Ok::<bool, ReadError>(true),
{
}

/// The first LF of a buffer is where its first line ends: two positions that are both the
/// first LF are the same.
pub proof fn law_first_line_unique(s: Seq<u8>, b: u8, i: int, j: int)
    requires
        first_at(s, b, i),
        first_at(s, b, j),
    ensures
        i == j,
{
    if i < j {
        assert(s[i] != b);
    } else if j < i {
        assert(s[j] != b);
    }
}

} // verus!
