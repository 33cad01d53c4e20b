use vstd::prelude::*;

use crate::protocol::EngineCommand;

verus! {

/// The byte that ends each message on the wire.
pub const FRAME_END: u8 = 10;

/// Frames one serialized message: the message followed by a single newline.
pub fn encode_frame(payload: Vec<u8>) -> (r: Vec<u8>)
    ensures
        r@ == payload@.push(FRAME_END),
{
    let mut r = payload;
    r.push(FRAME_END);
    r
}

/// What a connection's reader does with one read.
pub enum ReadStep<T> {
    /// Nothing to hand on; read the next line.
    Continue,
    /// Hand this message on, then read the next line.
    Deliver(T),
    /// The connection has ended; read no more.
    Stop,
}

/// The reader of one connection: it reads line after line until the peer
/// closes the stream, skipping lines that do not parse.
pub struct LineReader {
    pub open: bool,
}

/// The state and step of a reader that is `open` after one read: `read_ok`
/// tells whether the read succeeded, `line_len` how many bytes it gave, and
/// `parsed` the message that the line parsed to, if it did.
pub open spec fn read_step<T>(open: bool, read_ok: bool, line_len: nat, parsed: Option<T>) -> (bool, ReadStep<T>) {
    if !open {
        (false, ReadStep::Stop)
    } else if !read_ok {
        (true, ReadStep::Continue)
    } else if line_len == 0 {
        (false, ReadStep::Stop)
    } else {
        match parsed {
            Some(m) => (true, ReadStep::Deliver(m)),
            None => (true, ReadStep::Continue),
        }
    }
}

/// As `read_step`, for a server's reader of commands, which also ends when
/// the peer says goodbye.
pub open spec fn command_read_step(
    open: bool,
    read_ok: bool,
    line_len: nat,
    parsed: Option<EngineCommand>,
) -> (bool, ReadStep<EngineCommand>) {
    match read_step(open, read_ok, line_len, parsed) {
        (_, ReadStep::Deliver(EngineCommand::Goodbye)) => (false, ReadStep::Stop),
        s => s,
    }
}

impl LineReader {
    /// A reader of a connection that was just made.
    pub fn new() -> (r: LineReader)
        ensures
            r.open,
    {
        LineReader { open: true }
    }

    /// Takes one read: an empty line means that the peer closed the stream;
    /// a line that did not parse is skipped; a parsed one is handed on.
    pub fn step<T>(&mut self, read_ok: bool, line_len: usize, parsed: Option<T>) -> (r: ReadStep<T>)
        ensures
            (final(self).open, r) == read_step(old(self).open, read_ok, line_len as nat, parsed),
    {
        if !self.open {
            return ReadStep::Stop;
        }
        if !read_ok {
            return ReadStep::Continue;
        }
        if line_len == 0 {
            self.open = false;
            return ReadStep::Stop;
        }
        match parsed {
            Some(m) => ReadStep::Deliver(m),
            None => ReadStep::Continue,
        }
    }

    /// As `step`, for a server's reader of commands: `Goodbye` also ends the
    /// connection and is not handed on.
    pub fn step_command(&mut self, read_ok: bool, line_len: usize, parsed: Option<EngineCommand>) -> (r:
        ReadStep<EngineCommand>)
        ensures
            (final(self).open, r) == command_read_step(
                old(self).open,
                read_ok,
                line_len as nat,
                parsed,
            ),
    {
        match self.step(read_ok, line_len, parsed) {
            ReadStep::Deliver(EngineCommand::Goodbye) => {
                self.open = false;
                ReadStep::Stop
            },
            s => s,
        }
    }
}

/// A line that does not parse leaves an open connection open, and a valid
/// command read after it is handed on.
pub proof fn malformed_line_resilience(bad_len: nat, good_len: nat, command: EngineCommand)
    requires
        bad_len > 0,
        good_len > 0,
        !(command is Goodbye),
    ensures
        command_read_step(true, true, bad_len, None) == (true, ReadStep::<EngineCommand>::Continue),
        command_read_step(command_read_step(true, true, bad_len, None).0, true, good_len, Some(command))
            == (true, ReadStep::Deliver(command)),
{
}

} // verus!
