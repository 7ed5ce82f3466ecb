//! Terminal: window size, the reader/writer interfaces of a line
//! discipline and the newline expansion of the raw (master-side) reader.
use vstd::prelude::*;

verus! {

/// Size of the read buffer between the device and the line discipline.
pub const BUF_SIZE: usize = 80;

/// Terminal window size (`struct winsize`).
#[derive(Clone, Copy, Debug, PartialEq, Eq, Structural)]
pub struct WindowSize {
    pub ws_row: u16,
    pub ws_col: u16,
    pub ws_xpixel: u16,
    pub ws_ypixel: u16,
}

impl WindowSize {
    /// Window size of a new terminal: 28 rows of 110 columns.
    pub fn default_terminal() -> (w: WindowSize)
        ensures
            w == (WindowSize { ws_row: 28, ws_col: 110, ws_xpixel: 0, ws_ypixel: 0 }),
    {
        WindowSize { ws_row: 28, ws_col: 110, ws_xpixel: 0, ws_ypixel: 0 }
    }
}

/// Source of raw input bytes of a terminal.
pub trait TtyRead {
    /// Reads available bytes into the front of `buf`, returning how many
    /// were read.
    fn read(&mut self, buf: &mut [u8]) -> (n: usize)
        ensures
            n <= old(buf)@.len(),
            final(buf)@.len() == old(buf)@.len(),
    ;
}

/// Sink of terminal output.
pub trait TtyWrite {
    fn write(&self, buf: &[u8]);
}

/// Raw input with each `\n` expanded to `\r\n`.
pub open spec fn spec_expand_newlines(s: Seq<u8>) -> Seq<u8>
    decreases s.len(),
{
    if s.len() == 0 {
        Seq::empty()
    } else {
        let prefix = spec_expand_newlines(s.drop_last());
        if s.last() == 0x0au8 {
            prefix.push(0x0du8).push(0x0au8)
        } else {
            prefix.push(s.last())
        }
    }
}

/// Bytes the raw reader queues for `input` when the receive buffer has
/// room for `free` bytes: the expansion of `input`, cut where the buffer
/// fills up (later pushes are dropped).
pub fn expand_newlines(input: &[u8], free: usize) -> (out: Vec<u8>)
    ensures
        out@ == (if spec_expand_newlines(input@).len() <= free {
            spec_expand_newlines(input@)
        } else {
            spec_expand_newlines(input@).subrange(0, free as int)
        }),
{
    let mut out: Vec<u8> = Vec::new();
    let mut i: usize = 0;
    while i < input.len()
        invariant
            i <= input.len(),
            out@ == (if spec_expand_newlines(input@.subrange(0, i as int)).len() <= free {
                spec_expand_newlines(input@.subrange(0, i as int))
            } else {
                spec_expand_newlines(input@.subrange(0, i as int)).subrange(0, free as int)
            }),
        decreases input.len() - i,
    {
        let ch = input[i];
        proof {
            let s = input@.subrange(0, i + 1);
            assert(s.drop_last() =~= input@.subrange(0, i as int));
            assert(s.last() == ch);
        }
        let ghost e0 = spec_expand_newlines(input@.subrange(0, i as int));
        if ch == 0x0a {
            if out.len() < free {
                out.push(0x0d);
            }
            if out.len() < free {
                out.push(ch);
            }
        } else {
            if out.len() < free {
                out.push(ch);
            }
        }
        proof {
            let e1 = spec_expand_newlines(input@.subrange(0, i + 1));
            if e1.len() <= free {
                assert(out@ =~= e1);
            } else {
                assert(out@ =~= e1.subrange(0, free as int));
            }
        }
        i = i + 1;
    }
    assert(input@.subrange(0, input.len() as int) =~= input@);
    out
}

} // verus!
