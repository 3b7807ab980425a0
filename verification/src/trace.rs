//! The stack-trace segment: capturing the current call stack as plain
//! values and rendering it, byte for byte.
//!
//! Capturing consults process state and is done by one trusted wrapper over
//! the `backtrace` crate; everything after that -- trimming the handler's
//! own frames and rendering -- is verified against `trace_bytes`, the exact
//! statement of the text produced.

use vstd::prelude::*;
use crate::text::{
    dec_digits, hex_digits, pad_left, spaces, newline_text, dash_text, push_bytes, push_spaces,
    push_pad_left, push_dec_usize, push_dec_u32, push_hex_usize, push_dash,
};

verus! {

/// Width of the frame-index column.
pub const IDX_WIDTH: usize = 4;

/// Width of the instruction-pointer column: an eight-byte pointer in
/// hexadecimal plus its two-byte prefix.
pub const HEX_WIDTH: usize = 18;

/// How many leading frames belong to the handler machinery itself (the
/// capture call, the rendering call and the hook plumbing above them) and
/// are trimmed so that the trace starts at the failing user frame.  Tied to
/// the call depth of `capture_frames` and its callers: recompute it if that
/// chain changes.
pub const HANDLER_FRAMES: usize = 9;

/// One resolved symbol of a captured frame.
pub struct Symbol {
    /// The symbol's name, or `None` when it could not be resolved.
    pub name: Option<Vec<u8>>,
    /// The source file the symbol was resolved to, when known.
    pub file: Option<Vec<u8>>,
    /// The line within that file, when known.
    pub line: Option<u32>,
}

/// One captured stack frame: its instruction pointer and the symbols it
/// resolved to (possibly none).
pub struct Frame {
    /// The frame's instruction pointer.
    pub ip: usize,
    /// The symbols resolved for this frame.
    pub symbols: Vec<Symbol>,
}

/// The opening literal of every stack-trace segment.
pub open spec fn stack_header() -> Seq<u8> {
    seq![
        'S' as u8, 't' as u8, 'a' as u8, 'c' as u8, 'k' as u8, ' ' as u8, 'b' as u8, 'a' as u8,
        'c' as u8, 'k' as u8, 't' as u8, 'r' as u8, 'a' as u8, 'c' as u8, 'e' as u8, ':' as u8,
    ]
}

/// The marker for a frame with no resolved symbol at all.
pub open spec fn unresolved_text() -> Seq<u8> {
    seq![
        '<' as u8, 'u' as u8, 'n' as u8, 'r' as u8, 'e' as u8, 's' as u8, 'o' as u8, 'l' as u8,
        'v' as u8, 'e' as u8, 'd' as u8, '>' as u8,
    ]
}

/// The marker for a symbol whose name could not be resolved.
pub open spec fn unknown_text() -> Seq<u8> {
    seq![
        '<' as u8, 'u' as u8, 'n' as u8, 'k' as u8, 'n' as u8, 'o' as u8, 'w' as u8, 'n' as u8,
        '>' as u8,
    ]
}

/// The literal before a symbol's source position.
pub open spec fn at_text() -> Seq<u8> {
    seq!['a' as u8, 't' as u8, ' ' as u8]
}

/// The indentation of a continuation line, aligning it under the first
/// symbol column of its frame line.
pub open spec fn cont_indent() -> Seq<u8> {
    newline_text() + spaces((2 + IDX_WIDTH + HEX_WIDTH) as nat)
}

/// The instruction-pointer column: `0x` plus the lower-case hexadecimal
/// numeral, left-padded with spaces.
pub open spec fn ip_text(ip: nat) -> Seq<u8> {
    pad_left(seq!['0' as u8, 'x' as u8] + hex_digits(ip), HEX_WIDTH as nat)
}

/// The text of one symbol entry: its separator (on a continuation line for
/// every symbol after the first), its name or the unresolved-name marker,
/// and, when both a file and a line are known, a continuation line with the
/// source position.
pub open spec fn symbol_text(first: bool, s: Symbol) -> Seq<u8> {
    (if first {
        Seq::<u8>::empty()
    } else {
        cont_indent()
    }) + dash_text() + (match s.name {
        Some(n) => n@,
        None => unknown_text(),
    }) + (match (s.file, s.line) {
        (Some(f), Some(l)) => cont_indent() + at_text() + f@ + seq![':' as u8] + dec_digits(
            l as nat,
        ),
        _ => Seq::<u8>::empty(),
    })
}

/// The text of the symbol entries of one frame, from index `i` on.
pub open spec fn symbols_from(syms: Seq<Symbol>, i: nat) -> Seq<u8>
    decreases syms.len() - i,
{
    if i >= syms.len() {
        Seq::<u8>::empty()
    } else {
        symbol_text(i == 0, syms[i as int]) + symbols_from(syms, i + 1)
    }
}

/// The text of one frame: a line with its index and instruction pointer,
/// followed by its symbol entries, or by the unresolved marker when it has
/// none.
pub open spec fn frame_text(idx: nat, f: Frame) -> Seq<u8> {
    newline_text() + pad_left(dec_digits(idx), IDX_WIDTH as nat) + seq![':' as u8, ' ' as u8]
        + ip_text(f.ip as nat) + (if f.symbols@.len() == 0 {
        dash_text() + unresolved_text()
    } else {
        symbols_from(f.symbols@, 0)
    })
}

/// The text of the frames from index `i` on, numbered from `i`.
pub open spec fn frames_from(frames: Seq<Frame>, i: nat) -> Seq<u8>
    decreases frames.len() - i,
{
    if i >= frames.len() {
        Seq::<u8>::empty()
    } else {
        frame_text(i, frames[i as int]) + frames_from(frames, i + 1)
    }
}

/// The whole stack-trace segment for the given frames: the header, every
/// frame in order, and a closing line break.
pub open spec fn trace_bytes(frames: Seq<Frame>) -> Seq<u8> {
    stack_header() + frames_from(frames, 0) + newline_text()
}

/// Appends the opening literal of the trace segment.
fn push_stack_header(out: &mut Vec<u8>)
    ensures
        final(out)@ == old(out)@ + stack_header(),
{
    out.push('S' as u8);
    out.push('t' as u8);
    out.push('a' as u8);
    out.push('c' as u8);
    out.push('k' as u8);
    out.push(' ' as u8);
    out.push('b' as u8);
    out.push('a' as u8);
    out.push('c' as u8);
    out.push('k' as u8);
    out.push('t' as u8);
    out.push('r' as u8);
    out.push('a' as u8);
    out.push('c' as u8);
    out.push('e' as u8);
    out.push(':' as u8);
    proof {
        assert(out@ =~= old(out)@ + stack_header());
    }
}

/// Appends the unresolved-frame marker.
fn push_unresolved(out: &mut Vec<u8>)
    ensures
        final(out)@ == old(out)@ + unresolved_text(),
{
    out.push('<' as u8);
    out.push('u' as u8);
    out.push('n' as u8);
    out.push('r' as u8);
    out.push('e' as u8);
    out.push('s' as u8);
    out.push('o' as u8);
    out.push('l' as u8);
    out.push('v' as u8);
    out.push('e' as u8);
    out.push('d' as u8);
    out.push('>' as u8);
    proof {
        assert(out@ =~= old(out)@ + unresolved_text());
    }
}

/// Appends the unresolved-name marker.
fn push_unknown(out: &mut Vec<u8>)
    ensures
        final(out)@ == old(out)@ + unknown_text(),
{
    out.push('<' as u8);
    out.push('u' as u8);
    out.push('n' as u8);
    out.push('k' as u8);
    out.push('n' as u8);
    out.push('o' as u8);
    out.push('w' as u8);
    out.push('n' as u8);
    out.push('>' as u8);
    proof {
        assert(out@ =~= old(out)@ + unknown_text());
    }
}

/// Appends a continuation-line indent.
fn push_cont_indent(out: &mut Vec<u8>)
    ensures
        final(out)@ == old(out)@ + cont_indent(),
{
    out.push('\n' as u8);
    push_spaces(out, 2 + IDX_WIDTH + HEX_WIDTH);
    proof {
        assert(out@ =~= old(out)@ + cont_indent());
    }
}

/// Appends one symbol entry.
fn push_symbol(out: &mut Vec<u8>, first: bool, s: &Symbol)
    ensures
        final(out)@ == old(out)@ + symbol_text(first, *s),
{
    if !first {
        push_cont_indent(out);
    }
    push_dash(out);
    match &s.name {
        Some(n) => push_bytes(out, n.as_slice()),
        None => push_unknown(out),
    }
    match (&s.file, s.line) {
        (Some(f), Some(l)) => {
            push_cont_indent(out);
            out.push('a' as u8);
            out.push('t' as u8);
            out.push(' ' as u8);
            push_bytes(out, f.as_slice());
            out.push(':' as u8);
            push_dec_u32(out, l);
        },
        _ => {},
    }
    proof {
        assert(out@ =~= old(out)@ + symbol_text(first, *s));
    }
}

/// Appends one frame's text.
fn push_frame(out: &mut Vec<u8>, idx: usize, f: &Frame)
    ensures
        final(out)@ == old(out)@ + frame_text(idx as nat, *f),
{
    out.push('\n' as u8);
    let mut num: Vec<u8> = Vec::new();
    push_dec_usize(&mut num, idx);
    push_pad_left(out, num.as_slice(), IDX_WIDTH);
    out.push(':' as u8);
    out.push(' ' as u8);
    let mut ipbuf: Vec<u8> = Vec::new();
    ipbuf.push('0' as u8);
    ipbuf.push('x' as u8);
    push_hex_usize(&mut ipbuf, f.ip);
    proof {
        assert(ipbuf@ =~= seq!['0' as u8, 'x' as u8] + hex_digits(f.ip as nat));
    }
    push_pad_left(out, ipbuf.as_slice(), HEX_WIDTH);
    if f.symbols.len() == 0 {
        push_dash(out);
        push_unresolved(out);
    } else {
        let ghost mid = out@;
        let mut j: usize = 0;
        while j < f.symbols.len()
            invariant
                j <= f.symbols@.len(),
                out@ + symbols_from(f.symbols@, j as nat) == mid + symbols_from(f.symbols@, 0),
            decreases f.symbols@.len() - j,
        {
            let ghost pre = out@;
            push_symbol(out, j == 0, &f.symbols[j]);
            proof {
                assert((pre + symbol_text(j == 0, f.symbols@[j as int])) + symbols_from(
                    f.symbols@,
                    j as nat + 1,
                ) =~= pre + (symbol_text(j == 0, f.symbols@[j as int]) + symbols_from(
                    f.symbols@,
                    j as nat + 1,
                )));
            }
            j += 1;
        }
        proof {
            assert(out@ + symbols_from(f.symbols@, f.symbols@.len()) =~= out@);
        }
    }
    proof {
        assert(out@ =~= old(out)@ + frame_text(idx as nat, *f));
    }
}

/// Renders the whole stack-trace segment for the given frames.
pub fn render_trace(frames: &Vec<Frame>) -> (out: Vec<u8>)
    ensures
        out@ == trace_bytes(frames@),
{
    let mut out: Vec<u8> = Vec::new();
    push_stack_header(&mut out);
    proof {
        assert(out@ =~= stack_header());
    }
    let mut i: usize = 0;
    while i < frames.len()
        invariant
            i <= frames@.len(),
            out@ + frames_from(frames@, i as nat) == stack_header() + frames_from(frames@, 0),
        decreases frames@.len() - i,
    {
        let ghost pre = out@;
        push_frame(&mut out, i, &frames[i]);
        proof {
            assert((pre + frame_text(i as nat, frames@[i as int])) + frames_from(
                frames@,
                i as nat + 1,
            ) =~= pre + (frame_text(i as nat, frames@[i as int]) + frames_from(
                frames@,
                i as nat + 1,
            )));
        }
        i += 1;
    }
    proof {
        assert(out@ + frames_from(frames@, frames@.len()) =~= out@);
    }
    out.push('\n' as u8);
    proof {
        assert(out@ =~= trace_bytes(frames@));
    }
    out
}

/// Captures the current call stack as plain frame values.
///
/// Relies on `backtrace::Backtrace::new` and its accessors: it captures and
/// resolves the calling thread's stack, handing out each frame's
/// instruction pointer and, per resolved symbol, its name, source file and
/// line.  What comes back depends on the process state at the call, so
/// nothing is promised of the result.
#[verifier::external_body]
pub(crate) fn capture_frames() -> Vec<Frame>
{
    backtrace::Backtrace::new().frames().iter().map(|f| Frame {
        ip: f.ip() as usize,
        symbols: f.symbols().iter().map(|s| Symbol {
            name: s.name().map(|n| format!("{}", n).into_bytes()),
            file: s.filename().map(|p| format!("{}", p.display()).into_bytes()),
            line: s.lineno(),
        }).collect(),
    }).collect()
}

} // verus!
