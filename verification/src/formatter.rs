//! The segment-policy traits, the shipped format profiles and the
//! orchestrator.
//!
//! Independent roles each write one segment of the diagnostic text:
//! backtrace, prefix, failure info (the location and payload segments,
//! which share the failure record), and suffix.  A format profile picks one
//! policy per role plus a sink constructor; the orchestrator `print`
//! invokes them in the fixed order backtrace, prefix, info, suffix,
//! discarding every write error so that a dead stream never raises a new
//! failure from within the handler.

use vstd::prelude::*;
use crate::failure::{FailureInfo, Location};
use crate::payload::{payload_text, standard_type_ids, standard_types, render_payload};
use crate::sink::{Sink, SinkError, wrote};
use crate::text::{dec_digits, newline_text, dash_text, push_bytes, push_dash, push_dec_u32};
use crate::trace::{Frame, trace_bytes, stack_header, render_trace, capture_frames, HANDLER_FRAMES};

verus! {

/// Describes how to write the panic message prefix, the part that opens the
/// rendered text right after any backtrace segment.
pub trait Prefix {
    /// The exact bytes this policy writes.
    spec fn prefix_spec() -> Seq<u8>;

    /// Writes the prefix segment into the sink.
    fn write_in(sink: &mut Sink) -> (r: Result<(), SinkError>)
        ensures
            wrote(*old(sink), *final(sink), r, Self::prefix_spec()),
    ;
}

/// Describes how to write the failure's own record: its location and its
/// payload.
pub trait PanicInfo {
    /// The exact bytes this policy writes for the given failure.
    spec fn info_spec(info: FailureInfo) -> Seq<u8>;

    /// Writes the failure-info segment into the sink.
    fn write_in(sink: &mut Sink, info: &FailureInfo) -> (r: Result<(), SinkError>)
        ensures
            wrote(*old(sink), *final(sink), r, Self::info_spec(*info)),
    ;
}

/// Describes how to write the panic message suffix, the part that closes
/// the rendered text.
pub trait Suffix {
    /// The exact bytes this policy writes.
    spec fn suffix_spec() -> Seq<u8>;

    /// Writes the suffix segment into the sink.
    fn write_in(sink: &mut Sink) -> (r: Result<(), SinkError>)
        ensures
            wrote(*old(sink), *final(sink), r, Self::suffix_spec()),
    ;
}

/// Describes how to write the backtrace segment.  Unlike the other roles,
/// a backtrace policy may consult the process-wide call stack at the moment
/// of the write, so its contract only constrains the shape of what is
/// written: some byte sequence the policy's `trace_spec` allows.
pub trait Backtrace {
    /// Whether this policy may write exactly the bytes `b`.
    spec fn trace_spec(b: Seq<u8>) -> bool;

    /// Writes the backtrace segment into the sink.
    fn write_in(sink: &mut Sink) -> (r: Result<(), SinkError>)
        ensures
            exists|b: Seq<u8>|
                #[trigger] Self::trace_spec(b) && wrote(*old(sink), *final(sink), r, b),
    ;
}

/// Whether `out` is a text the given four role policies may render for
/// `info`: their four segments in the fixed order backtrace, prefix,
/// failure info, suffix.
pub open spec fn role_output<B: Backtrace, P: Prefix, I: PanicInfo, S: Suffix>(
    info: FailureInfo,
    out: Seq<u8>,
) -> bool {
    exists|t: Seq<u8>|
        #[trigger] B::trace_spec(t) && out == t + P::prefix_spec() + I::info_spec(info)
            + S::suffix_spec()
}

/// Writes the four given segment policies into the sink, in the fixed
/// order, swallowing each segment's write error: rendering continues with
/// the remaining segments and never fails itself.  On a working sink
/// exactly one allowed rendering is appended; on an unavailable sink
/// nothing is.
pub fn print_into<B: Backtrace, P: Prefix, I: PanicInfo, S: Suffix>(
    sink: &mut Sink,
    info: &FailureInfo,
)
    ensures
        final(sink).broken == old(sink).broken,
        old(sink).broken ==> final(sink).data@ == old(sink).data@,
        !old(sink).broken ==> exists|b: Seq<u8>|
            #[trigger] role_output::<B, P, I, S>(*info, b) && final(sink).data@ == old(
                sink,
            ).data@ + b,
{
    let _ = B::write_in(sink);
    let ghost s1 = *sink;
    let _ = P::write_in(sink);
    let _ = I::write_in(sink, info);
    let _ = S::write_in(sink);
    proof {
        if !old(sink).broken {
            let t = choose|t: Seq<u8>|
                #[trigger] B::trace_spec(t) && s1.data@ == old(sink).data@ + t;
            let b = t + P::prefix_spec() + I::info_spec(*info) + S::suffix_spec();
            assert(role_output::<B, P, I, S>(*info, b));
            assert(sink.data@ =~= old(sink).data@ + b);
        }
    }
}

/// A format profile: one policy per role plus a sink constructor.  The
/// provided `print` renders one failure with them, in the fixed order
/// backtrace, prefix, failure info, suffix, and hands back the rendered
/// bytes; every segment's write error is discarded.
pub trait PanicFormat: Sized {
    /// The backtrace policy.
    type Backtrace: Backtrace;

    /// The prefix policy.
    type Prefix: Prefix;

    /// The failure-info policy.
    type PanicInfo: PanicInfo;

    /// The suffix policy.
    type Suffix: Suffix;

    /// Acquires the sink for one rendering.
    fn writer() -> (s: Sink)
        ensures
            s.data@ == Seq::<u8>::empty(),
            !s.broken,
    ;

    /// Renders one failure: acquires a sink, writes the four segments in
    /// order, and hands back everything written.
    fn print(info: &FailureInfo) -> (out: Vec<u8>)
        ensures
            role_output::<Self::Backtrace, Self::Prefix, Self::PanicInfo, Self::Suffix>(
                *info,
                out@,
            ),
    {
        let mut sink = Self::writer();
        print_into::<Self::Backtrace, Self::Prefix, Self::PanicInfo, Self::Suffix>(
            &mut sink,
            info,
        );
        proof {
            let b = choose|b: Seq<u8>|
                #[trigger] role_output::<
                    Self::Backtrace,
                    Self::Prefix,
                    Self::PanicInfo,
                    Self::Suffix,
                >(*info, b) && sink.data@ == Seq::<u8>::empty() + b;
            assert(sink.data@ =~= b);
        }
        sink.into_bytes()
    }
}

/// Whether `out` is a text the profile `F` may render for `info`.
pub open spec fn output_of<F: PanicFormat>(info: FailureInfo, out: Seq<u8>) -> bool {
    role_output::<F::Backtrace, F::Prefix, F::PanicInfo, F::Suffix>(info, out)
}

/// The no-op profile: every role writes nothing, and its `print` does not
/// even acquire a sink -- failures are rendered silently.
pub struct Empty;

/// The everyday profile.  Prefix `Panic:`, location as `{file}:{line} - `
/// (or `unknown:0 - ` when no location was recorded), the payload rendered
/// with the standard candidate types, a line-break suffix, no backtrace.
pub struct Simple;

/// The verbose profile: the `Simple` rendering preceded by a stack trace of
/// the moment of the failure, trimmed of the handler's own frames.
pub struct Debug;

/// The bare profile: the payload text and a line break, nothing else.
pub struct JustError;

/// The prefix written by the `Simple` profile.
pub open spec fn simple_prefix_text() -> Seq<u8> {
    seq!['P' as u8, 'a' as u8, 'n' as u8, 'i' as u8, 'c' as u8, ':' as u8]
}

/// The location placeholder written when no location was recorded.
pub open spec fn unknown_location_text() -> Seq<u8> {
    seq![
        'u' as u8, 'n' as u8, 'k' as u8, 'n' as u8, 'o' as u8, 'w' as u8, 'n' as u8, ':' as u8,
        '0' as u8,
    ] + dash_text()
}

/// The location part of the `Simple` rendering: `{file}:{line}` and the
/// separator, or the placeholder when no location was recorded.
pub open spec fn location_text(loc: Option<Location>) -> Seq<u8> {
    match loc {
        Some(l) => l.file@ + seq![':' as u8] + dec_digits(l.line as nat) + dash_text(),
        None => unknown_location_text(),
    }
}

/// The failure-info segment of the `Simple` profile: the location part,
/// then the payload rendered with the standard candidate types.
pub open spec fn simple_info_text(info: FailureInfo) -> Seq<u8> {
    location_text(info.location) + payload_text(info.payload, standard_type_ids())
}

/// The failure-info segment of the `JustError` profile: the payload text
/// alone.
pub open spec fn just_error_info_text(info: FailureInfo) -> Seq<u8> {
    payload_text(info.payload, standard_type_ids())
}

/// The whole `Simple` rendering for one failure.
pub open spec fn simple_output(info: FailureInfo) -> Seq<u8> {
    simple_prefix_text() + simple_info_text(info) + newline_text()
}

/// The whole `JustError` rendering for one failure.
pub open spec fn just_error_output(info: FailureInfo) -> Seq<u8> {
    just_error_info_text(info) + newline_text()
}

/// Builds the `Simple` failure-info segment.
fn simple_info_vec(info: &FailureInfo) -> (v: Vec<u8>)
    ensures
        v@ == simple_info_text(*info),
{
    let mut v: Vec<u8> = Vec::new();
    match &info.location {
        Some(l) => {
            push_bytes(&mut v, l.file.as_slice());
            v.push(':' as u8);
            push_dec_u32(&mut v, l.line);
            push_dash(&mut v);
            proof {
                assert(v@ =~= location_text(info.location));
            }
        },
        None => {
            v.push('u' as u8);
            v.push('n' as u8);
            v.push('k' as u8);
            v.push('n' as u8);
            v.push('o' as u8);
            v.push('w' as u8);
            v.push('n' as u8);
            v.push(':' as u8);
            v.push('0' as u8);
            push_dash(&mut v);
            proof {
                assert(v@ =~= location_text(info.location));
            }
        },
    }
    let candidates = standard_types();
    let p = render_payload(&info.payload, &candidates);
    push_bytes(&mut v, p.as_slice());
    proof {
        assert(v@ =~= simple_info_text(*info));
    }
    v
}

impl Prefix for Empty {
    open spec fn prefix_spec() -> Seq<u8> {
        Seq::empty()
    }

    fn write_in(sink: &mut Sink) -> (r: Result<(), SinkError>) {
        proof {
            assert(sink.data@ + Seq::<u8>::empty() =~= sink.data@);
        }
        Ok(())
    }
}

impl PanicInfo for Empty {
    open spec fn info_spec(info: FailureInfo) -> Seq<u8> {
        Seq::empty()
    }

    fn write_in(sink: &mut Sink, info: &FailureInfo) -> (r: Result<(), SinkError>) {
        proof {
            assert(sink.data@ + Seq::<u8>::empty() =~= sink.data@);
        }
        Ok(())
    }
}

impl Suffix for Empty {
    open spec fn suffix_spec() -> Seq<u8> {
        Seq::empty()
    }

    fn write_in(sink: &mut Sink) -> (r: Result<(), SinkError>) {
        proof {
            assert(sink.data@ + Seq::<u8>::empty() =~= sink.data@);
        }
        Ok(())
    }
}

impl Backtrace for Empty {
    open spec fn trace_spec(b: Seq<u8>) -> bool {
        b == Seq::<u8>::empty()
    }

    fn write_in(sink: &mut Sink) -> (r: Result<(), SinkError>) {
        let r: Result<(), SinkError> = Ok(());
        proof {
            assert(sink.data@ + Seq::<u8>::empty() =~= sink.data@);
            assert(<Empty as Backtrace>::trace_spec(Seq::<u8>::empty()));
            assert(wrote(*old(sink), *sink, r, Seq::<u8>::empty()));
        }
        r
    }
}

impl Prefix for Simple {
    open spec fn prefix_spec() -> Seq<u8> {
        simple_prefix_text()
    }

    fn write_in(sink: &mut Sink) -> (r: Result<(), SinkError>) {
        let mut b: Vec<u8> = Vec::new();
        b.push('P' as u8);
        b.push('a' as u8);
        b.push('n' as u8);
        b.push('i' as u8);
        b.push('c' as u8);
        b.push(':' as u8);
        proof {
            assert(b@ =~= simple_prefix_text());
        }
        sink.write_bytes(b.as_slice())
    }
}

impl PanicInfo for Simple {
    open spec fn info_spec(info: FailureInfo) -> Seq<u8> {
        simple_info_text(info)
    }

    fn write_in(sink: &mut Sink, info: &FailureInfo) -> (r: Result<(), SinkError>) {
        let b = simple_info_vec(info);
        sink.write_bytes(b.as_slice())
    }
}

impl Suffix for Simple {
    open spec fn suffix_spec() -> Seq<u8> {
        newline_text()
    }

    fn write_in(sink: &mut Sink) -> (r: Result<(), SinkError>) {
        let mut b: Vec<u8> = Vec::new();
        b.push('\n' as u8);
        proof {
            assert(b@ =~= newline_text());
        }
        sink.write_bytes(b.as_slice())
    }
}

impl Backtrace for Simple {
    open spec fn trace_spec(b: Seq<u8>) -> bool {
        b == Seq::<u8>::empty()
    }

    fn write_in(sink: &mut Sink) -> (r: Result<(), SinkError>) {
        let r: Result<(), SinkError> = Ok(());
        proof {
            assert(sink.data@ + Seq::<u8>::empty() =~= sink.data@);
            assert(<Simple as Backtrace>::trace_spec(Seq::<u8>::empty()));
            assert(wrote(*old(sink), *sink, r, Seq::<u8>::empty()));
        }
        r
    }
}

impl Backtrace for Debug {
    open spec fn trace_spec(b: Seq<u8>) -> bool {
        exists|frames: Seq<Frame>| b == trace_bytes(frames)
    }

    fn write_in(sink: &mut Sink) -> (r: Result<(), SinkError>) {
        let mut frames = capture_frames();
        let n = if HANDLER_FRAMES <= frames.len() {
            HANDLER_FRAMES
        } else {
            frames.len()
        };
        let tail = frames.split_off(n);
        let text = render_trace(&tail);
        let r = sink.write_bytes(text.as_slice());
        proof {
            assert(<Debug as Backtrace>::trace_spec(text@));
        }
        r
    }
}

impl PanicInfo for JustError {
    open spec fn info_spec(info: FailureInfo) -> Seq<u8> {
        just_error_info_text(info)
    }

    fn write_in(sink: &mut Sink, info: &FailureInfo) -> (r: Result<(), SinkError>) {
        let candidates = standard_types();
        let b = render_payload(&info.payload, &candidates);
        sink.write_bytes(b.as_slice())
    }
}

impl PanicFormat for Simple {
    type Backtrace = Simple;

    type Prefix = Simple;

    type PanicInfo = Simple;

    type Suffix = Simple;

    fn writer() -> (s: Sink) {
        Sink::new()
    }
}

impl PanicFormat for Empty {
    type Backtrace = Empty;

    type Prefix = Empty;

    type PanicInfo = Empty;

    type Suffix = Empty;

    fn writer() -> (s: Sink) {
        Sink::new()
    }

    fn print(info: &FailureInfo) -> (out: Vec<u8>)
        ensures
            out@ == Seq::<u8>::empty(),
    {
        let out: Vec<u8> = Vec::new();
        proof {
            assert(<Empty as Backtrace>::trace_spec(Seq::<u8>::empty()));
            assert(out@ =~= Seq::<u8>::empty() + <Empty as Prefix>::prefix_spec() + <Empty as PanicInfo>::info_spec(*info) + <Empty as Suffix>::suffix_spec());
            assert(role_output::<Empty, Empty, Empty, Empty>(*info, out@));
        }
        out
    }
}

impl PanicFormat for Debug {
    type Backtrace = Debug;

    type Prefix = Simple;

    type PanicInfo = Simple;

    type Suffix = Simple;

    fn writer() -> (s: Sink) {
        Sink::new()
    }
}

impl PanicFormat for JustError {
    type Backtrace = Empty;

    type Prefix = Empty;

    type PanicInfo = JustError;

    type Suffix = Simple;

    fn writer() -> (s: Sink) {
        Sink::new()
    }
}

/// Law: under the `Empty` profile, zero bytes are rendered for every
/// failure.
pub proof fn lemma_empty_output_is_empty(info: FailureInfo, out: Seq<u8>)
    requires
        output_of::<Empty>(info, out),
    ensures
        out == Seq::<u8>::empty(),
{
    let t = choose|t: Seq<u8>|
        #[trigger] <Empty as Backtrace>::trace_spec(t) && out == t
            + <Empty as Prefix>::prefix_spec() + <Empty as PanicInfo>::info_spec(info)
            + <Empty as Suffix>::suffix_spec();
    assert(out =~= Seq::<u8>::empty());
}

/// Law: the `Simple` profile renders exactly its prefix, the failure's
/// location part, the payload text and a line break, for every failure.
pub proof fn lemma_simple_output_exact(info: FailureInfo, out: Seq<u8>)
    requires
        output_of::<Simple>(info, out),
    ensures
        out == simple_output(info),
{
    let t = choose|t: Seq<u8>|
        #[trigger] <Simple as Backtrace>::trace_spec(t) && out == t
            + <Simple as Prefix>::prefix_spec() + <Simple as PanicInfo>::info_spec(info)
            + <Simple as Suffix>::suffix_spec();
    assert(out =~= simple_output(info));
}

/// Law: the `JustError` profile renders exactly the payload text and a line
/// break, for every failure -- no prefix, no location.
pub proof fn lemma_just_error_output_exact(info: FailureInfo, out: Seq<u8>)
    requires
        output_of::<JustError>(info, out),
    ensures
        out == just_error_output(info),
{
    let t = choose|t: Seq<u8>|
        #[trigger] <Empty as Backtrace>::trace_spec(t) && out == t
            + <Empty as Prefix>::prefix_spec() + <JustError as PanicInfo>::info_spec(info)
            + <Simple as Suffix>::suffix_spec();
    assert(out =~= just_error_output(info));
}

/// Law: every `Debug` rendering is the `Simple` rendering of the same
/// failure preceded by a stack-trace segment, and that segment always
/// begins with the literal `Stack backtrace:`.
pub proof fn lemma_debug_extends_simple(info: FailureInfo, out: Seq<u8>)
    requires
        output_of::<Debug>(info, out),
    ensures
        exists|t: Seq<u8>|
            #![auto]
            out == t + simple_output(info) && t.len() > stack_header().len() && t.subrange(
                0,
                stack_header().len() as int,
            ) == stack_header(),
{
    let t = choose|t: Seq<u8>|
        #[trigger] <Debug as Backtrace>::trace_spec(t) && out == t
            + <Simple as Prefix>::prefix_spec() + <Simple as PanicInfo>::info_spec(info)
            + <Simple as Suffix>::suffix_spec();
    let frames = choose|frames: Seq<Frame>| t == trace_bytes(frames);
    assert(t.subrange(0, stack_header().len() as int) =~= stack_header());
    assert(out =~= t + simple_output(info));
}

} // verus!
