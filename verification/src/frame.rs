//! Command frames (host to chip) and the decoders of the reply frames
//! (chip to host).
//!
//! A reply is read from the bus a few bytes at a time. The decoders are
//! functions of the bytes clocked in so far: each answers either how many
//! more bytes to clock in ([`RxStep::Read`]) or the outcome of the exchange
//! ([`RxStep::Done`]).
use vstd::prelude::*;

use crate::error::Error;
use crate::proto::{Param, DUMMY, END_CMD, ERR_CMD, START_CMD, START_TIMEOUT_ITERS};

verus! {

// ------------------------------------------------------------------ commands

/// The byte contents of a list of byte slices.
pub open spec fn views(params: Seq<&[u8]>) -> Seq<Seq<u8>> {
    params.map_values(|p: &[u8]| p@)
}

/// A parameter with its 8-bit length prefix (the length is taken modulo 256,
/// as the byte on the wire can hold no more).
pub open spec fn short_param(p: Seq<u8>) -> Seq<u8> {
    seq![(p.len() % 256) as u8] + p
}

/// Parameters one after the other, each with its 8-bit length prefix. This
/// is also the layout of the parameters of a reply.
pub open spec fn short_params(ps: Seq<Seq<u8>>) -> Seq<u8>
    decreases ps.len(),
{
    if ps.len() == 0 {
        Seq::empty()
    } else {
        short_param(ps[0]) + short_params(ps.drop_first())
    }
}

/// Number of `DUMMY` bytes that bring a frame of `n` bytes to a multiple of 4.
pub open spec fn pad_len(n: nat) -> nat {
    ((4 - (n % 4) as int) % 4) as nat
}

/// A frame body followed by its padding.
pub open spec fn padded(body: Seq<u8>) -> Seq<u8> {
    body + Seq::new(pad_len(body.len()), |i: int| DUMMY)
}

/// The frame of command `cmd` with 8-bit-length parameters `ps`:
/// `START_CMD`, the opcode with the reply flag cleared, the parameter
/// count, the parameters, `END_CMD`, then padding to 4 bytes.
pub open spec fn command_frame(cmd: u8, ps: Seq<Seq<u8>>) -> Seq<u8> {
    padded(seq![START_CMD, cmd & 0x7f, (ps.len() % 256) as u8] + short_params(ps) + seq![END_CMD])
}

/// Appending one parameter appends its bytes.
pub proof fn lemma_short_params_push(ps: Seq<Seq<u8>>, p: Seq<u8>)
    ensures
        short_params(ps.push(p)) == short_params(ps) + short_param(p),
    decreases ps.len(),
{
    if ps.len() == 0 {
        assert(ps.push(p).drop_first() =~= Seq::<Seq<u8>>::empty());
        assert(ps.push(p)[0] == p);
        assert(short_params(Seq::<Seq<u8>>::empty()) == Seq::<u8>::empty());
        assert(short_params(ps.push(p)) =~= short_param(p));
        assert(short_params(ps) == Seq::<u8>::empty());
    } else {
        lemma_short_params_push(ps.drop_first(), p);
        assert(ps.push(p).drop_first() =~= ps.drop_first().push(p));
        assert(short_params(ps.push(p)) =~= short_params(ps) + short_param(p));
    }
}

/// Every command frame is a whole number of 4-byte words, starts with
/// `START_CMD` and holds `END_CMD` right before its padding.
pub proof fn lemma_command_frame_shape(cmd: u8, ps: Seq<Seq<u8>>)
    ensures
        command_frame(cmd, ps).len() % 4 == 0,
        command_frame(cmd, ps)[0] == START_CMD,
        command_frame(cmd, ps)[short_params(ps).len() + 3int] == END_CMD,
        forall|i: int|
            short_params(ps).len() + 4 <= i < command_frame(cmd, ps).len() ==> #[trigger] command_frame(
                cmd,
                ps,
            )[i] == DUMMY,
{
}

/// Append `p` with its 8-bit length prefix.
fn push_short_param(f: &mut Vec<u8>, p: &[u8])
    ensures
        final(f)@ == old(f)@ + short_param(p@),
{
    f.push((p.len() % 256) as u8);
    let ghost start = f@;
    let mut j: usize = 0;
    while j < p.len()
        invariant
            j <= p@.len(),
            f@ == start + p@.take(j as int),
        decreases p@.len() - j,
    {
        f.push(p[j]);
        j = j + 1;
        assert(f@ =~= start + p@.take(j as int));
    }
    assert(p@.take(p@.len() as int) =~= p@);
    assert(final(f)@ =~= old(f)@ + short_param(p@));
}

/// Append `DUMMY` bytes until the length is a multiple of 4.
fn pad_to_4(f: &mut Vec<u8>)
    ensures
        final(f)@ == padded(old(f)@),
{
    let ghost body = f@;
    while f.len() % 4 != 0
        invariant
            body.len() <= f@.len() <= body.len() + pad_len(body.len()),
            f@ == body + Seq::new((f@.len() - body.len()) as nat, |i: int| DUMMY),
        decreases body.len() + pad_len(body.len()) - f@.len(),
    {
        f.push(DUMMY);
        assert(f@ =~= body + Seq::new((f@.len() - body.len()) as nat, |i: int| DUMMY));
    }
    assert(f@.len() == body.len() + pad_len(body.len()));
    assert(f@ =~= padded(body));
}

/// Build the frame of command `cmd` whose parameters all carry an 8-bit
/// length prefix.
pub fn encode_command(cmd: u8, params: &[&[u8]]) -> (frame: Vec<u8>)
    ensures
        frame@ == command_frame(cmd, views(params@)),
{
    let mut f: Vec<u8> = Vec::new();
    f.push(START_CMD);
    f.push(cmd & 0x7f);
    f.push((params.len() % 256) as u8);
    let ghost head = f@;
    let mut i: usize = 0;
    while i < params.len()
        invariant
            i <= params@.len(),
            f@ == head + short_params(views(params@).take(i as int)),
        decreases params@.len() - i,
    {
        let p: &[u8] = params[i];
        push_short_param(&mut f, p);
        proof {
            let vs = views(params@);
            assert(vs.take(i + 1) =~= vs.take(i as int).push(p@));
            lemma_short_params_push(vs.take(i as int), p@);
        }
        i = i + 1;
    }
    assert(views(params@).take(params@.len() as int) =~= views(params@));
    f.push(END_CMD);
    pad_to_4(&mut f);
    assert(f@ =~= command_frame(cmd, views(params@)));
    f
}

/// Largest frame, in bytes, built for a command with mixed parameters.
pub const MAX_MIXED_FRAME: usize = 256;

/// A parameter of either width with its length prefix: one byte, or two
/// bytes big-endian (the length taken as a `u16`).
pub open spec fn mixed_param(p: Param) -> Seq<u8> {
    match p {
        Param::Short(d) => seq![(d@.len() % 256) as u8] + d@,
        Param::Long(d) => seq![((d@.len() % 65536) / 256) as u8, (d@.len() % 256) as u8] + d@,
    }
}

/// Mixed parameters one after the other.
pub open spec fn mixed_params(ps: Seq<Param>) -> Seq<u8>
    decreases ps.len(),
{
    if ps.len() == 0 {
        Seq::empty()
    } else {
        mixed_params(ps.drop_last()) + mixed_param(ps.last())
    }
}

/// Whether the frame of the mixed parameters `ps`, before its padding,
/// fits in [`MAX_MIXED_FRAME`] bytes.
pub open spec fn mixed_fits(ps: Seq<Param>) -> bool {
    mixed_params(ps).len() + 4 <= MAX_MIXED_FRAME
}

/// The frame of command `cmd` with mixed-width parameters `ps`.
pub open spec fn mixed_frame(cmd: u8, ps: Seq<Param>) -> Seq<u8> {
    padded(seq![START_CMD, cmd & 0x7f, (ps.len() % 256) as u8] + mixed_params(ps) + seq![END_CMD])
}

/// Every mixed-parameter frame is a whole number of 4-byte words, starts
/// with `START_CMD` and holds `END_CMD` right before its padding; when it
/// fits, it fits the frame buffer.
pub proof fn lemma_mixed_frame_shape(cmd: u8, ps: Seq<Param>)
    ensures
        mixed_frame(cmd, ps).len() % 4 == 0,
        mixed_frame(cmd, ps)[0] == START_CMD,
        mixed_frame(cmd, ps)[mixed_params(ps).len() + 3int] == END_CMD,
        mixed_fits(ps) ==> mixed_frame(cmd, ps).len() <= MAX_MIXED_FRAME,
{
}

/// Build the frame of command `cmd` with mixed-width parameters. The frame
/// is assembled in a buffer of [`MAX_MIXED_FRAME`] bytes; when it does not
/// fit, the result is [`Error::BufferTooSmall`].
pub fn encode_mixed_command<E>(cmd: u8, params: &[Param<'_>]) -> (r: Result<Vec<u8>, Error<E>>)
    ensures
        match r {
            Ok(f) => mixed_fits(params@) && f@ == mixed_frame(cmd, params@),
            Err(e) => !mixed_fits(params@) && e == Error::<E>::BufferTooSmall,
        },
{
    let mut f: Vec<u8> = Vec::new();
    f.push(START_CMD);
    f.push(cmd & 0x7f);
    f.push((params.len() % 256) as u8);
    let ghost head = f@;
    let mut i: usize = 0;
    while i < params.len()
        invariant
            i <= params@.len(),
            f@ == head + mixed_params(params@.take(i as int)),
            f@.len() <= MAX_MIXED_FRAME,
            head.len() == 3,
        decreases params@.len() - i,
    {
        let ghost before = f@;
        let n = f.len();
        proof {
            assert(params@.take(i + 1).drop_last() =~= params@.take(i as int));
            assert(params@.take(i + 1).last() == params@[i as int]);
        }
        match params[i] {
            Param::Short(d) => {
                if d.len() >= MAX_MIXED_FRAME - n {
                    proof { lemma_mixed_prefix_too_big(params@, i as int); }
                    return Err(Error::BufferTooSmall);
                }
                push_short_param(&mut f, d);
            },
            Param::Long(d) => {
                if MAX_MIXED_FRAME - n < 2 || d.len() > MAX_MIXED_FRAME - n - 2 {
                    proof { lemma_mixed_prefix_too_big(params@, i as int); }
                    return Err(Error::BufferTooSmall);
                }
                f.push(((d.len() % 65536) / 256) as u8);
                f.push((d.len() % 256) as u8);
                let ghost start = f@;
                let mut j: usize = 0;
                while j < d.len()
                    invariant
                        j <= d@.len(),
                        f@ == start + d@.take(j as int),
                    decreases d@.len() - j,
                {
                    f.push(d[j]);
                    j = j + 1;
                    assert(f@ =~= start + d@.take(j as int));
                }
                assert(d@.take(d@.len() as int) =~= d@);
            },
        }
        proof {
            assert(params@.take(i + 1).drop_last() =~= params@.take(i as int));
            assert(f@ =~= before + mixed_param(params@[i as int]));
        }
        i = i + 1;
    }
    assert(params@.take(params@.len() as int) =~= params@);
    if f.len() >= MAX_MIXED_FRAME {
        return Err(Error::BufferTooSmall);
    }
    f.push(END_CMD);
    pad_to_4(&mut f);
    assert(f@ =~= mixed_frame(cmd, params@));
    Ok(f)
}

/// When the parameters up to and including the `i`-th one overflow the
/// frame, so do all of them.
proof fn lemma_mixed_prefix_too_big(ps: Seq<Param>, i: int)
    requires
        0 <= i < ps.len(),
        3 + mixed_params(ps.take(i + 1)).len() > MAX_MIXED_FRAME,
    ensures
        !mixed_fits(ps),
    decreases ps.len() - i,
{
    if i + 1 < ps.len() {
        assert(ps.take(i + 2).drop_last() =~= ps.take(i + 1));
        lemma_mixed_prefix_too_big(ps, i + 1);
    } else {
        assert(ps.take(i + 1) =~= ps);
    }
}

// ------------------------------------------------------------------ replies

/// What to do next while reading a reply.
pub enum RxStep<T, E> {
    /// Clock this many more bytes in, then decode again.
    Read(usize),
    /// The exchange is over, with this outcome.
    Done(Result<T, Error<E>>),
}

/// A decoded reply with its payload taken by its byte contents.
pub open spec fn payload_view<E>(r: RxStep<Vec<u8>, E>) -> RxStep<Seq<u8>, E> {
    match r {
        RxStep::Read(n) => RxStep::Read(n),
        RxStep::Done(Ok(v)) => RxStep::Done(Ok(v@)),
        RxStep::Done(Err(e)) => RxStep::Done(Err(e)),
    }
}

/// A decoded multi-parameter reply with its packed parameters taken by
/// their byte contents.
pub open spec fn params_view<E>(r: RxStep<(u8, Vec<u8>), E>) -> RxStep<(u8, Seq<u8>), E> {
    match r {
        RxStep::Read(n) => RxStep::Read(n),
        RxStep::Done(Ok((n, v))) => RxStep::Done(Ok((n, v@))),
        RxStep::Done(Err(e)) => RxStep::Done(Err(e)),
    }
}

/// The opcode byte of the reply to `cmd`.
pub open spec fn reply_opcode(cmd: u8) -> u8 {
    cmd | 0x80
}

/// A byte that ends the wait for a reply: `START_CMD` or `ERR_CMD`.
pub open spec fn is_marker(b: u8) -> bool {
    b == START_CMD || b == ERR_CMD
}

/// Index of the first marker byte of `s`, or `s.len()` when there is none.
pub open spec fn first_marker(s: Seq<u8>) -> int
    decreases s.len(),
{
    if s.len() == 0 {
        0
    } else if is_marker(s[0]) {
        0
    } else {
        1 + first_marker(s.drop_first())
    }
}

/// `first_marker` is the least index of a marker byte.
pub proof fn lemma_first_marker(s: Seq<u8>)
    ensures
        0 <= first_marker(s) <= s.len(),
        forall|i: int| 0 <= i < first_marker(s) ==> !is_marker(#[trigger] s[i]),
        first_marker(s) < s.len() ==> is_marker(s[first_marker(s)]),
    decreases s.len(),
{
    if s.len() > 0 && !is_marker(s[0]) {
        lemma_first_marker(s.drop_first());
        assert forall|i: int| 0 <= i < first_marker(s) implies !is_marker(#[trigger] s[i]) by {
            if i > 0 {
                assert(s[i] == s.drop_first()[i - 1]);
            }
        }
    }
}

/// Any index with the properties of `first_marker` is `first_marker`.
pub proof fn lemma_first_marker_unique(s: Seq<u8>, k: int)
    requires
        0 <= k <= s.len(),
        forall|i: int| 0 <= i < k ==> !is_marker(#[trigger] s[i]),
        k < s.len() ==> is_marker(s[k]),
    ensures
        first_marker(s) == k,
{
    lemma_first_marker(s);
    let m = first_marker(s);
    if m < k {
        assert(!is_marker(s[m]));
    } else if k < m {
        assert(!is_marker(s[k]));
    }
}

/// Position of the first marker among the first `START_TIMEOUT_ITERS`
/// bytes; `START_TIMEOUT_ITERS` when there is none there.
fn scan_marker(rx: &[u8]) -> (k: usize)
    ensures
        k < START_TIMEOUT_ITERS ==> k as int == first_marker(rx@),
        k == START_TIMEOUT_ITERS ==> first_marker(rx@) >= START_TIMEOUT_ITERS,
        k <= START_TIMEOUT_ITERS,
        k <= rx@.len(),
{
    let limit: usize = START_TIMEOUT_ITERS as usize;
    let mut i: usize = 0;
    while i < rx.len() && i < limit && rx[i] != START_CMD && rx[i] != ERR_CMD
        invariant
            i <= rx@.len(),
            i <= limit,
            limit == START_TIMEOUT_ITERS,
            forall|j: int| 0 <= j < i ==> !is_marker(#[trigger] rx@[j]),
        decreases rx@.len() - i,
    {
        i = i + 1;
    }
    proof {
        lemma_first_marker(rx@);
        if i < limit {
            lemma_first_marker_unique(rx@, i as int);
        } else {
            if first_marker(rx@) < START_TIMEOUT_ITERS {
                assert(!is_marker(rx@[first_marker(rx@)]));
            }
        }
    }
    i
}

/// Outcome of a reply with one parameter with an 8-bit length, read
/// into a buffer of `cap` bytes, given the bytes `s` clocked in so far.
///
/// The bus is polled one byte at a time for `START_CMD` (at most
/// `START_TIMEOUT_ITERS` bytes; `ERR_CMD` ends the wait with
/// [`Error::Nina`]); then come the reply opcode, a parameter count that
/// must be 1 and the length (read together), the payload and `END_CMD`
/// (read together).
pub open spec fn reply_step<E>(cmd: u8, cap: nat, s: Seq<u8>) -> RxStep<Seq<u8>, E> {
    let k = first_marker(s);
    if k >= START_TIMEOUT_ITERS {
        RxStep::Done(Err(Error::Timeout))
    } else if k == s.len() {
        RxStep::Read(1)
    } else if s[k] == ERR_CMD {
        RxStep::Done(Err(Error::Nina))
    } else if s.len() < k + 4 {
        RxStep::Read((k + 4 - s.len()) as usize)
    } else if s[k + 1] != reply_opcode(cmd) || s[k + 2] != 1 {
        RxStep::Done(Err(Error::Framing))
    } else if s[k + 3] > cap {
        RxStep::Done(Err(Error::BufferTooSmall))
    } else if s.len() < k + 5 + s[k + 3] {
        RxStep::Read((k + 5 + s[k + 3] - s.len()) as usize)
    } else if s[k + 4 + s[k + 3]] != END_CMD {
        RxStep::Done(Err(Error::Framing))
    } else {
        RxStep::Done(Ok(s.subrange(k + 4, k + 4 + s[k + 3])))
    }
}

/// Decode a reply with one parameter with an 8-bit length, read into a
/// buffer of `cap` bytes, from the bytes `rx` clocked in so far.
pub fn decode_reply<E>(cmd: u8, cap: usize, rx: &[u8]) -> (r: RxStep<Vec<u8>, E>)
    ensures
        payload_view(r) == reply_step::<E>(cmd, cap as nat, rx@),
{
    let k = scan_marker(rx);
    if k >= START_TIMEOUT_ITERS as usize {
        return RxStep::Done(Err(Error::Timeout));
    }
    if k == rx.len() {
        return RxStep::Read(1);
    }
    if rx[k] == ERR_CMD {
        return RxStep::Done(Err(Error::Nina));
    }
    if rx.len() - k < 4 {
        return RxStep::Read(k + 4 - rx.len());
    }
    if rx[k + 1] != cmd | 0x80 || rx[k + 2] != 1 {
        return RxStep::Done(Err(Error::Framing));
    }
    let len = rx[k + 3] as usize;
    if len > cap {
        return RxStep::Done(Err(Error::BufferTooSmall));
    }
    if rx.len() - k - 4 < len + 1 {
        return RxStep::Read(k + 5 + len - rx.len());
    }
    if rx[k + 4 + len] != END_CMD {
        return RxStep::Done(Err(Error::Framing));
    }
    let payload = vstd::slice::slice_to_vec(vstd::slice::slice_subrange(rx, k + 4, k + 4 + len));
    RxStep::Done(Ok(payload))
}

/// Outcome of a reply with one parameter with a 16-bit big-endian length,
/// read into a buffer of `cap` bytes, given the bytes `s` clocked in so
/// far. After `START_CMD` come the reply opcode and the parameter count
/// (read together), the two length bytes, then the payload and `END_CMD`.
pub open spec fn reply16_step<E>(cmd: u8, cap: nat, s: Seq<u8>) -> RxStep<Seq<u8>, E> {
    let k = first_marker(s);
    if k >= START_TIMEOUT_ITERS {
        RxStep::Done(Err(Error::Timeout))
    } else if k == s.len() {
        RxStep::Read(1)
    } else if s[k] == ERR_CMD {
        RxStep::Done(Err(Error::Nina))
    } else if s.len() < k + 3 {
        RxStep::Read((k + 3 - s.len()) as usize)
    } else if s[k + 1] != reply_opcode(cmd) || s[k + 2] != 1 {
        RxStep::Done(Err(Error::Framing))
    } else if s.len() < k + 5 {
        RxStep::Read((k + 5 - s.len()) as usize)
    } else {
        let len = s[k + 3] * 256 + s[k + 4];
        if len > cap {
            RxStep::Done(Err(Error::BufferTooSmall))
        } else if s.len() < k + 6 + len {
            RxStep::Read((k + 6 + len - s.len()) as usize)
        } else if s[k + 5 + len] != END_CMD {
            RxStep::Done(Err(Error::Framing))
        } else {
            RxStep::Done(Ok(s.subrange(k + 5, k + 5 + len)))
        }
    }
}

/// Decode a reply with one parameter with a 16-bit length, read into a
/// buffer of `cap` bytes, from the bytes `rx` clocked in so far.
pub fn decode_reply16<E>(cmd: u8, cap: usize, rx: &[u8]) -> (r: RxStep<Vec<u8>, E>)
    ensures
        payload_view(r) == reply16_step::<E>(cmd, cap as nat, rx@),
{
    let k = scan_marker(rx);
    if k >= START_TIMEOUT_ITERS as usize {
        return RxStep::Done(Err(Error::Timeout));
    }
    if k == rx.len() {
        return RxStep::Read(1);
    }
    if rx[k] == ERR_CMD {
        return RxStep::Done(Err(Error::Nina));
    }
    if rx.len() - k < 3 {
        return RxStep::Read(k + 3 - rx.len());
    }
    if rx[k + 1] != cmd | 0x80 || rx[k + 2] != 1 {
        return RxStep::Done(Err(Error::Framing));
    }
    if rx.len() - k < 5 {
        return RxStep::Read(k + 5 - rx.len());
    }
    let len = (rx[k + 3] as usize) * 256 + rx[k + 4] as usize;
    if len > cap {
        return RxStep::Done(Err(Error::BufferTooSmall));
    }
    if rx.len() - k - 5 < len + 1 {
        return RxStep::Read(k + 6 + len - rx.len());
    }
    if rx[k + 5 + len] != END_CMD {
        return RxStep::Done(Err(Error::Framing));
    }
    let payload = vstd::slice::slice_to_vec(vstd::slice::slice_subrange(rx, k + 5, k + 5 + len));
    RxStep::Done(Ok(payload))
}

/// Where the walk over the parameters of a reply stands.
pub enum ParamScan {
    /// All parameters are in; the next byte is at this index.
    End(int),
    /// This many more bytes are needed.
    Need(int),
    /// The next parameter would overflow the buffer.
    TooSmall,
}

/// Walk `count` parameters with 8-bit lengths starting at index `pos` of
/// `s`, with `room` bytes left in the buffer that receives them (each
/// parameter takes its length byte and its payload).
pub open spec fn scan_params(s: Seq<u8>, pos: int, count: nat, room: int) -> ParamScan
    decreases count,
{
    if count == 0 {
        ParamScan::End(pos)
    } else if s.len() <= pos {
        ParamScan::Need(pos + 1 - s.len())
    } else if 1 + s[pos] > room {
        ParamScan::TooSmall
    } else if s.len() < pos + 1 + s[pos] {
        ParamScan::Need(pos + 1 + s[pos] - s.len())
    } else {
        scan_params(s, pos + 1 + s[pos], (count - 1) as nat, room - 1 - s[pos])
    }
}

/// Outcome of a reply with any number of parameters with 8-bit lengths,
/// packed as `[len, bytes..]` into a buffer of `cap` bytes, given the bytes
/// `s` clocked in so far. After `START_CMD` come the reply opcode and the
/// parameter count (read together); then, per parameter, its length byte
/// and then its payload; then `END_CMD`. The result is the parameter count
/// and the packed parameters.
pub open spec fn reply_params_step<E>(cmd: u8, cap: nat, s: Seq<u8>) -> RxStep<(u8, Seq<u8>), E> {
    let k = first_marker(s);
    if k >= START_TIMEOUT_ITERS {
        RxStep::Done(Err(Error::Timeout))
    } else if k == s.len() {
        RxStep::Read(1)
    } else if s[k] == ERR_CMD {
        RxStep::Done(Err(Error::Nina))
    } else if s.len() < k + 3 {
        RxStep::Read((k + 3 - s.len()) as usize)
    } else if s[k + 1] != reply_opcode(cmd) {
        RxStep::Done(Err(Error::Framing))
    } else {
        match scan_params(s, k + 3, s[k + 2] as nat, cap as int) {
            ParamScan::TooSmall => RxStep::Done(Err(Error::BufferTooSmall)),
            ParamScan::Need(m) => RxStep::Read(m as usize),
            ParamScan::End(e) => if s.len() <= e {
                RxStep::Read((e + 1 - s.len()) as usize)
            } else if s[e] != END_CMD {
                RxStep::Done(Err(Error::Framing))
            } else {
                RxStep::Done(Ok((s[k + 2], s.subrange(k + 3, e))))
            },
        }
    }
}

/// Decode a reply with any number of parameters, packed into a buffer of
/// `cap` bytes, from the bytes `rx` clocked in so far.
pub fn decode_reply_params<E>(cmd: u8, cap: usize, rx: &[u8]) -> (r: RxStep<(u8, Vec<u8>), E>)
    ensures
        params_view(r) == reply_params_step::<E>(cmd, cap as nat, rx@),
{
    let k = scan_marker(rx);
    if k >= START_TIMEOUT_ITERS as usize {
        return RxStep::Done(Err(Error::Timeout));
    }
    if k == rx.len() {
        return RxStep::Read(1);
    }
    if rx[k] == ERR_CMD {
        return RxStep::Done(Err(Error::Nina));
    }
    if rx.len() - k < 3 {
        return RxStep::Read(k + 3 - rx.len());
    }
    if rx[k + 1] != cmd | 0x80 {
        return RxStep::Done(Err(Error::Framing));
    }
    let count = rx[k + 2];
    let mut left: u8 = count;
    let mut pos: usize = k + 3;
    let mut room: usize = cap;
    while left > 0
        invariant
            k + 3 <= pos <= rx@.len(),
            room <= cap,
            k < rx@.len(),
            k as int == first_marker(rx@),
            k < START_TIMEOUT_ITERS,
            rx@[k as int] != ERR_CMD,
            rx@.len() >= k + 3,
            rx@[k + 1] == reply_opcode(cmd),
            count == rx@[k + 2],
            scan_params(rx@, k + 3, count as nat, cap as int) == scan_params(
                rx@,
                pos as int,
                left as nat,
                room as int,
            ),
        decreases left,
    {
        if pos == rx.len() {
            return RxStep::Read(1);
        }
        let len = rx[pos] as usize;
        if room < 1 || len > room - 1 {
            return RxStep::Done(Err(Error::BufferTooSmall));
        }
        if rx.len() - pos - 1 < len {
            return RxStep::Read(len - (rx.len() - pos - 1));
        }
        pos = pos + 1 + len;
        room = room - 1 - len;
        left = left - 1;
    }
    if pos == rx.len() {
        return RxStep::Read(1);
    }
    if rx[pos] != END_CMD {
        return RxStep::Done(Err(Error::Framing));
    }
    let packed = vstd::slice::slice_to_vec(vstd::slice::slice_subrange(rx, k + 3, pos));
    RxStep::Done(Ok((count, packed)))
}

// ------------------------------------------------------------- reply laws

/// The reply frame that carries payload `p` with an 8-bit length.
pub open spec fn reply_frame(cmd: u8, p: Seq<u8>) -> Seq<u8> {
    seq![START_CMD, reply_opcode(cmd), 1u8, p.len() as u8] + p + seq![END_CMD]
}

/// Bytes that may precede a reply: no marker, and fewer than the polling
/// budget.
pub open spec fn idle_bytes(junk: Seq<u8>) -> bool {
    &&& junk.len() < START_TIMEOUT_ITERS
    &&& forall|i: int| 0 <= i < junk.len() ==> !is_marker(#[trigger] junk[i])
}

/// The first marker of idle bytes followed by a frame is the frame's first
/// byte.
proof fn lemma_marker_after_idle(junk: Seq<u8>, rest: Seq<u8>)
    requires
        idle_bytes(junk),
        rest.len() > 0,
        is_marker(rest[0]),
    ensures
        first_marker(junk + rest) == junk.len(),
{
    let s = junk + rest;
    assert forall|i: int| 0 <= i < junk.len() implies !is_marker(#[trigger] s[i]) by {
        assert(s[i] == junk[i]);
    }
    lemma_first_marker_unique(s, junk.len() as int);
}

/// Extending the bytes read keeps the first marker found within them, and
/// keeps a wait that ran out of polling budget timed out.
proof fn lemma_marker_extend(s: Seq<u8>, t: Seq<u8>)
    ensures
        first_marker(s) < s.len() ==> first_marker(s + t) == first_marker(s),
        first_marker(s) >= START_TIMEOUT_ITERS ==> first_marker(s + t) >= START_TIMEOUT_ITERS,
        first_marker(s) == s.len() ==> first_marker(s + t) >= s.len(),
{
    lemma_first_marker(s);
    lemma_first_marker(s + t);
    let u = s + t;
    if first_marker(s) < s.len() {
        assert forall|i: int| 0 <= i < first_marker(s) implies !is_marker(#[trigger] u[i]) by {
            assert(u[i] == s[i]);
        }
        assert(u[first_marker(s)] == s[first_marker(s)]);
        lemma_first_marker_unique(u, first_marker(s));
    } else {
        if first_marker(u) < s.len() {
            assert(u[first_marker(u)] == s[first_marker(u)]);
        }
    }
}

/// Reading a reply frame after idle bytes gives back its payload, whatever
/// follows the frame on the bus.
pub proof fn lemma_reply_roundtrip<E>(cmd: u8, cap: nat, junk: Seq<u8>, p: Seq<u8>, rest: Seq<u8>)
    requires
        idle_bytes(junk),
        p.len() <= 255,
        p.len() <= cap,
    ensures
        reply_step::<E>(cmd, cap, junk + reply_frame(cmd, p) + rest) == RxStep::<Seq<u8>, E>::Done(
            Ok(p),
        ),
{
    let f = reply_frame(cmd, p);
    let s = junk + f + rest;
    assert(s =~= junk + (f + rest));
    lemma_marker_after_idle(junk, f + rest);
    let k = junk.len() as int;
    assert(s[k] == START_CMD);
    assert(s[k + 1] == reply_opcode(cmd));
    assert(s[k + 2] == 1);
    assert(s[k + 3] == p.len());
    assert(s[k + 4 + p.len()] == END_CMD);
    assert(s.subrange(k + 4, k + 4 + p.len()) =~= p);
}

/// Once the outcome of a reply is known, further bytes do not change it.
pub proof fn lemma_reply_done_stable<E>(cmd: u8, cap: nat, s: Seq<u8>, t: Seq<u8>)
    requires
        reply_step::<E>(cmd, cap, s) is Done,
    ensures
        reply_step::<E>(cmd, cap, s + t) == reply_step::<E>(cmd, cap, s),
{
    lemma_marker_extend(s, t);
    lemma_first_marker(s);
    let k = first_marker(s);
    let u = s + t;
    if k < START_TIMEOUT_ITERS && k < s.len() {
        assert(u[k] == s[k]);
        if s.len() >= k + 4 {
            assert(u[k + 1] == s[k + 1]);
            assert(u[k + 2] == s[k + 2]);
            assert(u[k + 3] == s[k + 3]);
            if s.len() >= k + 5 + s[k + 3] {
                assert(u[k + 4 + s[k + 3]] == s[k + 4 + s[k + 3]]);
                assert(u.subrange(k + 4, k + 4 + s[k + 3]) =~= s.subrange(k + 4, k + 4 + s[k + 3]));
            }
        }
    }
}

/// While the reply is incomplete the decoder asks for at least one byte,
/// and never for bytes past the end of a well-formed reply: the host clocks
/// in exactly the idle bytes and the frame.
pub proof fn lemma_reply_reads_exactly<E>(cmd: u8, cap: nat, junk: Seq<u8>, p: Seq<u8>, i: int)
    requires
        idle_bytes(junk),
        p.len() <= 255,
        p.len() <= cap,
        0 <= i < (junk + reply_frame(cmd, p)).len(),
    ensures
        reply_step::<E>(cmd, cap, (junk + reply_frame(cmd, p)).take(i)) matches RxStep::Read(n)
            && 1 <= n && i + n <= (junk + reply_frame(cmd, p)).len(),
{
    let full = junk + reply_frame(cmd, p);
    let s = full.take(i);
    let k = junk.len() as int;
    if i <= k {
        assert forall|j: int| 0 <= j < i implies !is_marker(#[trigger] s[j]) by {
            assert(s[j] == junk[j]);
        }
        lemma_first_marker_unique(s, i);
    } else {
        assert forall|j: int| 0 <= j < k implies !is_marker(#[trigger] s[j]) by {
            assert(s[j] == junk[j]);
        }
        assert(s[k] == START_CMD);
        lemma_first_marker_unique(s, k);
        if i >= k + 4 {
            assert(s[k + 1] == reply_opcode(cmd));
            assert(s[k + 2] == 1);
            assert(s[k + 3] == p.len());
        }
    }
}

/// The reply frame that carries payload `p` with a 16-bit length.
pub open spec fn reply16_frame(cmd: u8, p: Seq<u8>) -> Seq<u8> {
    seq![START_CMD, reply_opcode(cmd), 1u8, (p.len() / 256) as u8, (p.len() % 256) as u8] + p
        + seq![END_CMD]
}

/// Reading a 16-bit-length reply frame after idle bytes gives back its
/// payload, whatever follows the frame on the bus.
pub proof fn lemma_reply16_roundtrip<E>(cmd: u8, cap: nat, junk: Seq<u8>, p: Seq<u8>, rest: Seq<u8>)
    requires
        idle_bytes(junk),
        p.len() <= 0xFFFF,
        p.len() <= cap,
    ensures
        reply16_step::<E>(cmd, cap, junk + reply16_frame(cmd, p) + rest)
            == RxStep::<Seq<u8>, E>::Done(Ok(p)),
{
    let f = reply16_frame(cmd, p);
    let s = junk + f + rest;
    assert(s =~= junk + (f + rest));
    lemma_marker_after_idle(junk, f + rest);
    let k = junk.len() as int;
    assert(s[k] == START_CMD);
    assert(s[k + 1] == reply_opcode(cmd));
    assert(s[k + 2] == 1);
    assert(s[k + 3] * 256 + s[k + 4] == p.len());
    assert(s[k + 5 + p.len()] == END_CMD);
    assert(s.subrange(k + 5, k + 5 + p.len()) =~= p);
}

/// Once the outcome of a 16-bit-length reply is known, further bytes do not
/// change it.
pub proof fn lemma_reply16_done_stable<E>(cmd: u8, cap: nat, s: Seq<u8>, t: Seq<u8>)
    requires
        reply16_step::<E>(cmd, cap, s) is Done,
    ensures
        reply16_step::<E>(cmd, cap, s + t) == reply16_step::<E>(cmd, cap, s),
{
    lemma_marker_extend(s, t);
    lemma_first_marker(s);
    let k = first_marker(s);
    let u = s + t;
    if k < START_TIMEOUT_ITERS && k < s.len() {
        assert(u[k] == s[k]);
        if s.len() >= k + 3 {
            assert(u[k + 1] == s[k + 1]);
            assert(u[k + 2] == s[k + 2]);
            if s.len() >= k + 5 {
                assert(u[k + 3] == s[k + 3]);
                assert(u[k + 4] == s[k + 4]);
                let len = s[k + 3] * 256 + s[k + 4];
                if s.len() >= k + 6 + len {
                    assert(u[k + 5 + len] == s[k + 5 + len]);
                    assert(u.subrange(k + 5, k + 5 + len) =~= s.subrange(k + 5, k + 5 + len));
                }
            }
        }
    }
}

/// While a 16-bit-length reply is incomplete the decoder asks for at least
/// one byte, and never for bytes past the end of a well-formed reply.
pub proof fn lemma_reply16_reads_exactly<E>(cmd: u8, cap: nat, junk: Seq<u8>, p: Seq<u8>, i: int)
    requires
        idle_bytes(junk),
        p.len() <= 0xFFFF,
        p.len() <= cap,
        0 <= i < (junk + reply16_frame(cmd, p)).len(),
    ensures
        reply16_step::<E>(cmd, cap, (junk + reply16_frame(cmd, p)).take(i)) matches RxStep::Read(n)
            && 1 <= n && i + n <= (junk + reply16_frame(cmd, p)).len(),
{
    let full = junk + reply16_frame(cmd, p);
    let s = full.take(i);
    let k = junk.len() as int;
    if i <= k {
        assert forall|j: int| 0 <= j < i implies !is_marker(#[trigger] s[j]) by {
            assert(s[j] == junk[j]);
        }
        lemma_first_marker_unique(s, i);
    } else {
        assert forall|j: int| 0 <= j < k implies !is_marker(#[trigger] s[j]) by {
            assert(s[j] == junk[j]);
        }
        assert(s[k] == START_CMD);
        lemma_first_marker_unique(s, k);
        if i >= k + 3 {
            assert(s[k + 1] == reply_opcode(cmd));
            assert(s[k + 2] == 1);
        }
        if i >= k + 5 {
            assert(s[k + 3] * 256 + s[k + 4] == p.len());
        }
    }
}

/// Every parameter fits its 8-bit length prefix.
pub open spec fn short_lengths(ps: Seq<Seq<u8>>) -> bool {
    forall|i: int| 0 <= i < ps.len() ==> #[trigger] ps[i].len() <= 255
}

/// The reply frame that carries the parameters `ps`.
pub open spec fn reply_params_frame(cmd: u8, ps: Seq<Seq<u8>>) -> Seq<u8> {
    seq![START_CMD, reply_opcode(cmd), ps.len() as u8] + short_params(ps) + seq![END_CMD]
}

/// Walking parameters laid out as `short_params(ps)` ends right after them.
proof fn lemma_scan_short_params(s: Seq<u8>, pos: int, ps: Seq<Seq<u8>>, room: int)
    requires
        0 <= pos,
        pos + short_params(ps).len() <= s.len(),
        s.subrange(pos, pos + short_params(ps).len()) == short_params(ps),
        short_lengths(ps),
        room >= short_params(ps).len(),
    ensures
        scan_params(s, pos, ps.len(), room) == ParamScan::End(pos + short_params(ps).len()),
    decreases ps.len(),
{
    if ps.len() > 0 {
        let sp = short_params(ps);
        let p0 = ps[0];
        let rest = ps.drop_first();
        assert(p0.len() <= 255);
        assert(s[pos] == sp[0]);
        assert(s[pos] == p0.len());
        assert forall|i: int| 0 <= i < rest.len() implies #[trigger] rest[i].len() <= 255 by {
            assert(rest[i] == ps[i + 1]);
        }
        let np = pos + 1 + p0.len();
        assert(s.subrange(np, np + short_params(rest).len()) =~= short_params(rest)) by {
            assert forall|j: int| 0 <= j < short_params(rest).len() implies s.subrange(
                np,
                np + short_params(rest).len(),
            )[j] == short_params(rest)[j] by {
                assert(s[np + j] == sp[1 + p0.len() + j]);
            }
        }
        lemma_scan_short_params(s, np, rest, room - 1 - p0.len());
    }
}

/// Walking parameters over bytes that stop inside them asks for more bytes,
/// at least one and never past their end; over bytes that reach their end
/// it ends there.
proof fn lemma_scan_short_params_prefix(full: Seq<u8>, i: int, pos: int, ps: Seq<Seq<u8>>, room: int)
    requires
        0 <= pos <= i <= full.len(),
        pos + short_params(ps).len() <= full.len(),
        full.subrange(pos, pos + short_params(ps).len()) == short_params(ps),
        short_lengths(ps),
        room >= short_params(ps).len(),
    ensures
        i < pos + short_params(ps).len() ==> (scan_params(full.take(i), pos, ps.len(), room) matches ParamScan::Need(m)
            && 1 <= m && i + m <= pos + short_params(ps).len()),
        i >= pos + short_params(ps).len() ==> scan_params(full.take(i), pos, ps.len(), room)
            == ParamScan::End(pos + short_params(ps).len()),
    decreases ps.len(),
{
    let s = full.take(i);
    if ps.len() > 0 {
        let sp = short_params(ps);
        let p0 = ps[0];
        let rest = ps.drop_first();
        assert(p0.len() <= 255);
        assert(full[pos] == sp[0]);
        assert forall|j: int| 0 <= j < rest.len() implies #[trigger] rest[j].len() <= 255 by {
            assert(rest[j] == ps[j + 1]);
        }
        let np = pos + 1 + p0.len();
        assert(sp.len() == 1 + p0.len() + short_params(rest).len());
        assert(full.subrange(np, np + short_params(rest).len()) =~= short_params(rest)) by {
            assert forall|j: int| 0 <= j < short_params(rest).len() implies full.subrange(
                np,
                np + short_params(rest).len(),
            )[j] == short_params(rest)[j] by {
                assert(full[np + j] == sp[1 + p0.len() + j]);
            }
        }
        if i > pos {
            assert(s[pos] == p0.len());
            if i >= np {
                lemma_scan_short_params_prefix(full, i, np, rest, room - 1 - p0.len());
            }
        }
    }
}

/// Reading a reply frame with several parameters after idle bytes gives
/// back the parameter count and the parameters, packed as they were sent,
/// whatever follows the frame on the bus.
pub proof fn lemma_reply_params_roundtrip<E>(
    cmd: u8,
    cap: nat,
    junk: Seq<u8>,
    ps: Seq<Seq<u8>>,
    rest: Seq<u8>,
)
    requires
        idle_bytes(junk),
        ps.len() <= 255,
        short_lengths(ps),
        short_params(ps).len() <= cap,
    ensures
        reply_params_step::<E>(cmd, cap, junk + reply_params_frame(cmd, ps) + rest)
            == RxStep::<(u8, Seq<u8>), E>::Done(Ok((ps.len() as u8, short_params(ps)))),
{
    let f = reply_params_frame(cmd, ps);
    let s = junk + f + rest;
    let sp = short_params(ps);
    assert(s =~= junk + (f + rest));
    lemma_marker_after_idle(junk, f + rest);
    let k = junk.len() as int;
    assert(s[k] == START_CMD);
    assert(s[k + 1] == reply_opcode(cmd));
    assert(s[k + 2] == ps.len());
    assert(s.subrange(k + 3, k + 3 + sp.len()) =~= sp);
    lemma_scan_short_params(s, k + 3, ps, cap as int);
    assert(s[k + 3 + sp.len()] == END_CMD);
}

/// Walking parameters is unchanged by bytes appended after a walk that
/// needed none.
proof fn lemma_scan_params_extend(s: Seq<u8>, t: Seq<u8>, pos: int, count: nat, room: int)
    requires
        0 <= pos,
        !(scan_params(s, pos, count, room) is Need),
    ensures
        scan_params(s + t, pos, count, room) == scan_params(s, pos, count, room),
    decreases count,
{
    let u = s + t;
    if count > 0 {
        assert(u[pos] == s[pos]);
        if 1 + s[pos] <= room {
            lemma_scan_params_extend(s, t, pos + 1 + s[pos], (count - 1) as nat, room - 1 - s[pos]);
        }
    }
}

/// A walk that ends, ends within the bytes walked.
proof fn lemma_scan_params_end_bound(s: Seq<u8>, pos: int, count: nat, room: int)
    requires
        0 <= pos <= s.len(),
    ensures
        scan_params(s, pos, count, room) matches ParamScan::End(e) ==> pos <= e <= s.len(),
    decreases count,
{
    if count > 0 && s.len() > pos && 1 + s[pos] <= room && s.len() >= pos + 1 + s[pos] {
        lemma_scan_params_end_bound(s, pos + 1 + s[pos], (count - 1) as nat, room - 1 - s[pos]);
    }
}

/// A walk that needs more bytes needs at least one and at most a length
/// byte and a payload.
proof fn lemma_scan_params_need_bound(s: Seq<u8>, pos: int, count: nat, room: int)
    requires
        0 <= pos <= s.len(),
    ensures
        scan_params(s, pos, count, room) matches ParamScan::Need(m) ==> 1 <= m <= 256,
    decreases count,
{
    if count > 0 && s.len() > pos && 1 + s[pos] <= room && s.len() >= pos + 1 + s[pos] {
        lemma_scan_params_need_bound(s, pos + 1 + s[pos], (count - 1) as nat, room - 1 - s[pos]);
    }
}

/// Once the outcome of a reply with several parameters is known, further
/// bytes do not change it.
pub proof fn lemma_reply_params_done_stable<E>(cmd: u8, cap: nat, s: Seq<u8>, t: Seq<u8>)
    requires
        reply_params_step::<E>(cmd, cap, s) is Done,
    ensures
        reply_params_step::<E>(cmd, cap, s + t) == reply_params_step::<E>(cmd, cap, s),
{
    lemma_marker_extend(s, t);
    lemma_first_marker(s);
    let k = first_marker(s);
    let u = s + t;
    if k < START_TIMEOUT_ITERS && k < s.len() {
        assert(u[k] == s[k]);
        if s.len() >= k + 3 {
            assert(u[k + 1] == s[k + 1]);
            assert(u[k + 2] == s[k + 2]);
            if s[k] != ERR_CMD && s[k + 1] == reply_opcode(cmd) {
                lemma_scan_params_extend(s, t, k + 3, s[k + 2] as nat, cap as int);
                lemma_scan_params_end_bound(s, k + 3, s[k + 2] as nat, cap as int);
                match scan_params(s, k + 3, s[k + 2] as nat, cap as int) {
                    ParamScan::End(e) => {
                        if s.len() > e {
                            assert(u[e] == s[e]);
                            assert(u.subrange(k + 3, e) =~= s.subrange(k + 3, e));
                        }
                    },
                    _ => {},
                }
            }
        }
    }
}

/// While a reply with several parameters is incomplete the decoder asks for
/// at least one byte, and never for bytes past the end of a well-formed
/// reply.
pub proof fn lemma_reply_params_reads_exactly<E>(
    cmd: u8,
    cap: nat,
    junk: Seq<u8>,
    ps: Seq<Seq<u8>>,
    i: int,
)
    requires
        idle_bytes(junk),
        ps.len() <= 255,
        short_lengths(ps),
        short_params(ps).len() <= cap,
        0 <= i < (junk + reply_params_frame(cmd, ps)).len(),
    ensures
        reply_params_step::<E>(cmd, cap, (junk + reply_params_frame(cmd, ps)).take(i)) matches RxStep::Read(n)
            && 1 <= n && i + n <= (junk + reply_params_frame(cmd, ps)).len(),
{
    let full = junk + reply_params_frame(cmd, ps);
    let s = full.take(i);
    let sp = short_params(ps);
    let k = junk.len() as int;
    if i <= k {
        assert forall|j: int| 0 <= j < i implies !is_marker(#[trigger] s[j]) by {
            assert(s[j] == junk[j]);
        }
        lemma_first_marker_unique(s, i);
    } else {
        assert forall|j: int| 0 <= j < k implies !is_marker(#[trigger] s[j]) by {
            assert(s[j] == junk[j]);
        }
        assert(s[k] == START_CMD);
        lemma_first_marker_unique(s, k);
        if i >= k + 3 {
            assert(s[k + 1] == reply_opcode(cmd));
            assert(s[k + 2] == ps.len());
            assert(full.subrange(k + 3, k + 3 + sp.len()) =~= sp);
            lemma_scan_short_params_prefix(full, i, k + 3, ps, cap as int);
            assert(s[k + 2] as nat == ps.len());
            assert(s.len() == i);
            lemma_scan_params_need_bound(s, k + 3, s[k + 2] as nat, cap as int);
            if i < k + 3 + sp.len() {
                assert(scan_params(s, k + 3, s[k + 2] as nat, cap as int) is Need);
            } else {
                assert(scan_params(s, k + 3, s[k + 2] as nat, cap as int) == ParamScan::End(i));
            }
        }
    }
}

} // verus!
