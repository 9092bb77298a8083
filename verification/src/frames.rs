//! The wire model: 2-byte bus frames and the traces that driver
//! operations emit.
//!
//! Every logical register operation is one chip-select-scoped bus
//! transaction carrying exactly two bytes.  The first byte is a tag:
//! `0x00` selects a command register, `0x80` writes a data byte, `0x40`
//! reads the status byte and `0xC0` reads a data byte.  For the two read
//! tags the second transmitted byte is ignored by the chip and the
//! second received byte carries the answer.

use vstd::prelude::*;

verus! {

/// One completed 2-byte bus transaction.
///
/// `Write` is a plain write of `[tag, val]`; `Exchange` is a full-duplex
/// transfer that sent `[tag, sent]` and received `recv` in the second
/// response byte.
#[derive(Clone, Copy, PartialEq, Eq, Structural, Debug)]
pub enum Frame {
    Write { tag: u8, val: u8 },
    Exchange { tag: u8, sent: u8, recv: u8 },
}

/// Tag byte that selects a command/register address.
pub const TAG_SELECT: u8 = 0x00;

/// Tag byte that writes one data byte to the selected register.
pub const TAG_DATA: u8 = 0x80;

/// Tag byte that reads the status register.
pub const TAG_STATUS: u8 = 0x40;

/// Tag byte that reads one data byte from the selected register.
pub const TAG_READ: u8 = 0xC0;

/// The command-select frame `[0x00, addr]`.
pub open spec fn sel_frame(addr: u8) -> Frame {
    Frame::Write { tag: TAG_SELECT, val: addr }
}

/// The data-write frame `[0x80, v]`.
pub open spec fn dat_frame(v: u8) -> Frame {
    Frame::Write { tag: TAG_DATA, val: v }
}

/// The status-read exchange `[0x40, 0x00]` that received status byte `s`.
pub open spec fn status_frame(s: u8) -> Frame {
    Frame::Exchange { tag: TAG_STATUS, sent: 0x00, recv: s }
}

/// The data-read exchange `[0xC0, 0x00]` that received data byte `d`.
pub open spec fn read_frame(d: u8) -> Frame {
    Frame::Exchange { tag: TAG_READ, sent: 0x00, recv: d }
}

/// The exact traffic of one register write: select `addr`, then write `v`,
/// with nothing in between.
pub open spec fn reg_write_frames(addr: u8, v: u8) -> Seq<Frame> {
    seq![sel_frame(addr), dat_frame(v)]
}

/// The exact traffic of one read-modify-write: select `addr`, read back
/// `s`, then write `v` (the caller's transform of `s`).
pub open spec fn rmw_frames(addr: u8, s: u8, v: u8) -> Seq<Frame> {
    seq![sel_frame(addr), read_frame(s), dat_frame(v)]
}

/// `f` is a status-read exchange (whatever byte it received).
pub open spec fn is_status_poll(f: Frame) -> bool {
    f matches Frame::Exchange { tag, sent, .. } && tag == TAG_STATUS && sent == 0x00
}

/// `f` is a data-read exchange (whatever byte it received).
pub open spec fn is_data_read(f: Frame) -> bool {
    f matches Frame::Exchange { tag, sent, .. } && tag == TAG_READ && sent == 0x00
}

/// The byte an exchange frame received.
pub open spec fn recv_of(f: Frame) -> u8 {
    f->Exchange_recv
}

/// The status byte satisfies the wait condition: the masked bits are all
/// zero (`want_zero`) or not all zero.
pub open spec fn poll_hit(s: u8, mask: u8, want_zero: bool) -> bool {
    if want_zero {
        s & mask == 0
    } else {
        s & mask != 0
    }
}

/// The traffic of one successful busy-wait: one or more status reads,
/// none but the last satisfying the condition, the last satisfying it.
pub open spec fn poll_trace(p: Seq<Frame>, mask: u8, want_zero: bool) -> bool {
    &&& p.len() >= 1
    &&& forall|i: int| 0 <= i < p.len() ==> is_status_poll(#[trigger] p[i])
    &&& forall|i: int| 0 <= i < p.len() - 1 ==> !poll_hit(recv_of(#[trigger] p[i]), mask, want_zero)
    &&& poll_hit(recv_of(p[p.len() - 1]), mask, want_zero)
}

/// The traffic of a busy-wait that reached its bound: exactly `limit`
/// status reads, none satisfying the condition.
pub open spec fn poll_exhausted(p: Seq<Frame>, mask: u8, want_zero: bool, limit: u32) -> bool {
    &&& p.len() == limit
    &&& forall|i: int| 0 <= i < p.len() ==> is_status_poll(#[trigger] p[i])
    &&& forall|i: int| 0 <= i < p.len() ==> !poll_hit(recv_of(#[trigger] p[i]), mask, want_zero)
}

/// The traffic of one completed temperature self-check.
///
/// Each round starts with a status read.  While the reset-busy bit
/// (`0x02`) is set, the round is that single read.  Once it is clear, the
/// probe register `0x01` is selected and its value read back; bit `0x80`
/// set means ready and ends the check.  Otherwise the check trigger is
/// re-issued (select `0x01`, write `0x80`) and the whole sequence
/// repeats.
pub open spec fn temp_check_trace(t: Seq<Frame>) -> bool
    decreases t.len(),
{
    if t.len() >= 1 && is_status_poll(t[0]) {
        if !poll_hit(recv_of(t[0]), 0x02, true) {
            temp_check_trace(t.skip(1))
        } else if t.len() >= 3 && t[1] == sel_frame(0x01) && is_data_read(t[2]) {
            if recv_of(t[2]) & 0x80 == 0x80 {
                t.len() == 3
            } else {
                &&& t.len() >= 5
                &&& t[3] == sel_frame(0x01)
                &&& t[4] == dat_frame(0x80)
                &&& temp_check_trace(t.skip(5))
            }
        } else {
            false
        }
    } else {
        false
    }
}

/// Zero or more completed, unsuccessful rounds of the temperature
/// self-check: busy polls and not-ready probes, with no terminal round.
pub open spec fn temp_check_rounds(u: Seq<Frame>) -> bool
    decreases u.len(),
{
    ||| u.len() == 0
    ||| {
        &&& u.len() >= 1
        &&& is_status_poll(u[0])
        &&& !poll_hit(recv_of(u[0]), 0x02, true)
        &&& temp_check_rounds(u.skip(1))
    }
    ||| {
        &&& u.len() >= 5
        &&& is_status_poll(u[0])
        &&& poll_hit(recv_of(u[0]), 0x02, true)
        &&& u[1] == sel_frame(0x01)
        &&& is_data_read(u[2])
        &&& recv_of(u[2]) & 0x80 != 0x80
        &&& u[3] == sel_frame(0x01)
        &&& u[4] == dat_frame(0x80)
        &&& temp_check_rounds(u.skip(5))
    }
}

/// The delays one completed temperature self-check performs, read off
/// its trace: a busy round delays nothing; a probe that comes back not
/// ready is surrounded by four 2 ms delays (before its select, before
/// its read, and around the re-issued trigger); the terminal probe by
/// two.
pub open spec fn temp_check_waits(t: Seq<Frame>) -> Seq<u16>
    decreases t.len(),
{
    if t.len() >= 1 && is_status_poll(t[0]) && !poll_hit(recv_of(t[0]), 0x02, true) {
        temp_check_waits(t.skip(1))
    } else if t.len() == 3 {
        seq![2u16, 2u16]
    } else if t.len() >= 5 {
        seq![2u16, 2u16, 2u16, 2u16] + temp_check_waits(t.skip(5))
    } else {
        Seq::empty()
    }
}

/// The delays of a sequence of unsuccessful self-check rounds.
pub open spec fn temp_rounds_waits(u: Seq<Frame>) -> Seq<u16>
    decreases u.len(),
{
    if u.len() >= 1 && is_status_poll(u[0]) && !poll_hit(recv_of(u[0]), 0x02, true) {
        temp_rounds_waits(u.skip(1))
    } else if u.len() >= 5 {
        seq![2u16, 2u16, 2u16, 2u16] + temp_rounds_waits(u.skip(5))
    } else {
        Seq::empty()
    }
}

/// The delays of concatenated round sequences concatenate.
pub proof fn lemma_temp_waits_concat(u: Seq<Frame>, v: Seq<Frame>)
    requires
        temp_check_rounds(u),
        temp_check_rounds(v),
    ensures
        temp_rounds_waits(u + v) == temp_rounds_waits(u) + temp_rounds_waits(v),
    decreases u.len(),
{
    if u.len() == 0 {
        assert(u + v =~= v);
        assert(temp_rounds_waits(u) + temp_rounds_waits(v) =~= temp_rounds_waits(v));
    } else if u.len() >= 1 && is_status_poll(u[0]) && !poll_hit(recv_of(u[0]), 0x02, true)
        && temp_check_rounds(u.skip(1)) {
        lemma_temp_waits_concat(u.skip(1), v);
        assert((u + v).skip(1) =~= u.skip(1) + v);
    } else {
        lemma_temp_waits_concat(u.skip(5), v);
        assert((u + v).skip(5) =~= u.skip(5) + v);
        assert(seq![2u16, 2u16, 2u16, 2u16] + (temp_rounds_waits(u.skip(5)) + temp_rounds_waits(v))
            =~= (seq![2u16, 2u16, 2u16, 2u16] + temp_rounds_waits(u.skip(5)))
            + temp_rounds_waits(v));
    }
}

/// Closing a round sequence with a terminal round appends the terminal
/// round's delays.
pub proof fn lemma_temp_waits_finish(u: Seq<Frame>, v: Seq<Frame>)
    requires
        temp_check_rounds(u),
        temp_check_trace(v),
    ensures
        temp_check_waits(u + v) == temp_rounds_waits(u) + temp_check_waits(v),
    decreases u.len(),
{
    if u.len() == 0 {
        assert(u + v =~= v);
        assert(temp_rounds_waits(u) + temp_check_waits(v) =~= temp_check_waits(v));
    } else if u.len() >= 1 && is_status_poll(u[0]) && !poll_hit(recv_of(u[0]), 0x02, true)
        && temp_check_rounds(u.skip(1)) {
        lemma_temp_waits_finish(u.skip(1), v);
        assert((u + v).skip(1) =~= u.skip(1) + v);
    } else {
        lemma_temp_waits_finish(u.skip(5), v);
        assert((u + v).skip(5) =~= u.skip(5) + v);
        assert(seq![2u16, 2u16, 2u16, 2u16] + (temp_rounds_waits(u.skip(5)) + temp_check_waits(v))
            =~= (seq![2u16, 2u16, 2u16, 2u16] + temp_rounds_waits(u.skip(5)))
            + temp_check_waits(v));
    }
}

/// Appending one more unsuccessful round keeps a round sequence valid.
pub proof fn lemma_temp_rounds_concat(u: Seq<Frame>, v: Seq<Frame>)
    requires
        temp_check_rounds(u),
        temp_check_rounds(v),
    ensures
        temp_check_rounds(u + v),
    decreases u.len(),
{
    if u.len() == 0 {
        assert(u + v =~= v);
    } else if u.len() >= 1 && is_status_poll(u[0]) && !poll_hit(recv_of(u[0]), 0x02, true)
        && temp_check_rounds(u.skip(1)) {
        lemma_temp_rounds_concat(u.skip(1), v);
        assert((u + v).skip(1) =~= u.skip(1) + v);
    } else {
        lemma_temp_rounds_concat(u.skip(5), v);
        assert((u + v).skip(5) =~= u.skip(5) + v);
    }
}

/// Closing a round sequence with a terminal round yields a completed
/// self-check trace.
pub proof fn lemma_temp_rounds_finish(u: Seq<Frame>, v: Seq<Frame>)
    requires
        temp_check_rounds(u),
        temp_check_trace(v),
    ensures
        temp_check_trace(u + v),
    decreases u.len(),
{
    if u.len() == 0 {
        assert(u + v =~= v);
    } else if u.len() >= 1 && is_status_poll(u[0]) && !poll_hit(recv_of(u[0]), 0x02, true)
        && temp_check_rounds(u.skip(1)) {
        lemma_temp_rounds_finish(u.skip(1), v);
        assert((u + v).skip(1) =~= u.skip(1) + v);
    } else {
        lemma_temp_rounds_finish(u.skip(5), v);
        assert((u + v).skip(5) =~= u.skip(5) + v);
    }
}

/// `b` extends `a`: everything already emitted stays in place and in
/// order; traffic only grows.
pub open spec fn log_grows(a: Seq<Frame>, b: Seq<Frame>) -> bool {
    &&& a.len() <= b.len()
    &&& forall|i: int| 0 <= i < a.len() ==> a[i] == #[trigger] b[i]
}

/// The traffic a failed operation left behind is cut off inside its
/// intended frames `fs`: nothing beyond the failing step was sent, and
/// everything sent up to it agrees with `fs` position by position.
pub open spec fn partial_of(pre: Seq<Frame>, post: Seq<Frame>, fs: Seq<Frame>) -> bool {
    &&& log_grows(pre, post)
    &&& post.len() <= pre.len() + fs.len()
    &&& forall|i: int| pre.len() <= i < post.len() ==> #[trigger] post[i] == fs[i - pre.len()]
}

/// The traffic a failed busy-wait left behind: only status reads, all
/// of which missed the condition except possibly the last (a read is
/// carried even when releasing the select line afterwards fails).
pub open spec fn poll_partial(pre: Seq<Frame>, post: Seq<Frame>, mask: u8, want_zero: bool) -> bool {
    &&& log_grows(pre, post)
    &&& forall|i: int| pre.len() <= i < post.len() ==> is_status_poll(#[trigger] post[i])
    &&& forall|i: int|
        pre.len() <= i < post.len() - 1 ==> !poll_hit(recv_of(#[trigger] post[i]), mask, want_zero)
}

/// The traffic a failed read-modify-write left behind, cut off inside
/// its select/read/write-back triple; when the write-back was reached,
/// its byte is `f` of the byte the read returned.
pub open spec fn rmw_partial(
    pre: Seq<Frame>,
    post: Seq<Frame>,
    reg: u8,
    f: spec_fn(u8) -> u8,
) -> bool {
    &&& log_grows(pre, post)
    &&& post.len() <= pre.len() + 3
    &&& post.len() > pre.len() ==> post[pre.len() as int] == sel_frame(reg)
    &&& post.len() > pre.len() + 1 ==> is_data_read(post[pre.len() as int + 1])
    &&& post.len() > pre.len() + 2 ==> post[pre.len() as int + 2] == dat_frame(
        f(recv_of(post[pre.len() as int + 1])),
    )
}

/// The traffic a failed write-then-wait operation left behind: cut off
/// inside the fixed frames `fs`, or `fs` complete followed by a partial
/// busy-wait on `mask`.
pub open spec fn writes_then_poll_partial(
    pre: Seq<Frame>,
    post: Seq<Frame>,
    fs: Seq<Frame>,
    mask: u8,
    want_zero: bool,
) -> bool {
    &&& log_grows(pre, post)
    &&& forall|i: int|
        pre.len() <= i < post.len() && i < pre.len() + fs.len() ==> #[trigger] post[i] == fs[i
            - pre.len()]
    &&& forall|i: int|
        pre.len() + fs.len() <= i < post.len() ==> is_status_poll(#[trigger] post[i])
    &&& forall|i: int|
        pre.len() + fs.len() <= i < post.len() - 1 ==> !poll_hit(
            recv_of(#[trigger] post[i]),
            mask,
            want_zero,
        )
}

/// The log ends with a full bound's worth of status reads that all
/// missed the condition: the shape every wait leaves behind when it
/// reports hardware-not-ready.
pub open spec fn ends_exhausted(post: Seq<Frame>, mask: u8, want_zero: bool, limit: u32) -> bool {
    &&& post.len() >= limit
    &&& forall|i: int|
        post.len() - limit <= i < post.len() ==> is_status_poll(#[trigger] post[i]) && !poll_hit(
            recv_of(post[i]),
            mask,
            want_zero,
        )
}

/// A prefix of one temperature self-check round, cut off at the failing
/// step.
pub open spec fn temp_round_prefix(t: Seq<Frame>) -> bool {
    &&& t.len() <= 5
    &&& t.len() > 0 ==> is_status_poll(t[0])
    &&& t.len() > 1 ==> poll_hit(recv_of(t[0]), 0x02, true) && t[1] == sel_frame(0x01)
    &&& t.len() > 2 ==> is_data_read(t[2])
    &&& t.len() > 3 ==> recv_of(t[2]) & 0x80 != 0x80 && t[3] == sel_frame(0x01)
    &&& t.len() > 4 ==> t[4] == dat_frame(0x80)
}

/// The traffic a failed temperature self-check left behind: a sequence
/// of completed unsuccessful rounds followed by a prefix of one more
/// round.
pub open spec fn temp_partial(pre: Seq<Frame>, post: Seq<Frame>) -> bool {
    exists|n: int|
        pre.len() <= n <= post.len() && #[trigger] temp_check_rounds(
            post.subrange(pre.len() as int, n),
        ) && temp_round_prefix(post.subrange(n, post.len() as int))
}

/// Chip-select drive log: `b` extends `a`.
pub open spec fn drives_grow(a: Seq<bool>, b: Seq<bool>) -> bool {
    &&& a.len() <= b.len()
    &&& forall|i: int| 0 <= i < a.len() ==> a[i] == #[trigger] b[i]
}

} // verus!
