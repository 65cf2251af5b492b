//! The sample reconstructor (jitter buffer): converts a possibly-reordered,
//! possibly-lossy packet stream into time-ordered complete samples.
//!
//! Packets are pushed into a buffer keyed by sequence number; completed
//! samples are popped in non-decreasing timestamp order. Packets older than
//! the lateness window relative to the newest received packet are considered
//! lost and accounted, never emitted: the counts travel on the next emitted
//! sample so callers can detect gaps.
//!
//! Framing rule: for audio every packet is a complete frame of its own; for
//! video a frame ends at the first packet carrying the frame boundary marker.
//! A frame is complete once the packet at the emission floor is present and a
//! boundary has been seen at or above it; sequence slots missing inside the
//! completed span are counted as dropped.

use vstd::prelude::*;

use crate::media::{MediaSample, Packet};

verus! {

/// Ghost record of one emitted sample: the sequence span it covered, its
/// RTP timestamp, how many data packets it contained and the loss counts
/// flushed into it.
#[verifier::ext_equal]
pub ghost struct SampleRecord {
    pub start: int,
    pub end: int,
    pub ts: int,
    pub n_data: int,
    pub flushed_dropped: int,
    pub flushed_padding: int,
}

impl SampleRecord {
    pub open spec fn wf(&self) -> bool {
        &&& self.start <= self.end
        &&& self.n_data >= 1
        &&& self.flushed_dropped >= 0
        &&& self.flushed_padding >= 0
    }
}

/// Ghost view of a reconstructed sample.
#[verifier::ext_equal]
pub ghost struct SampleModel {
    pub data: Seq<u8>,
    pub timestamp: int,
    pub duration: int,
    pub packet_timestamp: int,
    pub prev_dropped_packets: int,
    pub prev_padding_packets: int,
}

impl View for MediaSample {
    type V = SampleModel;

    open spec fn view(&self) -> SampleModel {
        SampleModel {
            data: self.data@,
            timestamp: self.timestamp as int,
            duration: self.duration as int,
            packet_timestamp: self.packet_timestamp as int,
            prev_dropped_packets: self.prev_dropped_packets as int,
            prev_padding_packets: self.prev_padding_packets as int,
        }
    }
}

/// Abstract state of a reconstructor: the buffered packets in sequence
/// order, the emission floor (`next_seq`), the newest sequence seen, the
/// loss counters accumulated since the last emitted sample, and the history
/// of emitted samples.
#[verifier::ext_equal]
pub ghost struct ReconState {
    pub max_late: int,
    pub audio: bool,
    pub clock_rate: int,
    pub buf: Seq<Packet>,
    pub started: bool,
    pub next_seq: int,
    pub newest: int,
    pub have_last_ts: bool,
    pub last_ts: int,
    pub pending_dropped: int,
    pub pending_padding: int,
    pub start_seq: int,
    pub hist: Seq<SampleRecord>,
}

/// Strictly increasing sequence numbers: the buffer is keyed and ordered by
/// sequence number, duplicates removed.
pub open spec fn seqs_sorted(b: Seq<Packet>) -> bool {
    forall|i: int, j: int|
        0 <= i < j < b.len() ==> #[trigger] b[i].sequence_number < #[trigger] b[j].sequence_number
}

/// Whether some buffered packet carries sequence number `s`.
pub open spec fn present_in(b: Seq<Packet>, s: int) -> bool {
    exists|i: int| 0 <= i < b.len() && (#[trigger] b[i]).sequence_number == s
}

/// The buffered packet carrying sequence number `s` (unique when sorted).
pub open spec fn packet_at(b: Seq<Packet>, s: int) -> Packet {
    b[choose|i: int| 0 <= i < b.len() && (#[trigger] b[i]).sequence_number == s]
}

/// Whether the packet at sequence `s`, if any, is padding-only.
pub open spec fn padding_present_in(b: Seq<Packet>, s: int) -> bool {
    exists|i: int|
        0 <= i < b.len() && (#[trigger] b[i]).sequence_number == s && b[i].padding
}

/// How many sequence slots in `[lo, hi)` count as dropped when given up: a
/// slot counts as padding instead only when a padding-only packet holds it.
pub open spec fn dropped_count_in(b: Seq<Packet>, lo: int, hi: int) -> int
    decreases hi - lo,
{
    if lo >= hi {
        0
    } else {
        (if padding_present_in(b, lo) {
            0int
        } else {
            1int
        }) + dropped_count_in(b, lo + 1, hi)
    }
}

/// How many sequence slots in `[lo, hi)` count as padding when given up.
pub open spec fn padding_count_in(b: Seq<Packet>, lo: int, hi: int) -> int
    decreases hi - lo,
{
    if lo >= hi {
        0
    } else {
        (if padding_present_in(b, lo) {
            1int
        } else {
            0int
        }) + padding_count_in(b, lo + 1, hi)
    }
}

/// Number of padding-only packets among the first `n` buffered packets.
pub open spec fn count_padding_to(b: Seq<Packet>, n: int) -> int
    decreases n,
{
    if n <= 0 {
        0
    } else {
        count_padding_to(b, n - 1) + (if b[n - 1].padding {
            1int
        } else {
            0int
        })
    }
}

/// Concatenation of the payloads of the first `n` buffered packets.
pub open spec fn concat_payloads_to(b: Seq<Packet>, n: int) -> Seq<u8>
    decreases n,
{
    if n <= 0 {
        Seq::<u8>::empty()
    } else {
        concat_payloads_to(b, n - 1) + b[n - 1].payload@
    }
}

/// Index of the first frame boundary at or after position `i`: for audio
/// every packet is a boundary; for video the boundary is the marker bit.
pub open spec fn first_tail_from(b: Seq<Packet>, audio: bool, i: int) -> Option<int>
    decreases b.len() - i,
{
    if i < 0 || i >= b.len() {
        None
    } else if audio || b[i].marker {
        Some(i)
    } else {
        first_tail_from(b, audio, i + 1)
    }
}

/// Total sequence slots accounted by the emission history: data packets
/// emitted plus losses and padding flushed into the emitted samples.
pub open spec fn accounted(h: Seq<SampleRecord>) -> int
    decreases h.len(),
{
    if h.len() == 0 {
        0
    } else {
        accounted(h.drop_last()) + h.last().n_data + h.last().flushed_dropped
            + h.last().flushed_padding
    }
}

/// Saturation of a loss counter into the sample's 16-bit field.
pub open spec fn sat16(x: int) -> int {
    if x > 0xFFFF {
        0xFFFF
    } else {
        x
    }
}

impl ReconState {
    /// Well-formedness: buffer sorted and inside the window, the history
    /// time-ordered and disjoint, and every sequence slot below the emission
    /// floor accounted exactly once (emitted, dropped or padding).
    pub open spec fn wf(&self) -> bool {
        &&& self.max_late >= 0
        &&& seqs_sorted(self.buf)
        &&& forall|i: int|
            0 <= i < self.buf.len() ==> self.next_seq <= (
            #[trigger] self.buf[i]).sequence_number <= self.newest
        &&& forall|i: int| 0 <= i < self.hist.len() ==> (#[trigger] self.hist[i]).wf()
        &&& forall|i: int, j: int|
            0 <= i < j < self.hist.len() ==> (#[trigger] self.hist[i]).end < (
            #[trigger] self.hist[j]).start && self.hist[i].ts <= self.hist[j].ts
        &&& (self.hist.len() > 0 <==> self.have_last_ts)
        &&& (self.hist.len() > 0 ==> self.hist.last().ts == self.last_ts)
        &&& 0 <= self.last_ts <= u32::MAX
        &&& forall|i: int|
            0 <= i < self.hist.len() ==> self.start_seq <= (#[trigger] self.hist[i]).start
                && self.hist[i].end < self.next_seq
        &&& forall|i: int| 0 <= i < self.hist.len() ==> 0 <= (#[trigger] self.hist[i]).ts <= u32::MAX
        &&& self.pending_dropped >= 0
        &&& self.pending_padding >= 0
        &&& (self.started ==> {
            &&& 0 <= self.start_seq <= self.next_seq
            &&& self.next_seq <= self.newest + 1
            &&& self.newest <= self.next_seq + self.max_late
            &&& self.newest < u64::MAX
            &&& accounted(self.hist) + self.pending_dropped + self.pending_padding == self.next_seq
                - self.start_seq
        })
        &&& (!self.started ==> {
            &&& self.buf.len() == 0
            &&& self.pending_dropped == 0
            &&& self.pending_padding == 0
            &&& self.hist.len() == 0
        })
    }
}

/// One step of emission at tail index `i`: either the completed span is
/// turned into a sample, or (when it holds no data packet, or its timestamp
/// would run behind an already-emitted sample) it is given up and counted.
pub open spec fn spec_consume(s: ReconState, i: int) -> (ReconState, Option<SampleModel>) {
    let span = s.buf.take(i + 1);
    let tail_seq = s.buf[i].sequence_number as int;
    let ts = s.buf[0].timestamp as int;
    let n_pad = count_padding_to(span, i + 1);
    let n_data = (i + 1) - n_pad;
    let holes = (tail_seq + 1 - s.next_seq) - (i + 1);
    let rest = s.buf.skip(i + 1);
    if n_data == 0 || (s.have_last_ts && ts < s.last_ts) {
        (
            ReconState {
                buf: rest,
                next_seq: tail_seq + 1,
                pending_dropped: s.pending_dropped + holes + n_data,
                pending_padding: s.pending_padding + n_pad,
                ..s
            },
            None,
        )
    } else {
        let duration = if rest.len() > 0 && rest[0].timestamp > ts && s.clock_rate > 0 {
            ((rest[0].timestamp - ts) * 1_000_000) / s.clock_rate
        } else {
            0
        };
        let sample = SampleModel {
            data: concat_payloads_to(span, i + 1),
            timestamp: 0,
            duration,
            packet_timestamp: ts,
            prev_dropped_packets: sat16(s.pending_dropped + holes),
            prev_padding_packets: sat16(s.pending_padding + n_pad),
        };
        let record = SampleRecord {
            start: s.next_seq,
            end: tail_seq,
            ts,
            n_data,
            flushed_dropped: s.pending_dropped + holes,
            flushed_padding: s.pending_padding + n_pad,
        };
        (
            ReconState {
                buf: rest,
                next_seq: tail_seq + 1,
                pending_dropped: 0,
                pending_padding: 0,
                have_last_ts: true,
                last_ts: ts,
                hist: s.hist.push(record),
                ..s
            },
            Some(sample),
        )
    }
}

/// Whether a completed frame sits at the emission floor.
pub open spec fn pop_ready(s: ReconState) -> bool {
    &&& s.started
    &&& s.buf.len() > 0
    &&& s.buf[0].sequence_number == s.next_seq
    &&& first_tail_from(s.buf, s.audio, 0) is Some
}

/// The full behaviour of one `pop` call: give up spans that cannot be
/// emitted until a sample is produced or nothing at the floor is complete.
pub open spec fn spec_pop(s: ReconState) -> (ReconState, Option<SampleModel>)
    decreases s.buf.len(),
{
    if pop_ready(s) {
        let i = first_tail_from(s.buf, s.audio, 0)->0;
        if 0 <= i < s.buf.len() {
            let step = spec_consume(s, i);
            if step.1 is Some {
                step
            } else {
                spec_pop(step.0)
            }
        } else {
            (s, None)
        }
    } else {
        (s, None)
    }
}

/// What `push` does to the state when the packet is new and not late: the
/// newest mark advances, the window floor follows it, the slots the floor
/// passed over are counted, and the packet now sits in the buffer under its
/// sequence number with everything else unchanged.
pub open spec fn push_admitted(s0: ReconState, s1: ReconState, p: Packet) -> bool {
    let s = p.sequence_number as int;
    let newest1 = if s > s0.newest {
        s
    } else {
        s0.newest
    };
    let floor1 = if newest1 - s0.next_seq > s0.max_late {
        newest1 - s0.max_late
    } else {
        s0.next_seq
    };
    &&& s1.newest == newest1
    &&& s1.next_seq == floor1
    &&& s1.pending_dropped == s0.pending_dropped + dropped_count_in(s0.buf, s0.next_seq, floor1)
    &&& s1.pending_padding == s0.pending_padding + padding_count_in(s0.buf, s0.next_seq, floor1)
    &&& forall|q: int|
        floor1 <= q ==> (#[trigger] present_in(s1.buf, q) <==> (q == s || present_in(s0.buf, q)))
    &&& forall|q: int|
        floor1 <= q && q != s && present_in(s0.buf, q) ==> #[trigger] packet_at(s1.buf, q)
            == packet_at(s0.buf, q)
    &&& floor1 <= s && present_in(s1.buf, s) && packet_at(s1.buf, s) == p
    &&& s1.hist == s0.hist
    &&& s1.start_seq == s0.start_seq
    &&& s1.started
    &&& s1.have_last_ts == s0.have_last_ts
    &&& s1.last_ts == s0.last_ts
    &&& s1.max_late == s0.max_late
    &&& s1.audio == s0.audio
    &&& s1.clock_rate == s0.clock_rate
}

/// The full packet-acceptance relation of `push`: the first packet starts
/// the stream; a duplicate or a packet below the emission floor (more than
/// the lateness window late) leaves the state untouched; any other packet
/// is admitted.
pub open spec fn push_transition(s0: ReconState, s1: ReconState, p: Packet) -> bool {
    if !s0.started {
        s1 == (ReconState {
            started: true,
            next_seq: p.sequence_number as int,
            newest: p.sequence_number as int,
            start_seq: p.sequence_number as int,
            buf: seq![p],
            ..s0
        })
    } else if p.sequence_number < s0.next_seq || present_in(s0.buf, p.sequence_number as int) {
        s1 == s0
    } else {
        push_admitted(s0, s1, p)
    }
}

/// Law: a packet more than the lateness window late never reaches the
/// pipeline. Whatever `push` was called on, if the packet's sequence slot
/// lies below the emission floor, the state after the call is identical to
/// the state before it — the payload enters no buffer and can appear in no
/// sample; its slot was already accounted when the floor passed it
/// (`lemma_slots_accounted`).
pub proof fn lemma_late_packet_ignored(s0: ReconState, s1: ReconState, p: Packet)
    requires
        push_transition(s0, s1, p),
        s0.started,
        p.sequence_number < s0.next_seq,
    ensures
        s1 == s0,
{
}

proof fn lemma_sorted_gap(b: Seq<Packet>, i: int)
    requires
        seqs_sorted(b),
        0 <= i < b.len(),
    ensures
        b[i].sequence_number >= b[0].sequence_number + i,
    decreases i,
{
    if i > 0 {
        lemma_sorted_gap(b, i - 1);
    }
}

proof fn lemma_count_snoc(b: Seq<Packet>, lo: int, hi: int)
    requires
        lo <= hi,
    ensures
        dropped_count_in(b, lo, hi + 1) == dropped_count_in(b, lo, hi) + (if padding_present_in(
            b,
            hi,
        ) {
            0int
        } else {
            1int
        }),
        padding_count_in(b, lo, hi + 1) == padding_count_in(b, lo, hi) + (if padding_present_in(
            b,
            hi,
        ) {
            1int
        } else {
            0int
        }),
    decreases hi - lo,
{
    if lo < hi {
        lemma_count_snoc(b, lo + 1, hi);
    } else {
        assert(dropped_count_in(b, hi + 1, hi + 1) == 0);
        assert(padding_count_in(b, hi + 1, hi + 1) == 0);
    }
}

proof fn lemma_counts_total(b: Seq<Packet>, lo: int, hi: int)
    requires
        lo <= hi,
    ensures
        dropped_count_in(b, lo, hi) >= 0,
        padding_count_in(b, lo, hi) >= 0,
        dropped_count_in(b, lo, hi) + padding_count_in(b, lo, hi) == hi - lo,
    decreases hi - lo,
{
    if lo < hi {
        lemma_counts_total(b, lo + 1, hi);
    }
}

proof fn lemma_accounted_nonneg(h: Seq<SampleRecord>)
    requires
        forall|i: int| 0 <= i < h.len() ==> (#[trigger] h[i]).wf(),
    ensures
        accounted(h) >= 0,
    decreases h.len(),
{
    if h.len() > 0 {
        assert(forall|i: int|
            0 <= i < h.drop_last().len() ==> (#[trigger] h.drop_last()[i]).wf());
        lemma_accounted_nonneg(h.drop_last());
        assert(h.last().wf());
    }
}

proof fn lemma_accounted_push(h: Seq<SampleRecord>, r: SampleRecord)
    ensures
        accounted(h.push(r)) == accounted(h) + r.n_data + r.flushed_dropped + r.flushed_padding,
{
    assert(h.push(r).drop_last() =~= h);
    assert(h.push(r).last() == r);
}

proof fn lemma_insert_sorted(b: Seq<Packet>, k: int, p: Packet)
    requires
        seqs_sorted(b),
        0 <= k <= b.len(),
        forall|t: int| 0 <= t < k ==> (#[trigger] b[t]).sequence_number < p.sequence_number,
        forall|t: int| k <= t < b.len() ==> (#[trigger] b[t]).sequence_number > p.sequence_number,
    ensures
        seqs_sorted(b.insert(k, p)),
{
    let c = b.insert(k, p);
    assert forall|i: int, j: int| 0 <= i < j < c.len() implies (#[trigger] c[i]).sequence_number < (
    #[trigger] c[j]).sequence_number by {
        assert(c[i] == if i < k {
            b[i]
        } else if i == k {
            p
        } else {
            b[i - 1]
        });
        assert(c[j] == if j < k {
            b[j]
        } else if j == k {
            p
        } else {
            b[j - 1]
        });
    }
}

proof fn lemma_insert_presence(b: Seq<Packet>, k: int, p: Packet)
    requires
        0 <= k <= b.len(),
        !present_in(b, p.sequence_number as int),
    ensures
        forall|q: int| #[trigger]
            present_in(b.insert(k, p), q) <==> (q == p.sequence_number as int || present_in(b, q)),
        forall|q: int| #[trigger]
            padding_present_in(b.insert(k, p), q) <==> ((q == p.sequence_number as int
                && p.padding) || padding_present_in(b, q)),
{
    let c = b.insert(k, p);
    assert(c[k] == p);
    assert forall|i: int| 0 <= i < b.len() implies (#[trigger] b[i]) == c[if i < k {
        i
    } else {
        i + 1
    }] by {}
    assert forall|i: int| 0 <= i < c.len() && i != k implies (#[trigger] c[i]) == b[if i < k {
        i
    } else {
        i - 1
    }] by {}
    assert forall|q: int| #[trigger] present_in(c, q) implies (q == p.sequence_number as int
        || present_in(b, q)) by {
        let i = choose|i: int| 0 <= i < c.len() && (#[trigger] c[i]).sequence_number == q;
        if i != k {
            let t = if i < k {
                i
            } else {
                i - 1
            };
            assert(b[t].sequence_number == q);
        }
    }
    assert forall|q: int| q == p.sequence_number as int || present_in(b, q) implies #[trigger]
    present_in(c, q) by {
        if present_in(b, q) {
            let i = choose|i: int| 0 <= i < b.len() && (#[trigger] b[i]).sequence_number == q;
            let t = if i < k {
                i
            } else {
                i + 1
            };
            assert(c[t].sequence_number == q);
        } else {
            assert(c[k].sequence_number == q);
        }
    }
    assert forall|q: int| #[trigger] padding_present_in(c, q) implies ((q == p.sequence_number as int
        && p.padding) || padding_present_in(b, q)) by {
        let i = choose|i: int|
            0 <= i < c.len() && (#[trigger] c[i]).sequence_number == q && c[i].padding;
        if i != k {
            let t = if i < k {
                i
            } else {
                i - 1
            };
            assert(b[t].sequence_number == q && b[t].padding);
        }
    }
    assert forall|q: int| ((q == p.sequence_number as int && p.padding) || padding_present_in(
        b,
        q,
    )) implies #[trigger] padding_present_in(c, q) by {
        if padding_present_in(b, q) {
            let i = choose|i: int|
                0 <= i < b.len() && (#[trigger] b[i]).sequence_number == q && b[i].padding;
            let t = if i < k {
                i
            } else {
                i + 1
            };
            assert(c[t].sequence_number == q && c[t].padding);
        } else {
            assert(c[k].sequence_number == q && c[k].padding);
        }
    }
}

proof fn lemma_prefix_counts(b: Seq<Packet>, m: int, n: int)
    requires
        0 <= n <= m <= b.len(),
    ensures
        count_padding_to(b.take(m), n) == count_padding_to(b, n),
        concat_payloads_to(b.take(m), n) == concat_payloads_to(b, n),
    decreases n,
{
    if n > 0 {
        lemma_prefix_counts(b, m, n - 1);
        assert(b.take(m)[n - 1] == b[n - 1]);
    }
}

proof fn lemma_packet_at(b: Seq<Packet>, i: int)
    requires
        seqs_sorted(b),
        0 <= i < b.len(),
    ensures
        present_in(b, b[i].sequence_number as int),
        packet_at(b, b[i].sequence_number as int) == b[i],
{
    let s = b[i].sequence_number as int;
    assert(present_in(b, s));
    let j = choose|j: int| 0 <= j < b.len() && (#[trigger] b[j]).sequence_number == s;
    if j < i {
        assert(b[j].sequence_number < b[i].sequence_number);
    } else if j > i {
        assert(b[i].sequence_number < b[j].sequence_number);
    }
}

proof fn lemma_skip_presence(b: Seq<Packet>, j: int, floor: int)
    requires
        seqs_sorted(b),
        0 <= j <= b.len(),
        forall|t: int| 0 <= t < j ==> (#[trigger] b[t]).sequence_number < floor,
    ensures
        forall|q: int|
            floor <= q ==> (#[trigger] present_in(b.skip(j), q) <==> present_in(b, q)),
        forall|q: int|
            floor <= q && present_in(b, q) ==> #[trigger] packet_at(b.skip(j), q) == packet_at(
                b,
                q,
            ),
        seqs_sorted(b.skip(j)),
{
    let c = b.skip(j);
    assert(forall|t: int| 0 <= t < c.len() ==> (#[trigger] c[t]) == b[t + j]);
    assert forall|i: int, t: int| 0 <= i < t < c.len() implies (#[trigger] c[i]).sequence_number < (
    #[trigger] c[t]).sequence_number by {
        assert(c[i] == b[i + j] && c[t] == b[t + j]);
    }
    assert forall|q: int| floor <= q && #[trigger] present_in(b, q) implies present_in(c, q)
        && packet_at(c, q) == packet_at(b, q) by {
        let i = choose|i: int| 0 <= i < b.len() && (#[trigger] b[i]).sequence_number == q;
        assert(i >= j);
        assert(c[i - j].sequence_number == q);
        lemma_packet_at(b, i);
        lemma_packet_at(c, i - j);
    }
    assert forall|q: int| floor <= q && #[trigger] present_in(c, q) implies present_in(b, q) by {
        let i = choose|i: int| 0 <= i < c.len() && (#[trigger] c[i]).sequence_number == q;
        assert(b[i + j].sequence_number == q);
    }
}

/// Law: emission is time-ordered and non-overlapping. In the emission
/// history of any well-formed reconstructor — whatever packets were pushed,
/// in whatever order — timestamps are non-decreasing and each emitted
/// sample's sequence span ends strictly before the next one's begins, so no
/// packet contributes to two samples.
pub proof fn lemma_emission_ordered(st: ReconState)
    requires
        st.wf(),
    ensures
        forall|i: int, j: int|
            0 <= i < j < st.hist.len() ==> (#[trigger] st.hist[i]).ts <= (
            #[trigger] st.hist[j]).ts && st.hist[i].end < st.hist[j].start,
{
}

/// Law: every sequence slot the emission floor has passed is accounted
/// exactly once — emitted as sample data, or counted as dropped or padding,
/// either flushed into an emitted sample's counters or still pending for
/// the next one. The equation is part of `wf`, which `new` establishes and
/// every `push` and `pop` re-establishes, so it holds after any sequence
/// of calls, whatever packets arrived in whatever order. A packet arriving
/// for a slot below the floor (more than the lateness window late) is
/// discarded without touching the state (`lemma_late_packet_ignored`), its
/// slot having already been counted here.
pub proof fn lemma_slots_accounted(st: ReconState)
    requires
        st.wf(),
        st.started,
    ensures
        accounted(st.hist) + st.pending_dropped + st.pending_padding == st.next_seq - st.start_seq,
{
}

/// A pop that yields a sample has consumed at least one buffered packet;
/// and once a pop has reported nothing ready, the state is at rest:
/// popping again changes nothing and yields nothing.
pub proof fn lemma_spec_pop_none_stable(st: ReconState)
    ensures
        spec_pop(st).0.buf.len() <= st.buf.len(),
        spec_pop(st).1 is Some ==> spec_pop(st).0.buf.len() < st.buf.len(),
        spec_pop(st).1 is None ==> spec_pop(spec_pop(st).0) == (spec_pop(st).0, Option::<
            SampleModel,
        >::None),
    decreases st.buf.len(),
{
    if pop_ready(st) {
        let i = first_tail_from(st.buf, st.audio, 0)->0;
        if 0 <= i < st.buf.len() {
            let step = spec_consume(st, i);
            if !(step.1 is Some) {
                lemma_spec_pop_none_stable(step.0);
            }
        }
    }
}

/// `pop` never changes the reconstructor's configuration or loses its
/// stream position: codec rule, window, clock and stream identity carry
/// through.
pub proof fn lemma_spec_pop_frame(st: ReconState)
    ensures
        spec_pop(st).0.audio == st.audio,
        spec_pop(st).0.max_late == st.max_late,
        spec_pop(st).0.clock_rate == st.clock_rate,
        spec_pop(st).0.started == st.started,
        spec_pop(st).0.newest == st.newest,
        spec_pop(st).0.start_seq == st.start_seq,
    decreases st.buf.len(),
{
    if pop_ready(st) {
        let i = first_tail_from(st.buf, st.audio, 0)->0;
        if 0 <= i < st.buf.len() {
            let step = spec_consume(st, i);
            if !(step.1 is Some) {
                lemma_spec_pop_frame(step.0);
            }
        }
    }
}

/// What emitting does to the stream clock: a pop that yields a sample
/// leaves `last_ts` at that sample's timestamp, and never runs it
/// backwards; a pop that yields nothing leaves the clock alone.
pub proof fn lemma_spec_pop_emission(st: ReconState)
    ensures
        spec_pop(st).1 is None ==> (spec_pop(st).0.have_last_ts == st.have_last_ts && spec_pop(
            st,
        ).0.last_ts == st.last_ts),
        spec_pop(st).1 matches Some(m) ==> (spec_pop(st).0.have_last_ts && spec_pop(st).0.last_ts
            == m.packet_timestamp && (st.have_last_ts ==> st.last_ts <= m.packet_timestamp)),
    decreases st.buf.len(),
{
    if pop_ready(st) {
        let i = first_tail_from(st.buf, st.audio, 0)->0;
        if 0 <= i < st.buf.len() {
            let step = spec_consume(st, i);
            if !(step.1 is Some) {
                lemma_spec_pop_emission(step.0);
            }
        }
    }
}

/// Every sample that is ready: `pop` iterated until it reports nothing.
pub open spec fn spec_drain(st: ReconState) -> (ReconState, Seq<SampleModel>)
    decreases st.buf.len(),
        via spec_drain_decreases
{
    let step = spec_pop(st);
    match step.1 {
        Option::None => (step.0, Seq::empty()),
        Option::Some(m) => {
            let rest = spec_drain(step.0);
            (rest.0, seq![m] + rest.1)
        },
    }
}

#[via_fn]
proof fn spec_drain_decreases(st: ReconState) {
    lemma_spec_pop_none_stable(st);
}

/// Per-track, per-codec jitter buffer reconstructing ordered, complete
/// samples from out-of-order, lossy packets.
///
/// `max_late` is the lateness window in sequence-number units: a packet more
/// than `max_late` behind the newest received packet is considered lost.
///
/// Fields are public so specifications can speak about them; build one with
/// `new` and feed it only through `push` and `pop`, which keep `wf`.
pub struct SampleReconstructor {
    pub max_late: u16,
    pub audio: bool,
    pub clock_rate: u32,
    pub buf: Vec<Packet>,
    pub started: bool,
    pub next_seq: u64,
    pub newest: u64,
    pub have_last_ts: bool,
    pub last_ts: u32,
    pub pending_dropped: u64,
    pub pending_padding: u64,
    pub start_seq: Ghost<u64>,
    pub hist: Ghost<Seq<SampleRecord>>,
}

impl View for SampleReconstructor {
    type V = ReconState;

    open spec fn view(&self) -> ReconState {
        ReconState {
            max_late: self.max_late as int,
            audio: self.audio,
            clock_rate: self.clock_rate as int,
            buf: self.buf@,
            started: self.started,
            next_seq: self.next_seq as int,
            newest: self.newest as int,
            have_last_ts: self.have_last_ts,
            last_ts: self.last_ts as int,
            pending_dropped: self.pending_dropped as int,
            pending_padding: self.pending_padding as int,
            start_seq: self.start_seq@ as int,
            hist: self.hist@,
        }
    }
}

impl SampleReconstructor {
    pub open spec fn wf(&self) -> bool {
        self@.wf()
    }

    /// A fresh reconstructor for one codec: `audio` selects the framing
    /// rule, `max_late` the lateness window, `clock_rate` the RTP clock used
    /// to scale durations.
    pub fn new(max_late: u16, audio: bool, clock_rate: u32) -> (r: Self)
        ensures
            r.wf(),
            !r@.started,
            r@.max_late == max_late as int,
            r@.audio == audio,
            r@.clock_rate == clock_rate as int,
            r@.hist.len() == 0,
            r@.buf.len() == 0,
    {
        SampleReconstructor {
            max_late,
            audio,
            clock_rate,
            buf: Vec::new(),
            started: false,
            next_seq: 0,
            newest: 0,
            have_last_ts: false,
            last_ts: 0,
            pending_dropped: 0,
            pending_padding: 0,
            start_seq: Ghost(0),
            hist: Ghost(Seq::empty()),
        }
    }

    /// Accepts one arriving packet.
    ///
    /// A duplicate, or a packet more than the lateness window late (its
    /// sequence slot already below the emission floor), is discarded and the
    /// state is untouched: its slot was accounted when the floor passed it.
    /// Any other packet enters the buffer under its sequence number; if it
    /// advances the newest mark beyond the window, the floor slides after
    /// it, counting every slot it passes as dropped (or padding, when a
    /// padding-only packet held the slot).
    pub fn push(&mut self, p: Packet)
        requires
            old(self).wf(),
            p.sequence_number < u64::MAX,
        ensures
            final(self).wf(),
            push_transition(old(self)@, final(self)@, p),
    {
        let s = p.sequence_number;
        if !self.started {
            self.started = true;
            self.next_seq = s;
            self.newest = s;
            self.start_seq = Ghost(s);
            self.buf.push(p);
            proof {
                assert(self.buf@ =~= seq![p]);
                assert(self@ =~= (ReconState {
                    started: true,
                    next_seq: s as int,
                    newest: s as int,
                    start_seq: s as int,
                    buf: seq![p],
                    ..old(self)@
                }));
            }
            return ;
        }
        if s < self.next_seq {
            return ;
        }
        let ghost s0v: ReconState = self@;

        // Insertion position: the buffer stays sorted and keyed by sequence
        // number, so an equal key means a duplicate to discard.
        let mut k: usize = 0;
        while k < self.buf.len() && self.buf[k].sequence_number < s
            invariant
                k <= self.buf@.len(),
                self@ == s0v,
                forall|t: int| 0 <= t < k ==> (#[trigger] self.buf@[t]).sequence_number < s,
            decreases self.buf@.len() - k,
        {
            k += 1;
        }
        if k < self.buf.len() && self.buf[k].sequence_number == s {
            proof {
                lemma_packet_at(s0v.buf, k as int);
            }
            return ;
        }
        proof {
            assert forall|t: int| k <= t < s0v.buf.len() implies (#[trigger] s0v.buf[t]).sequence_number
                > s by {
                if t > k {
                    assert(s0v.buf[k as int].sequence_number < s0v.buf[t].sequence_number);
                }
            }
            assert(!present_in(s0v.buf, s as int)) by {
                if present_in(s0v.buf, s as int) {
                    let i = choose|i: int|
                        0 <= i < s0v.buf.len() && (#[trigger] s0v.buf[i]).sequence_number == s;
                }
            }
            lemma_insert_sorted(s0v.buf, k as int, p);
            lemma_insert_presence(s0v.buf, k as int, p);
        }
        self.buf.insert(k, p);
        if s > self.newest {
            self.newest = s;
        }
        let ghost iv: Seq<Packet> = self.buf@;
        let ghost newest1: int = self.newest as int;
        let ghost floor1: int = if newest1 - s0v.next_seq > s0v.max_late {
            newest1 - s0v.max_late
        } else {
            s0v.next_seq
        };
        proof {
            assert(iv == s0v.buf.insert(k as int, p));
            lemma_accounted_nonneg(s0v.hist);
            assert(floor1 <= s as int);
        }
        let ghost mut removed: int = 0;

        // Slide the emission floor until the newest packet is back inside
        // the lateness window, accounting every slot the floor passes.
        while self.newest >= self.next_seq && self.newest - self.next_seq > self.max_late as u64
            invariant
                p.sequence_number == s,
                s < u64::MAX,
                self.max_late as int == s0v.max_late,
                self.audio == s0v.audio,
                self.clock_rate as int == s0v.clock_rate,
                self.started,
                self.have_last_ts == s0v.have_last_ts,
                self.last_ts as int == s0v.last_ts,
                self.hist@ == s0v.hist,
                self.start_seq@ as int == s0v.start_seq,
                self.newest as int == newest1,
                s0v.next_seq <= self.next_seq as int <= floor1,
                floor1 <= s as int,
                floor1 <= newest1 <= u64::MAX - 1,
                newest1 <= floor1 + s0v.max_late,
                0 <= removed <= iv.len(),
                self.buf@ == iv.skip(removed),
                forall|t: int| 0 <= t < removed ==> (#[trigger] iv[t]).sequence_number < self.next_seq,
                forall|t: int|
                    0 <= t < self.buf@.len() ==> self.next_seq <= (
                    #[trigger] self.buf@[t]).sequence_number <= newest1,
                seqs_sorted(iv),
                self.pending_dropped as int == s0v.pending_dropped + dropped_count_in(
                    s0v.buf,
                    s0v.next_seq,
                    self.next_seq as int,
                ),
                self.pending_padding as int == s0v.pending_padding + padding_count_in(
                    s0v.buf,
                    s0v.next_seq,
                    self.next_seq as int,
                ),
                accounted(s0v.hist) >= 0,
                accounted(s0v.hist) + self.pending_dropped + self.pending_padding
                    == self.next_seq as int - s0v.start_seq,
                0 <= s0v.start_seq <= self.next_seq,
                forall|q: int| #[trigger]
                    present_in(iv, q) <==> (q == s as int || present_in(s0v.buf, q)),
                forall|q: int| #[trigger]
                    padding_present_in(iv, q) <==> ((q == s as int && p.padding)
                        || padding_present_in(s0v.buf, q)),
            decreases self.newest - self.next_seq,
        {
            let ghost f: int = self.next_seq as int;
            proof {
                assert(f < floor1);
            }
            if self.buf.len() > 0 && self.buf[0].sequence_number == self.next_seq {
                let q = self.buf.remove(0);
                if q.padding {
                    self.pending_padding = self.pending_padding + 1;
                } else {
                    self.pending_dropped = self.pending_dropped + 1;
                }
                proof {
                    assert(iv[removed] == q) by {
                        assert(iv.skip(removed)[0] == iv[removed]);
                    }
                    assert(self.buf@ =~= iv.skip(removed + 1)) by {
                        assert(forall|t: int|
                            0 <= t < self.buf@.len() ==> self.buf@[t] == iv.skip(removed)[t + 1]);
                    }
                    removed = removed + 1;
                    // The removed packet is the unique holder of slot f.
                    assert(padding_present_in(iv, f) <==> q.padding) by {
                        if padding_present_in(iv, f) {
                            let t = choose|t: int|
                                0 <= t < iv.len() && (#[trigger] iv[t]).sequence_number == f
                                    && iv[t].padding;
                            if t < removed - 1 {
                                assert(iv[t].sequence_number < f);
                            } else if t > removed - 1 {
                                assert(iv[removed - 1].sequence_number < iv[t].sequence_number);
                            }
                        } else {
                            if q.padding {
                                assert(iv[removed - 1].sequence_number == f && iv[removed
                                    - 1].padding);
                            }
                        }
                    }
                }
            } else {
                self.pending_dropped = self.pending_dropped + 1;
                proof {
                    assert(!padding_present_in(iv, f)) by {
                        if padding_present_in(iv, f) {
                            let t = choose|t: int|
                                0 <= t < iv.len() && (#[trigger] iv[t]).sequence_number == f
                                    && iv[t].padding;
                            assert(t >= removed);
                            assert(iv.skip(removed)[t - removed].sequence_number == f);
                            if t > removed {
                                assert(iv.skip(removed)[0].sequence_number < f);
                            }
                        }
                    }
                }
            }
            self.next_seq = self.next_seq + 1;
            proof {
                assert(padding_present_in(iv, f) <==> padding_present_in(s0v.buf, f));
                lemma_count_snoc(s0v.buf, s0v.next_seq, f);
            }
        }
        proof {
            assert(self.next_seq as int == floor1);
            lemma_skip_presence(iv, removed, floor1);
            assert(iv[k as int] == p);
            lemma_packet_at(iv, k as int);
            assert(present_in(self.buf@, s as int));
            assert(packet_at(self.buf@, s as int) == p);
            assert forall|q: int|
                floor1 <= q && q != s as int && present_in(s0v.buf, q) implies #[trigger] packet_at(
                self.buf@,
                q,
            ) == packet_at(s0v.buf, q) by {
                let i = choose|i: int|
                    0 <= i < s0v.buf.len() && (#[trigger] s0v.buf[i]).sequence_number == q;
                lemma_packet_at(s0v.buf, i);
                let t = if i < k {
                    i
                } else {
                    i + 1
                };
                assert(iv[t] == s0v.buf[i]);
                lemma_packet_at(iv, t);
            }
            assert(push_admitted(s0v, self@, p));
            lemma_counts_total(s0v.buf, s0v.next_seq, floor1);
        }
    }

    /// Pops the next completed sample, if any.
    ///
    /// Spans at the emission floor that cannot become a sample — all
    /// padding, or timestamped behind an already-emitted sample — are given
    /// up and counted, so a single call may consume several spans before
    /// emitting. Returns `None` when nothing at the floor is complete.
    #[verifier::rlimit(100)]
    pub fn pop(&mut self) -> (r: Option<MediaSample>)
        requires
            old(self).wf(),
        ensures
            final(self).wf(),
            final(self)@ == spec_pop(old(self)@).0,
            r matches Some(x) ==> spec_pop(old(self)@).1 == Some(x@),
            r is None ==> spec_pop(old(self)@).1 is None,
    {
        let ghost g0: ReconState = self@;
        loop
            invariant
                self.wf(),
                g0 == old(self)@,
                spec_pop(self@) == spec_pop(g0),
            decreases self.buf@.len(),
        {
            let ghost cur: ReconState = self@;
            if !self.started || self.buf.len() == 0 {
                proof {
                    assert(!pop_ready(cur));
                    assert(spec_pop(cur) == (cur, Option::<SampleModel>::None));
                }
                return None;
            }
            if self.buf[0].sequence_number != self.next_seq {
                proof {
                    assert(!pop_ready(cur));
                    assert(spec_pop(cur) == (cur, Option::<SampleModel>::None));
                }
                return None;
            }
            // Find the first frame boundary.
            let mut i: usize = 0;
            while i < self.buf.len() && !(self.audio || self.buf[i].marker)
                invariant
                    self@ == cur,
                    self.buf@.len() <= usize::MAX,
                    0 <= i <= self.buf@.len(),
                    first_tail_from(self.buf@, self.audio, 0) == first_tail_from(
                        self.buf@,
                        self.audio,
                        i as int,
                    ),
                decreases self.buf@.len() - i,
            {
                i += 1;
            }
            if i >= self.buf.len() {
                proof {
                    assert(first_tail_from(cur.buf, cur.audio, i as int) is None);
                    assert(!pop_ready(cur));
                    assert(spec_pop(cur) == (cur, Option::<SampleModel>::None));
                }
                return None;
            }
            proof {
                assert(first_tail_from(cur.buf, cur.audio, 0) == Some(i as int));
                assert(pop_ready(cur));
            }
            // Span statistics: padding packets, data packets, missing slots.
            let tail_seq = self.buf[i].sequence_number;
            let ts = self.buf[0].timestamp;
            let mut n_pad: u64 = 0;
            let mut j: usize = 0;
            while j <= i
                invariant
                    self@ == cur,
                    self.buf@.len() <= usize::MAX,
                    0 <= j <= i + 1,
                    i < self.buf@.len(),
                    n_pad as int == count_padding_to(self.buf@, j as int),
                    n_pad <= j,
                decreases i + 1 - j,
            {
                if self.buf[j].padding {
                    n_pad += 1;
                }
                j += 1;
            }
            let span_len: u64 = (i as u64) + 1;
            let n_data: u64 = span_len - n_pad;
            proof {
                lemma_sorted_gap(cur.buf, i as int);
                lemma_accounted_nonneg(cur.hist);
            }
            let holes: u64 = (tail_seq - self.next_seq + 1) - span_len;
            let ghost consumed = spec_consume(cur, i as int);
            proof {
                lemma_prefix_counts(cur.buf, i as int + 1, i as int + 1);
                lemma_skip_presence(cur.buf, i as int + 1, tail_seq as int + 1);
            }
            if n_data == 0 || (self.have_last_ts && ts < self.last_ts) {
                // Give the span up: count it and slide the floor past it.
                self.pending_dropped = self.pending_dropped + holes + n_data;
                self.pending_padding = self.pending_padding + n_pad;
                self.next_seq = tail_seq + 1;
                let rest = self.buf.split_off(i + 1);
                self.buf = rest;
                proof {
                    assert(self.buf@ =~= cur.buf.skip(i as int + 1));
                    assert(self@ =~= consumed.0);
                    assert(spec_pop(cur) == spec_pop(self@));
                    assert forall|t: int|
                        0 <= t < self.buf@.len() implies self.next_seq <= (
                    #[trigger] self.buf@[t]).sequence_number <= self.newest by {
                        assert(self.buf@[t] == cur.buf[t + i + 1]);
                        assert(cur.buf[i as int].sequence_number < cur.buf[t + i
                            + 1].sequence_number);
                    }
                    assert(self.wf());
                }
            } else {
                // Emit: concatenate the span's payloads into one sample.
                let mut data: Vec<u8> = Vec::new();
                let mut j2: usize = 0;
                while j2 <= i
                    invariant
                        self@ == cur,
                        self.buf@.len() <= usize::MAX,
                        0 <= j2 <= i + 1,
                        i < self.buf@.len(),
                        data@ == concat_payloads_to(self.buf@, j2 as int),
                    decreases i + 1 - j2,
                {
                    data.extend_from_slice(self.buf[j2].payload.as_slice());
                    j2 += 1;
                }
                let pd: u64 = self.pending_dropped + holes;
                let pp: u64 = self.pending_padding + n_pad;
                let sample = MediaSample {
                    data,
                    timestamp: 0,
                    duration: 0,
                    packet_timestamp: ts,
                    prev_dropped_packets: if pd > 0xFFFF {
                        0xFFFF
                    } else {
                        pd as u16
                    },
                    prev_padding_packets: if pp > 0xFFFF {
                        0xFFFF
                    } else {
                        pp as u16
                    },
                };
                let ghost record = SampleRecord {
                    start: cur.next_seq,
                    end: tail_seq as int,
                    ts: ts as int,
                    n_data: n_data as int,
                    flushed_dropped: pd as int,
                    flushed_padding: pp as int,
                };
                self.pending_dropped = 0;
                self.pending_padding = 0;
                self.next_seq = tail_seq + 1;
                self.have_last_ts = true;
                self.last_ts = ts;
                self.hist = Ghost(self.hist@.push(record));
                let rest = self.buf.split_off(i + 1);
                self.buf = rest;
                // Duration of the sample, when the following packet's
                // timestamp is already known.
                let mut sample = sample;
                if self.buf.len() > 0 && self.clock_rate > 0 {
                    let nts = self.buf[0].timestamp;
                    if nts > ts {
                        let delta: u64 = (nts - ts) as u64;
                        sample.duration = delta * 1_000_000u64 / (self.clock_rate as u64);
                    }
                }
                proof {
                    assert(self.buf@ =~= cur.buf.skip(i as int + 1));
                    lemma_accounted_push(cur.hist, record);
                    assert(self@ =~= consumed.0);
                    assert(consumed.1 matches Some(m) && m =~= sample@);
                    assert(spec_pop(g0) == consumed);
                    assert forall|t: int|
                        0 <= t < self.buf@.len() implies self.next_seq <= (
                    #[trigger] self.buf@[t]).sequence_number <= self.newest by {
                        assert(self.buf@[t] == cur.buf[t + i + 1]);
                        assert(cur.buf[i as int].sequence_number < cur.buf[t + i
                            + 1].sequence_number);
                    }
                    assert forall|a: int, b: int|
                        0 <= a < b < self.hist@.len() implies (#[trigger] self.hist@[a]).end < (
                    #[trigger] self.hist@[b]).start && self.hist@[a].ts <= self.hist@[b].ts by {
                        if b < self.hist@.len() - 1 {
                            assert(cur.hist[a].end < cur.hist[b].start && cur.hist[a].ts
                                <= cur.hist[b].ts);
                        } else {
                            assert(self.hist@[a] == cur.hist[a]);
                            if a < cur.hist.len() - 1 {
                                assert(cur.hist[a].ts <= cur.hist[cur.hist.len() - 1].ts);
                                assert(cur.hist[a].end < cur.hist[cur.hist.len() - 1].start);
                            }
                        }
                    }
                    assert(self.wf());
                }
                return Some(sample);
            }
        }
    }
}

} // verus!
