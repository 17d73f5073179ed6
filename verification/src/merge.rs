//! Speaker-attributed transcripts and the segment merge engine.
//!
//! `SpeakerTranscript::merge` fuses the two per-channel segment lists into a
//! single timeline: every mic-origin segment is forced to the `Local` label
//! and every system-origin segment to `Remote` (labels on the inputs are not
//! trusted), the lists are concatenated and stably sorted by start offset,
//! and then a single left-to-right pass sets each segment's overlap flag:
//! it is set exactly when the segment's speaker differs from its immediate
//! predecessor and its start precedes that predecessor's end. Overlap flags
//! on the inputs are not trusted either — after the merge, a flag comes
//! from this rule alone. Overlap with anything other than the immediate
//! predecessor is deliberately not detected.

use vstd::prelude::*;
use vstd::seq_lib::group_to_multiset_ensures;

verus! {

/// Which side of the conversation a segment is attributed to: the local
/// microphone or the remote (system/monitor) channel.
#[derive(Clone, Copy, Debug, PartialEq, Eq, Structural)]
pub enum Speaker {
    Local,
    Remote,
}

/// The label text of a speaker, as a sequence of characters.
pub open spec fn speaker_label(sp: Speaker) -> Seq<char> {
    if sp == Speaker::Local {
        "local"@
    } else {
        "remote"@
    }
}

impl Speaker {
    /// The closed label value used in exported transcripts.
    pub fn label(&self) -> (s: String)
        ensures
            s@ == speaker_label(*self),
    {
        match self {
            Speaker::Local => "local".to_owned(),
            Speaker::Remote => "remote".to_owned(),
        }
    }
}

/// One transcribed span of speech attributed to a speaker, with offsets in
/// milliseconds from the start of the recording.
#[derive(Debug)]
pub struct SpeakerSegment {
    pub speaker: Speaker,
    pub text: String,
    pub start_ms: u64,
    pub end_ms: u64,
    pub is_overlapping: bool,
}

/// The durable, versioned transcript artifact: one merged segment timeline
/// plus the resolved device name per role and whether both channels were
/// captured.
#[derive(Debug)]
pub struct SpeakerTranscript {
    pub version: u32,
    pub mic_device: String,
    pub system_device: String,
    pub has_dual_audio: bool,
    pub segments: Vec<SpeakerSegment>,
}

/// `s` with its speaker label replaced.
pub open spec fn with_speaker(s: SpeakerSegment, sp: Speaker) -> SpeakerSegment {
    SpeakerSegment { speaker: sp, ..s }
}

/// Every segment of `q` with its speaker label forced to `sp`.
pub open spec fn relabeled(q: Seq<SpeakerSegment>, sp: Speaker) -> Seq<SpeakerSegment> {
    q.map_values(|s: SpeakerSegment| with_speaker(s, sp))
}

/// `s` with its overlap flag cleared; what a segment looks like ignoring
/// overlap marking.
pub open spec fn without_flag(s: SpeakerSegment) -> SpeakerSegment {
    SpeakerSegment { is_overlapping: false, ..s }
}

/// Every segment of `q` with its overlap flag cleared.
pub open spec fn flags_cleared(q: Seq<SpeakerSegment>) -> Seq<SpeakerSegment> {
    q.map_values(|s: SpeakerSegment| without_flag(s))
}

/// Non-decreasing by start offset.
pub open spec fn sorted_by_start(q: Seq<SpeakerSegment>) -> bool {
    forall|i: int, j: int| 0 <= i <= j < q.len() ==> q[i].start_ms <= q[j].start_ms
}

/// Stable insertion into a sorted sequence: `x` is placed after every
/// element whose start offset is less than or equal to its own.
pub open spec fn insert_by_start(q: Seq<SpeakerSegment>, x: SpeakerSegment) -> Seq<SpeakerSegment>
    decreases q.len(),
{
    if q.len() == 0 {
        seq![x]
    } else if q.last().start_ms <= x.start_ms {
        q.push(x)
    } else {
        insert_by_start(q.drop_last(), x).push(q.last())
    }
}

/// Stable sort by start offset: elements with equal start offsets keep
/// their original relative order.
pub open spec fn sort_by_start(q: Seq<SpeakerSegment>) -> Seq<SpeakerSegment>
    decreases q.len(),
{
    if q.len() == 0 {
        Seq::empty()
    } else {
        insert_by_start(sort_by_start(q.drop_last()), q.last())
    }
}

/// The overlap rule: a segment overlaps its immediate predecessor when the
/// speakers differ and its start strictly precedes the predecessor's end.
pub open spec fn overlaps_predecessor(prev: SpeakerSegment, cur: SpeakerSegment) -> bool {
    prev.end_ms > cur.start_ms && prev.speaker != cur.speaker
}

/// One left-to-right pass over a sorted timeline, fixing every overlap
/// flag: a segment is flagged exactly when it overlaps its immediate
/// predecessor, whatever flag it carried before.
pub open spec fn marked_overlaps(q: Seq<SpeakerSegment>) -> Seq<SpeakerSegment> {
    Seq::new(
        q.len(),
        |i: int|
            SpeakerSegment {
                is_overlapping: i > 0 && overlaps_predecessor(q[i - 1], q[i]),
                ..q[i]
            },
    )
}

/// The merged timeline: relabel both origins, concatenate, stably sort by
/// start offset, and mark overlaps in one pass.
pub open spec fn merged(mic: Seq<SpeakerSegment>, sys: Seq<SpeakerSegment>) -> Seq<
    SpeakerSegment,
> {
    marked_overlaps(sort_by_start(relabeled(mic, Speaker::Local) + relabeled(sys, Speaker::Remote)))
}

/// Stable insertion keeps the sequence sorted, grows it by one, and draws
/// every element from the inputs.
proof fn lemma_insert_by_start_sorted(q: Seq<SpeakerSegment>, x: SpeakerSegment)
    requires
        sorted_by_start(q),
    ensures
        insert_by_start(q, x).len() == q.len() + 1,
        sorted_by_start(insert_by_start(q, x)),
        forall|i: int|
            0 <= i < insert_by_start(q, x).len()
                ==> (#[trigger] insert_by_start(q, x)[i] == x || q.contains(
                insert_by_start(q, x)[i],
            )),
    decreases q.len(),
{
    let r = insert_by_start(q, x);
    if q.len() == 0 {
    } else if q.last().start_ms <= x.start_ms {
        assert(r == q.push(x));
        assert forall|i: int| 0 <= i < r.len() implies (#[trigger] r[i] == x || q.contains(
            r[i],
        )) by {
            if i < q.len() {
                assert(q.contains(r[i]));
            }
        }
    } else {
        let qd = q.drop_last();
        assert(sorted_by_start(qd));
        lemma_insert_by_start_sorted(qd, x);
        let inner = insert_by_start(qd, x);
        assert(r == inner.push(q.last()));
        // every element of the result stays below the old last element
        assert forall|i: int| 0 <= i < inner.len() implies inner[i].start_ms
            <= q.last().start_ms by {
            assert(inner[i] == x || qd.contains(inner[i]));
            if qd.contains(inner[i]) {
                let j = choose|j: int| 0 <= j < qd.len() && qd[j] == inner[i];
                assert(q[j].start_ms <= q.last().start_ms);
            }
        }
        assert(sorted_by_start(r));
        assert forall|i: int| 0 <= i < r.len() implies (#[trigger] r[i] == x || q.contains(
            r[i],
        )) by {
            if i < inner.len() {
                if inner[i] != x {
                    let j = choose|j: int| 0 <= j < qd.len() && qd[j] == inner[i];
                    assert(q[j] == r[i]);
                }
            } else {
                assert(r[i] == q[q.len() - 1]);
            }
        }
    }
}

/// Stable insertion adds exactly the new element to the multiset of
/// segments (overlap flags aside).
proof fn lemma_insert_by_start_multiset(q: Seq<SpeakerSegment>, x: SpeakerSegment)
    ensures
        flags_cleared(insert_by_start(q, x)).to_multiset() == flags_cleared(
            q,
        ).to_multiset().insert(without_flag(x)),
    decreases q.len(),
{
    broadcast use group_to_multiset_ensures;

    let r = insert_by_start(q, x);
    if q.len() == 0 {
        assert(r =~= Seq::empty().push(x));
        assert(flags_cleared(r) =~= flags_cleared(Seq::empty()).push(without_flag(x)));
    } else if q.last().start_ms <= x.start_ms {
        assert(r == q.push(x));
        assert(flags_cleared(r) =~= flags_cleared(q).push(without_flag(x)));
    } else {
        let qd = q.drop_last();
        lemma_insert_by_start_multiset(qd, x);
        let inner = insert_by_start(qd, x);
        assert(r == inner.push(q.last()));
        assert(flags_cleared(r) =~= flags_cleared(inner).push(without_flag(q.last())));
        assert(flags_cleared(q) =~= flags_cleared(qd).push(without_flag(q.last())));
        assert(flags_cleared(q).to_multiset().insert(without_flag(x)) =~= flags_cleared(
            qd,
        ).to_multiset().insert(without_flag(q.last())).insert(without_flag(x)));
        assert(flags_cleared(r).to_multiset() =~= flags_cleared(qd).to_multiset().insert(
            without_flag(x),
        ).insert(without_flag(q.last())));
        assert(flags_cleared(qd).to_multiset().insert(without_flag(x)).insert(
            without_flag(q.last()),
        ) =~= flags_cleared(qd).to_multiset().insert(without_flag(q.last())).insert(
            without_flag(x),
        ));
    }
}

/// The stable sort keeps the length, sorts the sequence, and preserves the
/// multiset of segments (overlap flags aside).
proof fn lemma_sort_by_start_props(q: Seq<SpeakerSegment>)
    ensures
        sort_by_start(q).len() == q.len(),
        sorted_by_start(sort_by_start(q)),
        flags_cleared(sort_by_start(q)).to_multiset() == flags_cleared(q).to_multiset(),
    decreases q.len(),
{
    broadcast use group_to_multiset_ensures;

    if q.len() == 0 {
        assert(flags_cleared(sort_by_start(q)) =~= flags_cleared(q));
    } else {
        let qd = q.drop_last();
        lemma_sort_by_start_props(qd);
        lemma_insert_by_start_sorted(sort_by_start(qd), q.last());
        lemma_insert_by_start_multiset(sort_by_start(qd), q.last());
        assert(flags_cleared(q) =~= flags_cleared(qd).push(without_flag(q.last())));
    }
}

/// Where the scan in the executable sort stops is exactly where the stable
/// insertion places the element.
proof fn lemma_insert_at_position(q: Seq<SpeakerSegment>, x: SpeakerSegment, pos: int)
    requires
        sorted_by_start(q),
        0 <= pos <= q.len(),
        forall|j: int| 0 <= j < pos ==> q[j].start_ms <= x.start_ms,
        forall|j: int| pos <= j < q.len() ==> q[j].start_ms > x.start_ms,
    ensures
        insert_by_start(q, x) =~= q.insert(pos, x),
    decreases q.len(),
{
    if q.len() == 0 {
        assert(insert_by_start(q, x) =~= q.insert(0, x));
    } else if q.last().start_ms <= x.start_ms {
        assert(pos == q.len());
        assert(insert_by_start(q, x) =~= q.insert(pos, x));
    } else {
        assert(pos < q.len());
        let qd = q.drop_last();
        assert(sorted_by_start(qd));
        lemma_insert_at_position(qd, x, pos);
        lemma_insert_by_start_sorted(qd, x);
        assert(insert_by_start(q, x) =~= q.insert(pos, x));
    }
}

/// Whatever the two input lists hold, the merged timeline is sorted
/// non-decreasing by start offset and has one output segment per input
/// segment.
pub proof fn lemma_merged_sorted(mic: Seq<SpeakerSegment>, sys: Seq<SpeakerSegment>)
    ensures
        sorted_by_start(merged(mic, sys)),
        merged(mic, sys).len() == mic.len() + sys.len(),
{
    let q = relabeled(mic, Speaker::Local) + relabeled(sys, Speaker::Remote);
    lemma_sort_by_start_props(q);
    let s = sort_by_start(q);
    assert(forall|i: int| 0 <= i < s.len() ==> marked_overlaps(s)[i].start_ms == s[i].start_ms);
}

/// Ignoring order and overlap flags, the merged timeline holds exactly the
/// mic-origin segments relabeled `Local` and the system-origin segments
/// relabeled `Remote`, whatever labels the inputs carried.
pub proof fn lemma_merged_labels(mic: Seq<SpeakerSegment>, sys: Seq<SpeakerSegment>)
    ensures
        flags_cleared(merged(mic, sys)).to_multiset() == flags_cleared(
            relabeled(mic, Speaker::Local) + relabeled(sys, Speaker::Remote),
        ).to_multiset(),
        forall|i: int|
            0 <= i < mic.len() ==> #[trigger] relabeled(mic, Speaker::Local)[i] == with_speaker(
                mic[i],
                Speaker::Local,
            ),
        forall|i: int|
            0 <= i < sys.len() ==> #[trigger] relabeled(sys, Speaker::Remote)[i] == with_speaker(
                sys[i],
                Speaker::Remote,
            ),
{
    let q = relabeled(mic, Speaker::Local) + relabeled(sys, Speaker::Remote);
    lemma_sort_by_start_props(q);
    let s = sort_by_start(q);
    assert(flags_cleared(marked_overlaps(s)) =~= flags_cleared(s));
}

/// After the merge, a segment carries the overlap flag exactly when its
/// speaker differs from its immediate predecessor in the merged timeline
/// and its start precedes that predecessor's end — whatever overlap flags
/// the inputs carried. The first segment is never flagged.
pub proof fn lemma_merged_overlap_flags(mic: Seq<SpeakerSegment>, sys: Seq<SpeakerSegment>)
    ensures
        forall|i: int|
            0 <= i < merged(mic, sys).len() ==> #[trigger] merged(mic, sys)[i].is_overlapping == (
            i > 0 && merged(mic, sys)[i - 1].end_ms > merged(mic, sys)[i].start_ms && merged(
                mic,
                sys,
            )[i - 1].speaker != merged(mic, sys)[i].speaker),
{
    let s = sort_by_start(relabeled(mic, Speaker::Local) + relabeled(sys, Speaker::Remote));
    let m = marked_overlaps(s);
    assert forall|i: int|
        0 <= i < m.len() implies #[trigger] m[i].is_overlapping == (i > 0 && m[i - 1].end_ms
        > m[i].start_ms && m[i - 1].speaker != m[i].speaker) by {
        assert(m[i].start_ms == s[i].start_ms && m[i].speaker == s[i].speaker);
        if i > 0 {
            assert(m[i - 1].end_ms == s[i - 1].end_ms && m[i - 1].speaker == s[i - 1].speaker);
        }
    }
}

/// Turn one channel's transcription output into speaker segments for the
/// merge engine: each parsed line becomes a segment attributed to
/// `speaker`, offsets and text unchanged, overlap flag clear.
pub fn speaker_segments_from_transcript(transcript: &str, speaker: Speaker) -> (r: Vec<
    SpeakerSegment,
>)
    ensures
        r@.len() == crate::parse::parse_from(transcript@, 0).len(),
        forall|i: int|
            0 <= i < r@.len() ==> {
                let t = crate::parse::parse_from(transcript@, 0)[i];
                &&& #[trigger] r@[i].speaker == speaker
                &&& r@[i].text@ == t.2
                &&& r@[i].start_ms == t.0
                &&& r@[i].end_ms == t.1
                &&& !r@[i].is_overlapping
            },
{
    let ghost tuples = crate::parse::parse_from(transcript@, 0);
    proof {
        crate::parse::lemma_parse_from_bounds(transcript@, 0);
    }
    let mut parsed = crate::parse::parse_transcript_to_segments(transcript);
    let ghost parsed0 = parsed@;
    let mut r: Vec<SpeakerSegment> = Vec::new();
    while parsed.len() > 0
        invariant
            crate::parse::seg_tuples(parsed0) == tuples,
            forall|j: int|
                0 <= j < tuples.len() ==> crate::parse::valid_offsets(#[trigger] tuples[j]),
            parsed@.len() <= parsed0.len(),
            parsed@ == parsed0.subrange(parsed0.len() - parsed@.len(), parsed0.len() as int),
            r@.len() == parsed0.len() - parsed@.len(),
            forall|i: int|
                0 <= i < r@.len() ==> {
                    let t = tuples[i];
                    &&& #[trigger] r@[i].speaker == speaker
                    &&& r@[i].text@ == t.2
                    &&& r@[i].start_ms == t.0
                    &&& r@[i].end_ms == t.1
                    &&& !r@[i].is_overlapping
                },
        decreases parsed@.len(),
    {
        let ghost k = parsed0.len() - parsed@.len();
        let t = parsed.remove(0);
        assert(t == parsed0[k]);
        assert(parsed@ =~= parsed0.subrange(parsed0.len() - parsed@.len(), parsed0.len() as int));
        assert(crate::parse::seg_tuple(parsed0[k]) == tuples[k]);
        assert(crate::parse::valid_offsets(tuples[k]));
        assert(0 <= t.start_ms <= 6039999 && 0 <= t.end_ms <= 6039999);
        let start_ms: u64 = t.start_ms as u64;
        let end_ms: u64 = t.end_ms as u64;
        r.push(
            SpeakerSegment {
                speaker,
                text: t.text,
                start_ms,
                end_ms,
                is_overlapping: false,
            },
        );
    }
    r
}

/// Force `sp` on every segment of `src` and append the result to `dst`,
/// keeping text, offsets, and overlap flags.
fn relabel_append(src: Vec<SpeakerSegment>, sp: Speaker, dst: &mut Vec<SpeakerSegment>)
    ensures
        final(dst)@ == old(dst)@ + relabeled(src@, sp),
{
    let ghost src0 = src@;
    let ghost dst0 = old(dst)@;
    let mut src = src;
    while src.len() > 0
        invariant
            src@.len() <= src0.len(),
            src@ == src0.subrange(src0.len() - src@.len(), src0.len() as int),
            dst@ == dst0 + relabeled(src0, sp).take(src0.len() - src@.len()),
        decreases src@.len(),
    {
        let ghost k = src0.len() - src@.len();
        let s = src.remove(0);
        assert(s == src0[k]);
        assert(src@ =~= src0.subrange(src0.len() - src@.len(), src0.len() as int));
        let relabeled_seg = SpeakerSegment {
            speaker: sp,
            text: s.text,
            start_ms: s.start_ms,
            end_ms: s.end_ms,
            is_overlapping: s.is_overlapping,
        };
        assert(relabeled_seg == with_speaker(src0[k], sp));
        dst.push(relabeled_seg);
        assert(dst@ =~= dst0 + relabeled(src0, sp).take(k + 1));
    }
    assert(relabeled(src0, sp).take(src0.len() as int) =~= relabeled(src0, sp));
}

impl SpeakerTranscript {
    /// A fresh dual-audio transcript with no segments yet.
    pub fn new(mic_device: String, system_device: String) -> (t: SpeakerTranscript)
        ensures
            t.version == 1,
            t.mic_device == mic_device,
            t.system_device == system_device,
            t.has_dual_audio == true,
            t.segments@ == Seq::<SpeakerSegment>::empty(),
    {
        SpeakerTranscript {
            version: 1,
            mic_device,
            system_device,
            has_dual_audio: true,
            segments: Vec::new(),
        }
    }

    /// Merge the two per-channel segment lists into one ordered,
    /// overlap-annotated timeline. Mic-origin segments are labeled `Local`
    /// and system-origin segments `Remote` regardless of their input
    /// labels; the result is stably sorted by start offset; a segment is
    /// marked overlapping exactly when its speaker differs from its
    /// immediate predecessor and its start precedes that predecessor's
    /// end, whatever overlap flags the inputs carried.
    pub fn merge(
        mic_segments: Vec<SpeakerSegment>,
        system_segments: Vec<SpeakerSegment>,
    ) -> (r: Vec<SpeakerSegment>)
        ensures
            r@ == merged(mic_segments@, system_segments@),
    {
        let ghost mic0 = mic_segments@;
        let ghost sys0 = system_segments@;
        let mut all: Vec<SpeakerSegment> = Vec::new();
        relabel_append(mic_segments, Speaker::Local, &mut all);
        relabel_append(system_segments, Speaker::Remote, &mut all);
        let ghost all0 = all@;
        assert(all0 == relabeled(mic0, Speaker::Local) + relabeled(sys0, Speaker::Remote));

        let mut sorted: Vec<SpeakerSegment> = Vec::new();
        while all.len() > 0
            invariant
                all@.len() <= all0.len(),
                all@ == all0.subrange(all0.len() - all@.len(), all0.len() as int),
                sorted@ == sort_by_start(all0.take(all0.len() - all@.len())),
                sorted_by_start(sorted@),
            decreases all@.len(),
        {
            let ghost k = all0.len() - all@.len();
            let x = all.remove(0);
            assert(x == all0[k]);
            assert(all@ =~= all0.subrange(all0.len() - all@.len(), all0.len() as int));
            let mut pos: usize = 0;
            while pos < sorted.len() && sorted[pos].start_ms <= x.start_ms
                invariant
                    pos <= sorted@.len(),
                    sorted_by_start(sorted@),
                    forall|j: int| 0 <= j < pos ==> sorted@[j].start_ms <= x.start_ms,
                decreases sorted@.len() - pos,
            {
                pos = pos + 1;
            }
            proof {
                assert forall|j: int| pos <= j < sorted@.len() implies sorted@[j].start_ms
                    > x.start_ms by {
                    assert(sorted@[pos as int].start_ms <= sorted@[j].start_ms);
                }
                lemma_insert_at_position(sorted@, x, pos as int);
                lemma_insert_by_start_sorted(sorted@, x);
                assert(all0.take(k + 1).drop_last() =~= all0.take(k));
                assert(all0.take(k + 1).last() == all0[k]);
            }
            sorted.insert(pos, x);
            assert(sorted@ == sort_by_start(all0.take(k + 1)));
        }
        assert(all0.take(all0.len() as int) =~= all0);
        let ghost sv = sorted@;
        assert(sv == sort_by_start(all0));

        let mut result: Vec<SpeakerSegment> = Vec::new();
        let mut prev_end: u64 = 0;
        let mut prev_speaker: Speaker = Speaker::Local;
        while sorted.len() > 0
            invariant
                sorted@.len() <= sv.len(),
                sorted@ == sv.subrange(sv.len() - sorted@.len(), sv.len() as int),
                result@.len() == sv.len() - sorted@.len(),
                result@ == marked_overlaps(sv).take(result@.len() as int),
                result@.len() > 0 ==> prev_end == sv[result@.len() - 1].end_ms && prev_speaker
                    == sv[result@.len() - 1].speaker,
            decreases sorted@.len(),
        {
            let ghost k = sv.len() - sorted@.len();
            let x = sorted.remove(0);
            assert(x == sv[k]);
            assert(sorted@ =~= sv.subrange(sv.len() - sorted@.len(), sv.len() as int));
            let has_prev = result.len() > 0;
            let overlap_now = has_prev && prev_end > x.start_ms && prev_speaker != x.speaker;
            let new_prev_end = x.end_ms;
            let new_prev_speaker = x.speaker;
            let marked_seg = SpeakerSegment {
                speaker: x.speaker,
                text: x.text,
                start_ms: x.start_ms,
                end_ms: x.end_ms,
                is_overlapping: overlap_now,
            };
            assert(marked_seg == marked_overlaps(sv)[k as int]);
            result.push(marked_seg);
            prev_end = new_prev_end;
            prev_speaker = new_prev_speaker;
            assert(result@ =~= marked_overlaps(sv).take(k + 1));
        }
        assert(marked_overlaps(sv).take(sv.len() as int) =~= marked_overlaps(sv));
        result
    }
}

} // verus!
