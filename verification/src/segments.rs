use vstd::prelude::*;
use vstd::string::*;

verus! {

/// One timed span of text as the engine hands it out, before numbering:
/// start and end timestamps (centiseconds) and the recognized text.
pub struct RawSegment {
    pub start: i64,
    pub end: i64,
    pub text: String,
}

impl Clone for RawSegment {
    fn clone(&self) -> (r: Self)
        ensures
            r.start == self.start,
            r.end == self.end,
            r.text@ == self.text@,
    {
        RawSegment { start: self.start, end: self.end, text: self.text.clone() }
    }
}

/// One segment of a recognition answer: its sequence number, its frame
/// bounds, and its text. Never mutated after creation.
pub struct RecognizeResponse {
    pub frame_id: i32,
    pub frame_start: i64,
    pub frame_end: i64,
    pub text: String,
}

/// The successfully extracted segments, in engine order, with the failed
/// extractions left out.
pub open spec fn kept(s: Seq<Option<RawSegment>>) -> Seq<RawSegment>
    decreases s.len(),
{
    if s.len() == 0 {
        Seq::empty()
    } else {
        let rest = kept(s.drop_last());
        match s.last() {
            Some(seg) => rest.push(seg),
            None => rest,
        }
    }
}

/// Numbers the segments that were successfully extracted, skipping the
/// failed ones: the result lists exactly the extracted segments in engine
/// order, and `frame_id` is the position in the result.
pub fn collect_segments(extracted: &Vec<Option<RawSegment>>) -> (result: Vec<RecognizeResponse>)
    requires
        extracted@.len() <= 0x7fff_ffff,
    ensures
        result@.len() == kept(extracted@).len(),
        forall|j: int|
            0 <= j < result@.len() ==> {
                &&& (#[trigger] result@[j]).frame_id == j
                &&& result@[j].frame_start == kept(extracted@)[j].start
                &&& result@[j].frame_end == kept(extracted@)[j].end
                &&& result@[j].text@ == kept(extracted@)[j].text@
            },
{
    let mut result: Vec<RecognizeResponse> = Vec::new();
    let mut i: usize = 0;
    while i < extracted.len()
        invariant
            i <= extracted@.len(),
            extracted@.len() <= 0x7fff_ffff,
            result@.len() == kept(extracted@.take(i as int)).len(),
            result@.len() <= i,
            forall|j: int|
                0 <= j < result@.len() ==> {
                    &&& (#[trigger] result@[j]).frame_id == j
                    &&& result@[j].frame_start == kept(extracted@.take(i as int))[j].start
                    &&& result@[j].frame_end == kept(extracted@.take(i as int))[j].end
                    &&& result@[j].text@ == kept(extracted@.take(i as int))[j].text@
                },
        decreases extracted@.len() - i,
    {
        proof {
            assert(extracted@.take(i as int + 1).drop_last() =~= extracted@.take(i as int));
            assert(extracted@.take(i as int + 1).last() == extracted@[i as int]);
        }
        match &extracted[i] {
            None => {},
            Some(seg) => {
                let c = seg.clone();
                let resp = RecognizeResponse {
                    frame_id: result.len() as i32,
                    frame_start: c.start,
                    frame_end: c.end,
                    text: c.text,
                };
                result.push(resp);
            },
        }
        i = i + 1;
    }
    proof {
        assert(extracted@.take(i as int) =~= extracted@);
    }
    result
}

/// The `frame_id` values of a collected answer are strictly increasing,
/// start at zero, and have no gaps: each one is exactly one more than its
/// predecessor's.
pub proof fn lemma_frame_ids_contiguous(result: Seq<RecognizeResponse>)
    requires
        forall|j: int| 0 <= j < result.len() ==> (#[trigger] result[j]).frame_id == j,
    ensures
        result.len() > 0 ==> result[0].frame_id == 0,
        forall|j: int|
            0 < j < result.len() ==> (#[trigger] result[j]).frame_id == result[j - 1].frame_id + 1,
{
}

/// The texts of the segments, in order.
pub open spec fn response_texts(segments: Seq<RecognizeResponse>) -> Seq<Seq<char>> {
    segments.map_values(|s: RecognizeResponse| s.text@)
}

/// The texts joined by a single space: empty for no texts, and one space
/// between each adjacent pair otherwise.
pub open spec fn joined_texts(texts: Seq<Seq<char>>) -> Seq<char>
    decreases texts.len(),
{
    if texts.len() == 0 {
        Seq::empty()
    } else if texts.len() == 1 {
        texts[0]
    } else {
        joined_texts(texts.drop_last()) + seq![' '] + texts.last()
    }
}

/// The aggregated form of an answer: a pure projection of the segment
/// sequence, whose text is the space-joined concatenation of all per-segment
/// texts in `frame_id` order, with the other fields zeroed.
pub fn concatenated(segments: &Vec<RecognizeResponse>) -> (r: RecognizeResponse)
    ensures
        r.frame_id == 0,
        r.frame_start == 0,
        r.frame_end == 0,
        r.text@ == joined_texts(response_texts(segments@)),
{
    let mut text = String::new();
    let mut i: usize = 0;
    while i < segments.len()
        invariant
            i <= segments@.len(),
            text@ == joined_texts(response_texts(segments@.take(i as int))),
        decreases segments@.len() - i,
    {
        proof {
            reveal_strlit(" ");
            assert(response_texts(segments@.take(i as int + 1)).drop_last() =~= response_texts(
                segments@.take(i as int),
            ));
            assert(response_texts(segments@.take(i as int + 1)).last() == segments@[i as int].text@);
        }
        if i > 0 {
            text.append(" ");
        }
        text.append(segments[i].text.as_str());
        i = i + 1;
    }
    proof {
        assert(segments@.take(i as int) =~= segments@);
    }
    RecognizeResponse { frame_id: 0, frame_start: 0, frame_end: 0, text }
}

} // verus!
