use vstd::prelude::*;
use vstd::string::StrSliceExecFns;

verus! {

/// Color label attached to a rendered segment. The output sink translates
/// each label to a terminal color, or drops it when colors are disabled.
#[derive(Clone, Copy, PartialEq, Eq, Structural, Debug)]
pub enum ColorTag {
    Magenta,
    Blue,
    Yellow,
    Red,
    Green,
    Neutral,
}

/// One piece of rendered output: a run of text in a single color.
#[derive(Debug)]
pub struct Segment {
    pub color: ColorTag,
    pub text: String,
}

/// Model of a segment: its color and the characters of its text.
#[verifier::ext_equal]
pub struct SegmentModel {
    pub color: ColorTag,
    pub text: Seq<char>,
}

impl View for Segment {
    type V = SegmentModel;

    open spec fn view(&self) -> SegmentModel {
        SegmentModel { color: self.color, text: self.text@ }
    }
}

/// Everything the output sink must write for one record: the colored
/// segments in order, then one blank line per `blank_lines`.
#[derive(Debug)]
pub struct RenderPlan {
    pub segments: Vec<Segment>,
    pub blank_lines: u64,
}

/// Model of a render plan.
#[verifier::ext_equal]
pub struct PlanModel {
    pub segments: Seq<SegmentModel>,
    pub blank_lines: u64,
}

/// The models of a segment vector, in order.
pub open spec fn seg_views(s: Seq<Segment>) -> Seq<SegmentModel> {
    Seq::new(s.len(), |i: int| s[i]@)
}

impl View for RenderPlan {
    type V = PlanModel;

    open spec fn view(&self) -> PlanModel {
        PlanModel { segments: seg_views(self.segments@), blank_lines: self.blank_lines }
    }
}

/// The segments of one extra field. Inline, the field appears as
/// ` <sep> key=value`; in multiline mode it opens an indented line of its
/// own, and a long or multi-line value moves below a `key:` heading.
pub open spec fn spec_field_segments(
    k: Seq<char>,
    v: Seq<char>,
    multiline: bool,
    sep: Seq<char>,
    field_wrap: usize,
) -> Seq<SegmentModel> {
    if multiline {
        let head = seq![
            SegmentModel { color: ColorTag::Neutral, text: "\n  "@ },
            SegmentModel { color: ColorTag::Green, text: k },
        ];
        if v.len() > field_wrap || v.contains('\n') {
            head + seq![
                SegmentModel { color: ColorTag::Neutral, text: ":\n"@ },
                SegmentModel { color: ColorTag::Neutral, text: v },
                SegmentModel { color: ColorTag::Neutral, text: "\n"@ },
            ]
        } else {
            head + seq![
                SegmentModel { color: ColorTag::Neutral, text: "="@ },
                SegmentModel { color: ColorTag::Neutral, text: v },
            ]
        }
    } else {
        seq![
            SegmentModel { color: ColorTag::Neutral, text: " "@ + sep + " "@ },
            SegmentModel { color: ColorTag::Green, text: k },
            SegmentModel { color: ColorTag::Neutral, text: "="@ },
            SegmentModel { color: ColorTag::Neutral, text: v },
        ]
    }
}

/// The segments of a whole extra-field block, one field after the next.
pub open spec fn spec_extras_segments(
    pairs: Seq<(Seq<char>, Seq<char>)>,
    multiline: bool,
    sep: Seq<char>,
    field_wrap: usize,
) -> Seq<SegmentModel>
    decreases pairs.len(),
{
    if pairs.len() == 0 {
        Seq::empty()
    } else {
        spec_extras_segments(pairs.drop_last(), multiline, sep, field_wrap)
            + spec_field_segments(pairs.last().0, pairs.last().1, multiline, sep, field_wrap)
    }
}

/// Whether `s` contains the character `c`.
pub fn contains_char(s: &str, c: char) -> (r: bool)
    ensures
        r == s@.contains(c),
{
    let n = s.unicode_len();
    let mut i: usize = 0;
    while i < n
        invariant
            0 <= i <= n == s@.len(),
            forall|j: int| 0 <= j < i ==> s@[j] != c,
        decreases n - i,
    {
        if s.get_char(i) == c {
            return true;
        }
        i = i + 1;
    }
    false
}

} // verus!
