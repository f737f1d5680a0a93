use vstd::prelude::*;

use crate::bridge::QueryModel;
use crate::bridge::query_outcome;
use crate::json::JsonModel;
use crate::json::obj_lookup;
use crate::json::spec_empty_collection;
use crate::render::ColorTag;
use crate::transformer::OutputModel;
use crate::transformer::TransformerModel;
use crate::transformer::spec_decide;
use crate::transformer::spec_extract_text;
use crate::transformer::spec_extras;

verus! {

/// Whenever a record with a string message field is rendered, the message
/// segment carries that field's text verbatim, in the neutral color. It
/// stands right after the level segment, which follows the timestamp
/// segment when there is one.
pub proof fn lemma_message_verbatim(
    t: TransformerModel,
    rec: JsonModel,
    ts: Option<Seq<char>>,
    m: Seq<char>,
)
    requires
        rec is Obj,
        obj_lookup(rec->Obj_0, t.message_field) == Some(JsonModel::Str(m)),
        spec_decide(t, rec, ts) is Rendered,
    ensures
        ({
            let plan = spec_decide(t, rec, ts)->Rendered_0;
            let i: int = if ts is Some {
                2int
            } else {
                1int
            };
            &&& 0 <= i < plan.segments.len()
            &&& plan.segments[i].text == m
            &&& plan.segments[i].color == ColorTag::Neutral
        }),
{
    assert(spec_extract_text(rec->Obj_0, t.message_field) == m);
}

/// A record whose level field is missing extracts the fallback level, so
/// whenever such a record is rendered its level segment reads `[???] `.
pub proof fn lemma_missing_level_fallback(t: TransformerModel, rec: JsonModel, ts: Option<Seq<char>>)
    requires
        rec is Obj,
        obj_lookup(rec->Obj_0, t.level_field) is None,
        spec_decide(t, rec, ts) is Rendered,
    ensures
        spec_extract_text(rec->Obj_0, t.level_field) == "???"@,
        ({
            let plan = spec_decide(t, rec, ts)->Rendered_0;
            let i: int = if ts is Some {
                1int
            } else {
                0int
            };
            &&& 0 <= i < plan.segments.len()
            &&& plan.segments[i].text == "["@ + "???"@ + "] "@
        }),
{
}

/// The level filter decides alone on the extracted level: a non-empty
/// filter without the record's level drops the record, and with a plain
/// configuration (no queries) a level the filter holds is rendered.
pub proof fn lemma_level_filter(t: TransformerModel, rec: JsonModel, ts: Option<Seq<char>>)
    requires
        rec is Obj,
    ensures
        (t.filter_levels.len() > 0 && !t.filter_levels.contains(
            spec_extract_text(rec->Obj_0, t.level_field),
        )) ==> spec_decide(t, rec, ts) == OutputModel::Dropped,
        (t.filter_levels.contains(spec_extract_text(rec->Obj_0, t.level_field)) && t.gate_query
            is None && t.select_query is None) ==> spec_decide(t, rec, ts) is Rendered,
{
}

/// A gate query that matches an empty collection — or nothing at all —
/// suppresses the record entirely, whatever the record holds and whether
/// or not extra fields are shown.
pub proof fn lemma_gate_empty_match_drops(
    t: TransformerModel,
    rec: JsonModel,
    ts: Option<Seq<char>>,
    q: Seq<char>,
)
    requires
        rec is Obj,
        t.gate_query == Some(q),
        match query_outcome(rec, q) {
            QueryModel::Matched(v) => spec_empty_collection(v),
            QueryModel::EmptyMatch => true,
            QueryModel::Absent => true,
            QueryModel::BadQuery(_) => false,
        },
    ensures
        spec_decide(t, rec, ts) == OutputModel::Dropped,
{
}

/// An unusable gate query is a configuration fault, not a per-record
/// matter: every record whose level survives the filter ends processing
/// with the engine's error.
pub proof fn lemma_gate_bad_query_fatal(
    t: TransformerModel,
    rec: JsonModel,
    ts: Option<Seq<char>>,
    q: Seq<char>,
    why: Seq<char>,
)
    requires
        rec is Obj,
        t.gate_query == Some(q),
        query_outcome(rec, q) == QueryModel::BadQuery(why),
        t.filter_levels.len() == 0 || t.filter_levels.contains(
            spec_extract_text(rec->Obj_0, t.level_field),
        ),
    ensures
        spec_decide(t, rec, ts) == OutputModel::Fatal(why),
{
}

/// No extra-field pair ever carries an excluded name: whatever the field
/// list, the pairs the renderer is handed are exactly the fields that
/// survive the exclusion list.
pub proof fn lemma_extras_skip_excluded(
    fields: Seq<(Seq<char>, JsonModel)>,
    excluded: Seq<Seq<char>>,
)
    ensures
        forall|i: int|
            0 <= i < spec_extras(fields, excluded).len() ==> !excluded.contains(
                #[trigger] spec_extras(fields, excluded)[i].0,
            ),
    decreases fields.len(),
{
    if fields.len() > 0 {
        lemma_extras_skip_excluded(fields.drop_last(), excluded);
        let rest = spec_extras(fields.drop_last(), excluded);
        let whole = spec_extras(fields, excluded);
        assert forall|i: int| 0 <= i < whole.len() implies !excluded.contains(
            #[trigger] whole[i].0,
        ) by {
            if i < rest.len() {
                assert(whole[i] == rest[i]);
            }
        }
    }
}

/// Every rendered record ends in exactly `spacing` blank lines; a
/// passthrough line carries none (its model holds the line text alone), so
/// spacing never touches it.
pub proof fn lemma_spacing(t: TransformerModel, rec: JsonModel, ts: Option<Seq<char>>)
    requires
        rec is Obj,
        spec_decide(t, rec, ts) is Rendered,
    ensures
        spec_decide(t, rec, ts)->Rendered_0.blank_lines == t.spacing,
{
}

} // verus!
