use vstd::prelude::*;
use vstd::string::StrSliceExecFns;

use crate::bridge::QueryModel;
use crate::bridge::QueryOutcome;
use crate::bridge::format_local_timestamp;
use crate::bridge::from_serde;
use crate::bridge::parse_json_object;
use crate::bridge::parsed_object;
use crate::bridge::query_outcome;
use crate::bridge::run_query;
use crate::bridge::serde_view;
use crate::config::Config;
use crate::json::JsonModel;
use crate::json::JsonValue;
use crate::json::format_value;
use crate::json::is_empty_collection;
use crate::json::json_model;
use crate::json::lookup;
use crate::json::obj_fields_model;
use crate::json::obj_lookup;
use crate::json::spec_empty_collection;
use crate::json::spec_format_value;
use crate::level::level_color;
use crate::level::spec_level_color;
use crate::number::spec_whole_seconds;
use crate::number::whole_seconds;
use crate::render::ColorTag;
use crate::render::PlanModel;
use crate::render::RenderPlan;
use crate::render::Segment;
use crate::render::SegmentModel;
use crate::render::contains_char;
use crate::render::seg_views;
use crate::render::spec_extras_segments;
use crate::render::spec_field_segments;

verus! {

/// Mathematical model of a resolved transformer: every option as a
/// character sequence or plain value.
#[verifier::ext_equal]
pub struct TransformerModel {
    pub message_field: Seq<char>,
    pub level_field: Seq<char>,
    pub timestamp_field: Seq<char>,
    pub excluded_fields: Seq<Seq<char>>,
    pub separator: Seq<char>,
    pub filter_levels: Seq<Seq<char>>,
    pub hide_extra_fields: bool,
    pub disable_colors: bool,
    pub hide_non_json: bool,
    pub multiline_fields: bool,
    pub spacing: u64,
    pub select_query: Option<Seq<char>>,
    pub gate_query: Option<Seq<char>>,
    pub message_wrap_threshold: usize,
    pub field_wrap_threshold: usize,
}

/// The per-line transformation engine, resolved once from a `Config`.
pub struct LogTransformer {
    message_field: String,
    level_field: String,
    timestamp_field: String,
    excluded_fields: Vec<String>,
    separator: String,
    filter_levels: Vec<String>,
    hide_extra_fields: bool,
    disable_colors: bool,
    hide_non_json: bool,
    multiline_fields: bool,
    spacing: u64,
    select_query: Option<String>,
    gate_query: Option<String>,
    message_wrap_threshold: usize,
    field_wrap_threshold: usize,
}

impl View for LogTransformer {
    type V = TransformerModel;

    closed spec fn view(&self) -> TransformerModel {
        TransformerModel {
            message_field: self.message_field@,
            level_field: self.level_field@,
            timestamp_field: self.timestamp_field@,
            excluded_fields: self.excluded_fields.deep_view(),
            separator: self.separator@,
            filter_levels: self.filter_levels.deep_view(),
            hide_extra_fields: self.hide_extra_fields,
            disable_colors: self.disable_colors,
            hide_non_json: self.hide_non_json,
            multiline_fields: self.multiline_fields,
            spacing: self.spacing,
            select_query: self.select_query.deep_view(),
            gate_query: self.gate_query.deep_view(),
            message_wrap_threshold: self.message_wrap_threshold,
            field_wrap_threshold: self.field_wrap_threshold,
        }
    }
}

/// What resolving a `Config` yields: the user's exclusions, with the
/// message, level and timestamp field names always appended, and every
/// other option carried over.
pub open spec fn spec_resolve(c: Config) -> TransformerModel {
    TransformerModel {
        message_field: c.message_field@,
        level_field: c.level_field@,
        timestamp_field: c.timestamp_field@,
        excluded_fields: (match c.exclude_fields {
            Some(v) => v.deep_view(),
            None => Seq::empty(),
        }) + seq![c.message_field@, c.level_field@, c.timestamp_field@],
        separator: c.separator@,
        filter_levels: match c.filter_levels {
            Some(v) => v.deep_view(),
            None => Seq::empty(),
        },
        hide_extra_fields: c.hide_extra_fields,
        disable_colors: c.disable_colors,
        hide_non_json: c.hide_non_json,
        multiline_fields: c.multiline_fields,
        spacing: c.spacing,
        select_query: c.select_query.deep_view(),
        gate_query: c.gate_query.deep_view(),
        message_wrap_threshold: c.message_wrap_threshold,
        field_wrap_threshold: c.field_wrap_threshold,
    }
}

impl LogTransformer {
    /// Whether colors were disabled; the output sink reads this.
    pub fn colors_disabled(&self) -> (r: bool)
        ensures
            r == self@.disable_colors,
    {
        self.disable_colors
    }

    /// Resolves a configuration: the three named fields join the exclusion
    /// list, absent lists become empty ones, and the rest is carried over.
    pub fn new(config: Config) -> (r: LogTransformer)
        ensures
            r@ == spec_resolve(config),
    {
        let Config {
            message_field,
            level_field,
            timestamp_field,
            exclude_fields,
            separator,
            filter_levels,
            hide_extra_fields,
            disable_colors,
            hide_non_json,
            multiline_fields,
            spacing,
            select_query,
            gate_query,
            message_wrap_threshold,
            field_wrap_threshold,
        } = config;
        let mut excluded_fields = match exclude_fields {
            Some(v) => v,
            None => Vec::new(),
        };
        let ghost base = excluded_fields.deep_view();
        excluded_fields.push(message_field.clone());
        excluded_fields.push(level_field.clone());
        excluded_fields.push(timestamp_field.clone());
        proof {
            assert(excluded_fields.deep_view() =~= base + seq![
                message_field@,
                level_field@,
                timestamp_field@,
            ]);
        }
        let filter_levels = match filter_levels {
            Some(v) => v,
            None => Vec::new(),
        };
        let r = LogTransformer {
            message_field,
            level_field,
            timestamp_field,
            excluded_fields,
            separator,
            filter_levels,
            hide_extra_fields,
            disable_colors,
            hide_non_json,
            multiline_fields,
            spacing,
            select_query,
            gate_query,
            message_wrap_threshold,
            field_wrap_threshold,
        };
        proof {
            assert(r@.excluded_fields =~= spec_resolve(config).excluded_fields);
            assert(r@.filter_levels =~= spec_resolve(config).filter_levels);
            assert(r@ =~= spec_resolve(config));
        }
        r
    }

    /// The extra-field pairs of one field list: names not excluded, each
    /// with its formatted value, in order.
    fn extras_pairs(&self, fields: &Vec<(String, JsonValue)>) -> (r: Vec<(String, String)>)
        ensures
            pairs_view(r@) == spec_extras(obj_fields_model(fields@), self@.excluded_fields),
    {
        let ghost fm = obj_fields_model(fields@);
        let ghost ex = self@.excluded_fields;
        let mut out: Vec<(String, String)> = Vec::new();
        proof {
            assert(fm.take(0) =~= Seq::<(Seq<char>, JsonModel)>::empty());
            assert(pairs_view(out@) =~= spec_extras(fm.take(0), ex));
        }
        let mut i: usize = 0;
        while i < fields.len()
            invariant
                0 <= i <= fields@.len(),
                fm == obj_fields_model(fields@),
                ex == self@.excluded_fields,
                fm.len() == fields@.len(),
                pairs_view(out@) == spec_extras(fm.take(i as int), ex),
            decreases fields@.len() - i,
        {
            proof {
                assert(fm.take(i as int + 1).drop_last() =~= fm.take(i as int));
                assert(fm.take(i as int + 1).last() == fm[i as int]);
                assert(fm[i as int] == (fields@[i as int].0@, json_model(fields@[i as int].1)));
            }
            if !contains_string(&self.excluded_fields, &fields[i].0) {
                let formatted = format_value(&fields[i].1);
                let key = fields[i].0.clone();
                out.push((key, formatted));
                proof {
                    assert(pairs_view(out@) =~= spec_extras(fm.take(i as int + 1), ex));
                }
            } else {
                proof {
                    assert(pairs_view(out@) =~= spec_extras(fm.take(i as int + 1), ex));
                }
            }
            i = i + 1;
        }
        proof {
            assert(fm.take(fields@.len() as int) =~= fm);
        }
        out
    }

    /// Builds the render plan from the extracted pieces, exactly as
    /// `spec_plan` lays it out.
    fn render_plan(
        &self,
        msg: String,
        level: &String,
        ts_text: Option<String>,
        pairs: Option<Vec<(String, String)>>,
    ) -> (r: RenderPlan)
        ensures
            r@ == spec_plan(self@, msg@, level@, ts_text.deep_view(), opt_pairs_view(pairs)),
    {
        let ghost mmsg = msg@;
        let ghost mts = ts_text.deep_view();
        let ghost gpairs = opt_pairs_view(pairs);
        let ghost t = self@;
        let mut segments: Vec<Segment> = Vec::new();
        match ts_text {
            Some(txt) => {
                let mut brk = String::from_str("[");
                brk.append(txt.as_str());
                brk.append("]");
                segments.push(Segment { color: ColorTag::Magenta, text: brk });
            },
            None => {},
        }
        let color = level_color(level.as_str());
        let mut lv = String::from_str("[");
        lv.append(level.as_str());
        lv.append("] ");
        segments.push(Segment { color, text: lv });
        let msg_len = msg.as_str().unicode_len();
        let push_wrap = msg_len > self.message_wrap_threshold && !self.multiline_fields;
        segments.push(Segment { color: ColorTag::Neutral, text: msg });
        if push_wrap {
            segments.push(Segment { color: ColorTag::Neutral, text: String::from_str("\n") });
        }
        let ghost head = {
            let ts_segs = match mts {
                Some(txt) => seq![
                    SegmentModel { color: ColorTag::Magenta, text: "["@ + txt + "]"@ },
                ],
                None => Seq::empty(),
            };
            let level_seg = seq![
                SegmentModel { color: spec_level_color(level@), text: "["@ + level@ + "] "@ },
            ];
            let msg_seg = seq![SegmentModel { color: ColorTag::Neutral, text: mmsg }];
            let wrap_seg = if mmsg.len() > t.message_wrap_threshold && !t.multiline_fields {
                seq![SegmentModel { color: ColorTag::Neutral, text: "\n"@ }]
            } else {
                Seq::empty()
            };
            ts_segs + level_seg + msg_seg + wrap_seg
        };
        proof {
            assert(seg_views(segments@) =~~= head);
        }
        match pairs {
            Some(ps) => {
                let ghost pv = pairs_view(ps@);
                proof {
                    assert(pv.take(0) =~= Seq::<(Seq<char>, Seq<char>)>::empty());
                    assert(seg_views(segments@) =~~= head + spec_extras_segments(
                        pv.take(0),
                        t.multiline_fields,
                        t.separator,
                        t.field_wrap_threshold,
                    ));
                }
                let mut j: usize = 0;
                while j < ps.len()
                    invariant
                        0 <= j <= ps@.len(),
                        pv == pairs_view(ps@),
                        pv.len() == ps@.len(),
                        t == self@,
                        seg_views(segments@) == head + spec_extras_segments(
                            pv.take(j as int),
                            t.multiline_fields,
                            t.separator,
                            t.field_wrap_threshold,
                        ),
                    decreases ps@.len() - j,
                {
                    let ghost prev = seg_views(segments@);
                    proof {
                        assert(pv.take(j as int + 1).drop_last() =~= pv.take(j as int));
                        assert(pv.take(j as int + 1).last() == pv[j as int]);
                        assert(pv[j as int] == (ps@[j as int].0@, ps@[j as int].1@));
                    }
                    let key = ps[j].0.clone();
                    let val = ps[j].1.clone();
                    if self.multiline_fields {
                        segments.push(
                            Segment { color: ColorTag::Neutral, text: String::from_str("\n  ") },
                        );
                        segments.push(Segment { color: ColorTag::Green, text: key });
                        let vlen = val.as_str().unicode_len();
                        let wide = vlen > self.field_wrap_threshold || contains_char(
                            val.as_str(),
                            '\n',
                        );
                        if wide {
                            segments.push(
                                Segment {
                                    color: ColorTag::Neutral,
                                    text: String::from_str(":\n"),
                                },
                            );
                            segments.push(Segment { color: ColorTag::Neutral, text: val });
                            segments.push(
                                Segment { color: ColorTag::Neutral, text: String::from_str("\n") },
                            );
                        } else {
                            segments.push(
                                Segment { color: ColorTag::Neutral, text: String::from_str("=") },
                            );
                            segments.push(Segment { color: ColorTag::Neutral, text: val });
                        }
                    } else {
                        let mut sep = String::from_str(" ");
                        sep.append(self.separator.as_str());
                        sep.append(" ");
                        segments.push(Segment { color: ColorTag::Neutral, text: sep });
                        segments.push(Segment { color: ColorTag::Green, text: key });
                        segments.push(
                            Segment { color: ColorTag::Neutral, text: String::from_str("=") },
                        );
                        segments.push(Segment { color: ColorTag::Neutral, text: val });
                    }
                    proof {
                        let fsegs = spec_field_segments(
                            pv[j as int].0,
                            pv[j as int].1,
                            t.multiline_fields,
                            t.separator,
                            t.field_wrap_threshold,
                        );
                        assert(seg_views(segments@) =~~= prev + fsegs);
                        assert(seg_views(segments@) =~~= head + spec_extras_segments(
                            pv.take(j as int + 1),
                            t.multiline_fields,
                            t.separator,
                            t.field_wrap_threshold,
                        ));
                    }
                    j = j + 1;
                }
                proof {
                    assert(pv.take(ps@.len() as int) =~= pv);
                }
            },
            None => {},
        }
        segments.push(Segment { color: ColorTag::Neutral, text: String::from_str("\n") });
        let r = RenderPlan { segments, blank_lines: self.spacing };
        proof {
            assert(r@.segments =~~= spec_plan(self@, mmsg, level@, mts, gpairs).segments);
            assert(r@ =~= spec_plan(self@, mmsg, level@, mts, gpairs));
        }
        r
    }

    /// Transforms one parsed record, already known to be a JSON object.
    /// The output follows `spec_decide` under some admissible timestamp
    /// text; the text itself is the clock library's, and depends on the
    /// machine's timezone.
    pub fn transform_record(&self, raw: &serde_json::Value, rec: &JsonValue) -> (r: Output)
        requires
            rec@ == serde_view(*raw),
            rec@ is Obj,
        ensures
            exists|ts: Option<Seq<char>>|
                #![trigger spec_decide(self@, rec@, ts)]
                spec_decide(self@, rec@, ts) == r@ && ts_admissible(self@, rec@, ts),
    {
        let ghost grec = rec@;
        match rec {
            JsonValue::Obj(fields) => {
                let ghost fm = obj_fields_model(fields@);
                proof {
                    assert(fm =~= grec->Obj_0);
                }
                let msg = extract_text(fields, &self.message_field);
                let level = extract_text(fields, &self.level_field);
                let ts_text: Option<String> = match lookup(fields, &self.timestamp_field) {
                    Some(v) => match v {
                        JsonValue::Num(txt) => match whole_seconds(txt.as_str()) {
                            Some(secs) => format_local_timestamp(secs),
                            None => None,
                        },
                        _ => None,
                    },
                    None => None,
                };
                let ghost wts = ts_text.deep_view();
                proof {
                    assert(ts_admissible(self@, grec, wts));
                }
                if self.filter_levels.len() > 0 && !contains_string(&self.filter_levels, &level) {
                    proof {
                        assert(self@.filter_levels.len() == self.filter_levels@.len());
                        assert(spec_decide(self@, grec, wts) == OutputModel::Dropped);
                    }
                    return Output::Dropped;
                }
                proof {
                    assert(self@.filter_levels.len() == self.filter_levels@.len());
                    assert(!(self@.filter_levels.len() > 0 && !self@.filter_levels.contains(
                        level@,
                    )));
                }
                match &self.gate_query {
                    Some(q) => {
                        let out = run_query(raw, q.as_str());
                        proof {
                            assert(self@.gate_query == Some(q@));
                        }
                        match out {
                            QueryOutcome::Matched(v) => {
                                if is_empty_collection(&v) {
                                    proof {
                                        assert(spec_decide(self@, grec, wts)
                                            == OutputModel::Dropped);
                                    }
                                    return Output::Dropped;
                                }
                            },
                            QueryOutcome::BadQuery(why) => {
                                proof {
                                    assert(spec_decide(self@, grec, wts) == OutputModel::Fatal(
                                        why@,
                                    ));
                                }
                                return Output::Fatal(why);
                            },
                            _ => {
                                proof {
                                    assert(spec_decide(self@, grec, wts) == OutputModel::Dropped);
                                }
                                return Output::Dropped;
                            },
                        }
                    },
                    None => {
                        proof {
                            assert(self@.gate_query is None);
                        }
                    },
                }
                proof {
                    assert(spec_decide(self@, grec, wts) == spec_decide_selected(
                        self@,
                        grec,
                        msg@,
                        level@,
                        wts,
                    ));
                }
                let selected: Option<JsonValue> = match &self.select_query {
                    None => {
                        proof {
                            assert(self@.select_query is None);
                        }
                        None
                    },
                    Some(q) => {
                        proof {
                            assert(self@.select_query == Some(q@));
                        }
                        let out = run_query(raw, q.as_str());
                        match out {
                            QueryOutcome::Matched(v) => {
                                if is_empty_collection(&v) {
                                    proof {
                                        assert(spec_decide(self@, grec, wts)
                                            == OutputModel::Dropped);
                                    }
                                    return Output::Dropped;
                                }
                                Some(v)
                            },
                            QueryOutcome::EmptyMatch => {
                                proof {
                                    assert(spec_decide(self@, grec, wts) == OutputModel::Dropped);
                                }
                                return Output::Dropped;
                            },
                            QueryOutcome::Absent => {
                                proof {
                                    assert(spec_decide(self@, grec, wts) == OutputModel::Dropped);
                                }
                                return Output::Dropped;
                            },
                            QueryOutcome::BadQuery(why) => {
                                proof {
                                    assert(spec_decide(self@, grec, wts) == OutputModel::Fatal(
                                        why@,
                                    ));
                                }
                                return Output::Fatal(why);
                            },
                        }
                    },
                };
                let pairs: Option<Vec<(String, String)>> = if self.hide_extra_fields {
                    None
                } else {
                    Some(
                        match selected {
                            None => self.extras_pairs(fields),
                            Some(v) => {
                                let ghost gv = v@;
                                match v {
                                    JsonValue::Obj(new_fields) => {
                                        proof {
                                            assert(obj_fields_model(new_fields@) =~= gv->Obj_0);
                                        }
                                        self.extras_pairs(&new_fields)
                                    },
                                    other => {
                                        proof {
                                            assert(!(gv is Obj));
                                        }
                                        let mut wrapped: Vec<(String, JsonValue)> = Vec::new();
                                        wrapped.push((String::from_str("_jlf_inner"), other));
                                        proof {
                                            assert(obj_fields_model(wrapped@) =~= seq![
                                                ("_jlf_inner"@, gv),
                                            ]);
                                        }
                                        self.extras_pairs(&wrapped)
                                    },
                                }
                            },
                        },
                    )
                };
                let plan = self.render_plan(msg, &level, ts_text, pairs);
                proof {
                    assert(spec_decide(self@, grec, wts) == OutputModel::Rendered(plan@));
                }
                Output::Rendered(plan)
            },
            _ => {
                proof {
                    assert(false);
                }
                Output::Dropped
            },
        }
    }

    /// Transforms one input line: a line that parses as a JSON object runs
    /// through the whole pipeline; any other line is echoed unchanged, or
    /// dropped when `hide_non_json` is set.
    pub fn transform_line(&self, line: &str) -> (r: Output)
        ensures
            parsed_object(line@) is None ==> r@ == (if self@.hide_non_json {
                OutputModel::Dropped
            } else {
                OutputModel::Passthrough(line@)
            }),
            parsed_object(line@) matches Some(m) ==> exists|ts: Option<Seq<char>>|
                #![trigger spec_decide(self@, m, ts)]
                spec_decide(self@, m, ts) == r@ && ts_admissible(self@, m, ts),
    {
        match parse_json_object(line) {
            Some(raw) => {
                let rec = from_serde(&raw);
                self.transform_record(&raw, &rec)
            },
            None => {
                if self.hide_non_json {
                    Output::Dropped
                } else {
                    Output::Passthrough(line.to_owned())
                }
            },
        }
    }
}

/// The text extracted for a string field: the field's own text when it is
/// present and a string, and the literal fallback `???` otherwise.
pub open spec fn spec_extract_text(fields: Seq<(Seq<char>, JsonModel)>, name: Seq<char>) -> Seq<
    char,
> {
    match obj_lookup(fields, name) {
        Some(JsonModel::Str(s)) => s,
        _ => "???"@,
    }
}

/// The record's timestamp in whole seconds: present only when the named
/// field exists, is a number, and its whole part fits an `i64`.
pub open spec fn spec_timestamp_seconds(
    fields: Seq<(Seq<char>, JsonModel)>,
    name: Seq<char>,
) -> Option<i64> {
    match obj_lookup(fields, name) {
        Some(JsonModel::Num(t)) => spec_whole_seconds(t),
        _ => None,
    }
}

/// The extra fields shown for a record: every field whose name is not
/// excluded, in order, with its value formatted for display.
pub open spec fn spec_extras(
    fields: Seq<(Seq<char>, JsonModel)>,
    excluded: Seq<Seq<char>>,
) -> Seq<(Seq<char>, Seq<char>)>
    decreases fields.len(),
{
    if fields.len() == 0 {
        Seq::empty()
    } else {
        let rest = spec_extras(fields.drop_last(), excluded);
        if excluded.contains(fields.last().0) {
            rest
        } else {
            rest.push((fields.last().0, spec_format_value(fields.last().1)))
        }
    }
}

/// The models of a vector of rendered key/value pairs.
pub open spec fn pairs_view(pairs: Seq<(String, String)>) -> Seq<(Seq<char>, Seq<char>)> {
    Seq::new(pairs.len(), |i: int| (pairs[i].0@, pairs[i].1@))
}

pub open spec fn opt_pairs_view(p: Option<Vec<(String, String)>>) -> Option<
    Seq<(Seq<char>, Seq<char>)>,
> {
    match p {
        Some(v) => Some(pairs_view(v@)),
        None => None,
    }
}

/// The full render plan of one record: the timestamp segment when there is
/// one, the bracketed level in its color, the message, a line break when a
/// long message must not run into inline extras, the extra-field block, the
/// terminating newline, and `spacing` blank lines.
pub open spec fn spec_plan(
    t: TransformerModel,
    msg: Seq<char>,
    level: Seq<char>,
    ts_text: Option<Seq<char>>,
    pairs: Option<Seq<(Seq<char>, Seq<char>)>>,
) -> PlanModel {
    let ts_segs = match ts_text {
        Some(txt) => seq![SegmentModel { color: ColorTag::Magenta, text: "["@ + txt + "]"@ }],
        None => Seq::empty(),
    };
    let level_seg = seq![
        SegmentModel { color: spec_level_color(level), text: "["@ + level + "] "@ },
    ];
    let msg_seg = seq![SegmentModel { color: ColorTag::Neutral, text: msg }];
    let wrap_seg = if msg.len() > t.message_wrap_threshold && !t.multiline_fields {
        seq![SegmentModel { color: ColorTag::Neutral, text: "\n"@ }]
    } else {
        Seq::empty()
    };
    let extra_segs = match pairs {
        Some(ps) => spec_extras_segments(
            ps,
            t.multiline_fields,
            t.separator,
            t.field_wrap_threshold,
        ),
        None => Seq::empty(),
    };
    let end_seg = seq![SegmentModel { color: ColorTag::Neutral, text: "\n"@ }];
    PlanModel {
        segments: ts_segs + level_seg + msg_seg + wrap_seg + extra_segs + end_seg,
        blank_lines: t.spacing,
    }
}

/// The extra-field pairs handed to the renderer for one field list, or
/// none at all under `hide_extra_fields`.
pub open spec fn spec_pairs_opt(t: TransformerModel, fields: Seq<(Seq<char>, JsonModel)>) -> Option<
    Seq<(Seq<char>, Seq<char>)>,
> {
    if t.hide_extra_fields {
        None
    } else {
        Some(spec_extras(fields, t.excluded_fields))
    }
}

/// What a record becomes once gate filtering kept it: the select query, when
/// present, reshapes the extra fields, drops the record on either no-match
/// outcome — a missing key or an empty-collection match — and is fatal when
/// it is unusable.
pub open spec fn spec_decide_selected(
    t: TransformerModel,
    rec: JsonModel,
    msg: Seq<char>,
    level: Seq<char>,
    ts_text: Option<Seq<char>>,
) -> OutputModel {
    let fields = rec->Obj_0;
    match t.select_query {
        None => OutputModel::Rendered(spec_plan(t, msg, level, ts_text, spec_pairs_opt(t, fields))),
        Some(q) => match query_outcome(rec, q) {
            QueryModel::Matched(v) => if spec_empty_collection(v) {
                OutputModel::Dropped
            } else {
                let new_fields = if v is Obj {
                    v->Obj_0
                } else {
                    seq![("_jlf_inner"@, v)]
                };
                OutputModel::Rendered(spec_plan(t, msg, level, ts_text, spec_pairs_opt(t, new_fields)))
            },
            QueryModel::EmptyMatch => OutputModel::Dropped,
            QueryModel::Absent => OutputModel::Dropped,
            QueryModel::BadQuery(why) => OutputModel::Fatal(why),
        },
    }
}

/// What one structured record becomes, given the timestamp text from the
/// clock library: the level filter drops first; then a configured gate query,
/// which runs whether or not extras are shown, drops the record on any
/// no-match outcome — a missing key, an empty query, or a match that names
/// an empty collection — and is fatal when it is unusable; what is left is
/// rendered, with the select query applied.
pub open spec fn spec_decide(
    t: TransformerModel,
    rec: JsonModel,
    ts_text: Option<Seq<char>>,
) -> OutputModel {
    let fields = rec->Obj_0;
    let msg = spec_extract_text(fields, t.message_field);
    let level = spec_extract_text(fields, t.level_field);
    if t.filter_levels.len() > 0 && !t.filter_levels.contains(level) {
        OutputModel::Dropped
    } else {
        match t.gate_query {
            None => spec_decide_selected(t, rec, msg, level, ts_text),
            Some(gq) => match query_outcome(rec, gq) {
                QueryModel::Matched(v) => if spec_empty_collection(v) {
                    OutputModel::Dropped
                } else {
                    spec_decide_selected(t, rec, msg, level, ts_text)
                },
                QueryModel::EmptyMatch => OutputModel::Dropped,
                QueryModel::Absent => OutputModel::Dropped,
                QueryModel::BadQuery(why) => OutputModel::Fatal(why),
            },
        }
    }
}

/// The timestamp texts that can truthfully stand in `spec_decide` for a
/// record: none when the record carries no usable timestamp, and surely one
/// when it carries seconds the clock library accepts.
pub open spec fn ts_admissible(
    t: TransformerModel,
    rec: JsonModel,
    ts_text: Option<Seq<char>>,
) -> bool {
    let secs = spec_timestamp_seconds(rec->Obj_0, t.timestamp_field);
    &&& (secs is None ==> ts_text is None)
    &&& ((secs matches Some(s) && 0 <= s <= 253402300799) ==> ts_text is Some)
}

/// What the transformer does with one input line.
pub enum Output {
    /// A structured record, rendered: write the plan.
    Rendered(RenderPlan),
    /// Not a JSON object: echo the original line unchanged.
    Passthrough(String),
    /// Filtered out: write nothing.
    Dropped,
    /// A configured query is unusable; processing must stop.
    Fatal(String),
}

/// Model of an `Output`.
#[verifier::ext_equal]
pub enum OutputModel {
    Rendered(PlanModel),
    Passthrough(Seq<char>),
    Dropped,
    Fatal(Seq<char>),
}

impl View for Output {
    type V = OutputModel;

    open spec fn view(&self) -> OutputModel {
        match self {
            Output::Rendered(p) => OutputModel::Rendered(p@),
            Output::Passthrough(s) => OutputModel::Passthrough(s@),
            Output::Dropped => OutputModel::Dropped,
            Output::Fatal(s) => OutputModel::Fatal(s@),
        }
    }
}

/// Whether `list` holds the string `s`.
fn contains_string(list: &Vec<String>, s: &String) -> (r: bool)
    ensures
        r == list.deep_view().contains(s@),
{
    let mut i: usize = 0;
    while i < list.len()
        invariant
            0 <= i <= list@.len(),
            forall|j: int| 0 <= j < i ==> list@[j]@ != s@,
        decreases list@.len() - i,
    {
        if list[i].eq(s) {
            proof {
                assert(list.deep_view()[i as int] == s@);
            }
            return true;
        }
        i = i + 1;
    }
    proof {
        assert forall|j: int| 0 <= j < list.deep_view().len() implies list.deep_view()[j] != s@ by {
            assert(list.deep_view()[j] == list@[j]@);
        }
    }
    false
}

/// Extracts a string field, or the fallback `???`.
fn extract_text(fields: &Vec<(String, JsonValue)>, name: &String) -> (r: String)
    ensures
        r@ == spec_extract_text(obj_fields_model(fields@), name@),
{
    match lookup(fields, name) {
        Some(v) => match v {
            JsonValue::Str(s) => s.clone(),
            _ => String::from_str("???"),
        },
        None => String::from_str("???"),
    }
}

/// The named message, level and timestamp fields are always excluded from
/// the extra-field block, whatever the user's own exclusion list says.
pub proof fn lemma_resolve_excludes_named_fields(c: Config)
    ensures
        spec_resolve(c).excluded_fields.contains(c.message_field@),
        spec_resolve(c).excluded_fields.contains(c.level_field@),
        spec_resolve(c).excluded_fields.contains(c.timestamp_field@),
{
    let ex = spec_resolve(c).excluded_fields;
    let n = ex.len();
    assert(ex[n - 3] == c.message_field@);
    assert(ex[n - 2] == c.level_field@);
    assert(ex[n - 1] == c.timestamp_field@);
}

} // verus!
