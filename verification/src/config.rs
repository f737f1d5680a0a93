use vstd::prelude::*;

verus! {

/// The options of one run, as the surrounding command line hands them over.
/// Every field has a default (see `Default`); `LogTransformer::new` resolves
/// a `Config` into the transformer's internal form.
pub struct Config {
    /// Name of the field holding the message text.
    pub message_field: String,
    /// Name of the field holding the level.
    pub level_field: String,
    /// Name of the field holding the timestamp, in whole seconds since the
    /// Unix epoch.
    pub timestamp_field: String,
    /// Further fields to leave out of the extra-field block.
    pub exclude_fields: Option<Vec<String>>,
    /// Separator printed between extra fields in inline mode.
    pub separator: String,
    /// Levels to keep; an empty or absent list keeps every level.
    pub filter_levels: Option<Vec<String>>,
    /// Print no extra fields at all.
    pub hide_extra_fields: bool,
    /// Emit no color codes.
    pub disable_colors: bool,
    /// Drop lines that are not JSON objects instead of echoing them.
    pub hide_non_json: bool,
    /// Print each extra field on a line of its own.
    pub multiline_fields: bool,
    /// Blank lines appended after each rendered record.
    pub spacing: u64,
    /// Query that reshapes the extra fields before display.
    pub select_query: Option<String>,
    /// Query that decides whether a record is shown at all.
    pub gate_query: Option<String>,
    /// Messages longer than this push the extra fields onto their own line.
    pub message_wrap_threshold: usize,
    /// Extra-field values longer than this get a line of their own in
    /// multiline mode.
    pub field_wrap_threshold: usize,
}

impl Default for Config {
    /// The stock configuration: `msg`/`level`/`ts` field names, `|`
    /// separator, no filters or queries, everything shown, wrap at 120.
    fn default() -> (r: Config)
        ensures
            r.message_field@ == "msg"@,
            r.level_field@ == "level"@,
            r.timestamp_field@ == "ts"@,
            r.exclude_fields is None,
            r.separator@ == "|"@,
            r.filter_levels is None,
            !r.hide_extra_fields,
            !r.disable_colors,
            !r.hide_non_json,
            !r.multiline_fields,
            r.spacing == 0,
            r.select_query is None,
            r.gate_query is None,
            r.message_wrap_threshold == 120,
            r.field_wrap_threshold == 120,
    {
        Config {
            message_field: String::from_str("msg"),
            level_field: String::from_str("level"),
            timestamp_field: String::from_str("ts"),
            exclude_fields: None,
            separator: String::from_str("|"),
            filter_levels: None,
            hide_extra_fields: false,
            disable_colors: false,
            hide_non_json: false,
            multiline_fields: false,
            spacing: 0,
            select_query: None,
            gate_query: None,
            message_wrap_threshold: 120,
            field_wrap_threshold: 120,
        }
    }
}

} // verus!
