mod bridge;
mod config;
mod json;
mod laws;
mod level;
mod number;
mod render;
mod transformer;

pub use bridge::QueryModel;
pub use bridge::QueryOutcome;
pub use bridge::parsed_object;
pub use bridge::query_outcome;
pub use bridge::serde_view;
pub use config::Config;
pub use json::JsonModel;
pub use json::JsonValue;
pub use json::format_value;
pub use json::is_empty_collection;
pub use json::spec_empty_collection;
pub use level::level_color;
pub use number::whole_seconds;
pub use render::ColorTag;
pub use render::PlanModel;
pub use render::RenderPlan;
pub use render::Segment;
pub use render::SegmentModel;
pub use laws::lemma_extras_skip_excluded;
pub use laws::lemma_gate_bad_query_fatal;
pub use laws::lemma_gate_empty_match_drops;
pub use laws::lemma_level_filter;
pub use laws::lemma_message_verbatim;
pub use laws::lemma_missing_level_fallback;
pub use laws::lemma_spacing;
pub use transformer::LogTransformer;
pub use transformer::Output;
pub use transformer::OutputModel;
pub use transformer::spec_decide;
pub use transformer::spec_decide_selected;
pub use transformer::spec_pairs_opt;
pub use transformer::spec_extract_text;
pub use transformer::spec_extras;
pub use transformer::spec_plan;
pub use transformer::spec_timestamp_seconds;
pub use transformer::ts_admissible;
pub use transformer::TransformerModel;
pub use transformer::spec_resolve;
pub use transformer::lemma_resolve_excludes_named_fields;
