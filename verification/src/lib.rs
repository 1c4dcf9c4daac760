//! A thin, verified convenience layer over interactive terminal prompts:
//! styled labels, default-selection resolution, pre-check resolution, and
//! index-to-value mapping for single- and multi-selection. The blocking
//! terminal interaction itself is left to an unverified front end that calls
//! into this crate for every decision.

mod dialog;
mod enumerable;
mod style;

pub use dialog::{
    are_checked_flags, effective_default, has_match, is_default_index, opt_view,
    lemma_checked_flags_unique, lemma_default_index_unique, spec_is_checked,
    spec_is_checked_str, spec_reorder, str_views, Dialog, MultiSelectPlan, SelectPlan,
    StrMultiSelectPlan, StrSelectPlan,
};
pub use enumerable::{Confirmation, Enumerable};
pub use style::{spec_resolve, Color, Style};
