//! Two small text utilities for machine-generated text: stripping the
//! asterisk artifacts that generators leave behind, and the decisions around
//! a round trip to a translation backend.
mod greeting;
mod sanitize;
mod translate;

pub use greeting::hello_from_bin;
pub use sanitize::{
    lemma_sanitize_idempotent, lemma_sanitize_keeps_clean_text, lemma_sanitize_removes_every_marker,
    remove_gen_waste, strip_marker, MARKER,
};
pub use translate::{
    default_request, default_target, target_for, translation_outcome, translation_request,
    TranslationError, TranslationRequest,
};
