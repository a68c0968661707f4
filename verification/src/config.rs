//! The stored configuration profile: a default for every setting that has
//! one. It is loaded elsewhere and only read here.

use crate::cli::{entries, Exclude, ExcludeEntry, OutputFormat};
use vstd::prelude::*;

verus! {

/// A fully populated configuration profile.
#[derive(Debug, PartialEq, Eq)]
pub struct Config {
    /// Maximum file size in bytes.
    pub max_size: u64,
    /// Maximum directory depth.
    pub max_depth: usize,
    /// What a run prints unless told otherwise.
    pub default_output_format: OutputFormat,
    /// Exclusion rules that apply to every run.
    pub default_excludes: Vec<Exclude>,
    /// The name of the tokenizer family.
    pub default_tokenizer: String,
    /// The model of a HuggingFace tokenizer.
    pub default_tokenizer_model: String,
}

/// The mathematical value of a [`Config`].
pub struct Profile {
    pub max_size: u64,
    pub max_depth: usize,
    pub default_output_format: OutputFormat,
    pub default_excludes: Seq<ExcludeEntry>,
    pub default_tokenizer: Seq<char>,
    pub default_tokenizer_model: Seq<char>,
}

impl View for Config {
    type V = Profile;

    open spec fn view(&self) -> Profile {
        Profile {
            max_size: self.max_size,
            max_depth: self.max_depth,
            default_output_format: self.default_output_format,
            default_excludes: entries(self.default_excludes@),
            default_tokenizer: self.default_tokenizer@,
            default_tokenizer_model: self.default_tokenizer_model@,
        }
    }
}

} // verus!
