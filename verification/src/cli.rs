//! The option surface: every setting an invocation can carry, and the two
//! decisions that are made while the raw tokens are read.

use crate::path::{path_from_str, path_of};
use crate::text::str_eq;
use std::path::PathBuf;
use vstd::prelude::*;
use vstd::string::StringExecFns;

verus! {

/// What the run prints: the directory tree, the file contents, or both.
#[derive(Debug, Clone, Copy, PartialEq, Eq, Structural)]
pub enum OutputFormat {
    Tree,
    Files,
    Both,
}

/// The family of tokenizer that counts tokens.
#[derive(Debug, Clone, Copy, PartialEq, Eq, Structural)]
pub enum TokenizerType {
    Tiktoken,
    HuggingFace,
}

/// The tokenizer that a stored tokenizer name stands for: the name
/// `huggingface` selects HuggingFace, every other name Tiktoken.
pub open spec fn tokenizer_named(name: Seq<char>) -> TokenizerType {
    if name == "huggingface"@ {
        TokenizerType::HuggingFace
    } else {
        TokenizerType::Tiktoken
    }
}

impl TokenizerType {
    /// Reads a stored tokenizer name. A name that is not recognised is no
    /// error: it selects Tiktoken.
    pub fn from_config_name(name: &str) -> (kind: TokenizerType)
        ensures
            kind == tokenizer_named(name@),
    {
        if str_eq(name, "huggingface") {
            TokenizerType::HuggingFace
        } else {
            TokenizerType::Tiktoken
        }
    }
}

/// One exclusion rule: a literal filesystem entry, or a glob pattern.
#[derive(Debug, PartialEq, Eq)]
pub enum Exclude {
    File(PathBuf),
    Pattern(String),
}

/// The mathematical value of an [`Exclude`].
pub enum ExcludeEntry {
    File(PathBuf),
    Pattern(Seq<char>),
}

impl View for Exclude {
    type V = ExcludeEntry;

    open spec fn view(&self) -> ExcludeEntry {
        match self {
            Exclude::File(path) => ExcludeEntry::File(*path),
            Exclude::Pattern(pattern) => ExcludeEntry::Pattern(pattern@),
        }
    }
}

impl Clone for Exclude {
    fn clone(&self) -> (copy: Self)
        ensures
            copy == *self,
    {
        match self {
            Exclude::File(path) => Exclude::File(path.clone()),
            Exclude::Pattern(pattern) => Exclude::Pattern(pattern.clone()),
        }
    }
}

/// The values of a list of exclusion rules, in the list's order.
pub open spec fn entries(rules: Seq<Exclude>) -> Seq<ExcludeEntry> {
    rules.map_values(|rule: Exclude| rule@)
}

/// Every setting of one invocation. Before resolution it holds what the
/// command line supplied; after resolution it is the authoritative record
/// of the run.
#[derive(Debug, PartialEq, Eq)]
pub struct Cli {
    /// Files or directories to analyze.
    pub paths: Vec<PathBuf>,
    /// Report where the configuration is stored, and do nothing else.
    pub config_path: bool,
    /// Additional patterns to take in.
    pub include_patterns: Option<Vec<String>>,
    /// Additional entries to exclude.
    pub exclude: Option<Vec<Exclude>>,
    /// Maximum file size in bytes.
    pub max_size: Option<u64>,
    /// Maximum directory depth.
    pub max_depth: Option<usize>,
    /// What the run prints.
    pub output: Option<OutputFormat>,
    /// Where the output is written.
    pub file: Option<PathBuf>,
    /// Print to standard output.
    pub print: bool,
    /// Number of worker threads, for those who scan and count.
    pub threads: Option<usize>,
    /// Show hidden files and directories.
    pub hidden: bool,
    /// Do not respect ignore files.
    pub no_ignore: bool,
    /// Do not count tokens.
    pub no_tokens: bool,
    /// The tokenizer family.
    pub tokenizer: Option<TokenizerType>,
    /// The model of a HuggingFace tokenizer.
    pub model: Option<String>,
    /// A tokenizer file on disk.
    pub tokenizer_file: Option<PathBuf>,
    /// Interactive mode.
    pub interactive: bool,
    /// Where a PDF rendering is written.
    pub pdf: Option<PathBuf>,
}

/// The mathematical value of a [`Cli`].
pub struct Settings {
    pub paths: Seq<PathBuf>,
    pub config_path: bool,
    pub include_patterns: Option<Seq<Seq<char>>>,
    pub exclude: Option<Seq<ExcludeEntry>>,
    pub max_size: Option<u64>,
    pub max_depth: Option<usize>,
    pub output: Option<OutputFormat>,
    pub file: Option<PathBuf>,
    pub print: bool,
    pub threads: Option<usize>,
    pub hidden: bool,
    pub no_ignore: bool,
    pub no_tokens: bool,
    pub tokenizer: Option<TokenizerType>,
    pub model: Option<Seq<char>>,
    pub tokenizer_file: Option<PathBuf>,
    pub interactive: bool,
    pub pdf: Option<PathBuf>,
}

impl Settings {
    /// Whether nothing that resolution fills in is missing: the size bound,
    /// the depth bound, the output format and the exclusion rules are
    /// present, and so is the tokenizer family wherever tokens are counted.
    pub open spec fn is_complete(self) -> bool {
        &&& self.max_size is Some
        &&& self.max_depth is Some
        &&& self.output is Some
        &&& self.exclude is Some
        &&& !self.no_tokens ==> self.tokenizer is Some
    }

    /// Whether the tokenizer settings agree with each other: where tokens
    /// are not counted there is neither a family nor a model, and a model
    /// never stands beside a tokenizer file.
    pub open spec fn is_consistent(self) -> bool {
        &&& self.no_tokens ==> self.tokenizer is None && self.model is None
        &&& !(self.model is Some && self.tokenizer_file is Some)
    }
}

impl View for Cli {
    type V = Settings;

    open spec fn view(&self) -> Settings {
        Settings {
            paths: self.paths@,
            config_path: self.config_path,
            include_patterns: self.include_patterns.deep_view(),
            exclude: match self.exclude {
                Some(rules) => Some(entries(rules@)),
                None => None,
            },
            max_size: self.max_size,
            max_depth: self.max_depth,
            output: self.output,
            file: self.file,
            print: self.print,
            threads: self.threads,
            hidden: self.hidden,
            no_ignore: self.no_ignore,
            no_tokens: self.no_tokens,
            tokenizer: self.tokenizer,
            model: match self.model {
                Some(name) => Some(name@),
                None => None,
            },
            tokenizer_file: self.tokenizer_file,
            interactive: self.interactive,
            pdf: self.pdf,
        }
    }
}

/// The message that rejects a path naming nothing on disk.
pub open spec fn missing_path_message(path: Seq<char>) -> Seq<char> {
    "Path '"@ + path + "' does not exist"@
}

/// The rule that a raw exclude token stands for: the literal entry where the
/// token names something on disk, a pattern otherwise. Existence decides
/// first, so a token that also reads as a glob is still a literal entry.
pub open spec fn classified(token: Seq<char>, exists: bool) -> ExcludeEntry {
    if exists {
        ExcludeEntry::File(path_of(token))
    } else {
        ExcludeEntry::Pattern(token)
    }
}

/// Accepts a path argument that names an existing filesystem entry and
/// rejects any other with a message naming it. `exists` is the answer of
/// the filesystem probe for `path`.
pub fn validate_path(path: &str, exists: bool) -> (outcome: Result<PathBuf, String>)
    ensures
        exists ==> outcome == Ok::<PathBuf, String>(path_of(path@)),
        !exists ==> outcome is Err && outcome->Err_0@ == missing_path_message(path@),
{
    if !exists {
        let mut message = String::from_str("Path '");
        message.append(path);
        message.append("' does not exist");
        return Err(message);
    }
    Ok(path_from_str(path))
}

/// Classifies a raw exclude token. `exists` is the answer of the filesystem
/// probe for `value`, made once, when the token is read. Never fails.
pub fn parse_exclude(value: &str, exists: bool) -> (parsed: Result<Exclude, String>)
    ensures
        parsed is Ok,
        parsed->Ok_0@ == classified(value@, exists),
{
    if exists {
        Ok(Exclude::File(path_from_str(value)))
    } else {
        Ok(Exclude::Pattern(value.to_owned()))
    }
}

} // verus!
