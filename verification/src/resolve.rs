//! Resolution: one authoritative record of settings out of what the command
//! line supplied and what the configuration profile stores.

use crate::cli::{entries, tokenizer_named, Cli, Exclude, ExcludeEntry, Settings, TokenizerType};
use crate::config::{Config, Profile};
use vstd::prelude::*;

verus! {

/// The first value that is present: the supplied one, else the default.
pub open spec fn supplied_or<T>(supplied: Option<T>, default: T) -> T {
    match supplied {
        Some(value) => value,
        None => default,
    }
}

/// The exclusion rules of a run: those of the command line, in their order,
/// followed by those of the profile, in theirs. Nothing is dropped and
/// nothing is moved.
pub open spec fn merged_excludes(
    supplied: Option<Seq<ExcludeEntry>>,
    defaults: Seq<ExcludeEntry>,
) -> Seq<ExcludeEntry> {
    match supplied {
        Some(chosen) => chosen + defaults,
        None => defaults,
    }
}

/// The tokenizer family of a run. Where tokens are not counted there is
/// none, whatever the command line named. Where they are counted it is the
/// family that the command line named, else the one that the profile's
/// tokenizer name stands for.
pub open spec fn resolved_tokenizer(supplied: Settings, profile: Profile) -> Option<TokenizerType> {
    if supplied.no_tokens {
        None
    } else {
        Some(supplied_or(supplied.tokenizer, tokenizer_named(profile.default_tokenizer)))
    }
}

/// The tokenizer model of a run. There is none where tokens are not
/// counted, and none beside a tokenizer file: the file takes precedence.
/// Otherwise it is the model that the command line named, else, for the
/// HuggingFace family, the profile's.
pub open spec fn resolved_model(supplied: Settings, profile: Profile) -> Option<Seq<char>> {
    if supplied.no_tokens || supplied.tokenizer_file is Some {
        None
    } else if supplied.model is None && resolved_tokenizer(supplied, profile) == Some(
        TokenizerType::HuggingFace,
    ) {
        Some(profile.default_tokenizer_model)
    } else {
        supplied.model
    }
}

/// The settings of a run, given what the command line supplied and what the
/// profile stores. Every other field is that of the command line.
pub open spec fn resolve(supplied: Settings, profile: Profile) -> Settings {
    Settings {
        max_size: Some(supplied_or(supplied.max_size, profile.max_size)),
        max_depth: Some(supplied_or(supplied.max_depth, profile.max_depth)),
        output: Some(supplied_or(supplied.output, profile.default_output_format)),
        exclude: Some(merged_excludes(supplied.exclude, profile.default_excludes)),
        tokenizer: resolved_tokenizer(supplied, profile),
        model: resolved_model(supplied, profile),
        ..supplied
    }
}

/// What an invocation asks for.
#[derive(Debug, PartialEq, Eq)]
pub enum Invocation {
    /// Report where the configuration profile is stored, and nothing else.
    ShowConfigPath,
    /// Run with these resolved settings.
    Run(Cli),
}

/// The values of two lists of rules laid end to end are the values of the
/// first followed by the values of the second.
pub proof fn lemma_entries_of_concat(first: Seq<Exclude>, second: Seq<Exclude>)
    ensures
        entries(first + second) == entries(first) + entries(second),
{
    assert(entries(first + second) =~= entries(first) + entries(second));
}

impl Cli {
    /// Resolves the settings that the command line supplied against the
    /// configuration profile. The profile is only read.
    pub fn parse_with_config(self, config: &Config) -> (resolved: Cli)
        ensures
            resolved@ == resolve(self@, config@),
            resolved@.is_complete(),
            resolved@.is_consistent(),
    {
        let Cli {
            paths,
            config_path,
            include_patterns,
            exclude,
            max_size,
            max_depth,
            output,
            file,
            print,
            threads,
            hidden,
            no_ignore,
            no_tokens,
            tokenizer,
            model,
            tokenizer_file,
            interactive,
            pdf,
        } = self;

        let max_size = match max_size {
            Some(bytes) => bytes,
            None => config.max_size,
        };
        let max_depth = match max_depth {
            Some(levels) => levels,
            None => config.max_depth,
        };
        let output = match output {
            Some(format) => format,
            None => config.default_output_format,
        };

        let mut defaults = config.default_excludes.clone();
        let exclude = match exclude {
            Some(mut chosen) => {
                chosen.append(&mut defaults);
                proof {
                    lemma_entries_of_concat(self.exclude->0@, config.default_excludes@);
                }
                chosen
            },
            None => defaults,
        };

        let tokenizer = if no_tokens {
            None
        } else {
            match tokenizer {
                Some(family) => Some(family),
                None => Some(TokenizerType::from_config_name(config.default_tokenizer.as_str())),
            }
        };

        let model = if no_tokens || tokenizer_file.is_some() {
            None
        } else {
            match (model, tokenizer) {
                (None, Some(TokenizerType::HuggingFace)) => Some(
                    config.default_tokenizer_model.clone(),
                ),
                (model, _) => model,
            }
        };

        Cli {
            paths,
            config_path,
            include_patterns,
            exclude: Some(exclude),
            max_size: Some(max_size),
            max_depth: Some(max_depth),
            output: Some(output),
            file,
            print,
            threads,
            hidden,
            no_ignore,
            no_tokens,
            tokenizer,
            model,
            tokenizer_file,
            interactive,
            pdf,
        }
    }

    /// Decides what the invocation asks for. Where only the place of the
    /// configuration profile is asked for, nothing is resolved; otherwise
    /// the settings are resolved against the profile.
    pub fn into_invocation(self, config: &Config) -> (asked: Invocation)
        ensures
            self.config_path ==> asked is ShowConfigPath,
            !self.config_path ==> asked is Run && asked->Run_0@ == resolve(self@, config@),
    {
        if self.config_path {
            Invocation::ShowConfigPath
        } else {
            Invocation::Run(self.parse_with_config(config))
        }
    }
}

} // verus!
