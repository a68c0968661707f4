//! What holds of every resolution, whatever the command line supplied and
//! whatever the configuration profile stores.

use crate::cli::{Settings, TokenizerType};
use crate::config::Profile;
use crate::resolve::resolve;
use vstd::prelude::*;

verus! {

/// A setting with a stored default is the command line's value where the
/// command line gave one, whatever the profile stores, and the profile's
/// default where it gave none. This holds of the size bound, the depth
/// bound and the output format alike.
pub proof fn lemma_supplied_value_overrides_default(supplied: Settings, profile: Profile)
    ensures
        supplied.max_size is Some ==> resolve(supplied, profile).max_size == supplied.max_size,
        supplied.max_size is None ==> resolve(supplied, profile).max_size == Some(
            profile.max_size,
        ),
        supplied.max_depth is Some ==> resolve(supplied, profile).max_depth == supplied.max_depth,
        supplied.max_depth is None ==> resolve(supplied, profile).max_depth == Some(
            profile.max_depth,
        ),
        supplied.output is Some ==> resolve(supplied, profile).output == supplied.output,
        supplied.output is None ==> resolve(supplied, profile).output == Some(
            profile.default_output_format,
        ),
{
}

/// The exclusion rules of a run are those of the command line followed by
/// those of the profile, each group in its own order. Where the command
/// line gave none at all, they are exactly the profile's.
pub proof fn lemma_excludes_are_concatenated(supplied: Settings, profile: Profile)
    ensures
        supplied.exclude is Some ==> resolve(supplied, profile).exclude == Some(
            supplied.exclude->0 + profile.default_excludes,
        ),
        supplied.exclude is None ==> resolve(supplied, profile).exclude == Some(
            profile.default_excludes,
        ),
{
}

/// No rule is lost, repeated or moved by resolution: the result is as long
/// as both sources together, each rule of the command line keeps its place,
/// and each rule of the profile follows at its own place.
pub proof fn lemma_excludes_keep_every_rule(supplied: Settings, profile: Profile)
    requires
        supplied.exclude is Some,
    ensures
        resolve(supplied, profile).exclude->0.len() == supplied.exclude->0.len()
            + profile.default_excludes.len(),
        forall|i: int|
            0 <= i < supplied.exclude->0.len() ==> resolve(supplied, profile).exclude->0[i]
                == supplied.exclude->0[i],
        forall|j: int|
            0 <= j < profile.default_excludes.len() ==> resolve(
                supplied,
                profile,
            ).exclude->0[supplied.exclude->0.len() + j] == profile.default_excludes[j],
{
}

/// Where tokens are counted and the command line named no tokenizer family,
/// the family follows the profile's tokenizer name: HuggingFace for the name
/// `huggingface`, Tiktoken for every other name.
pub proof fn lemma_tokenizer_follows_profile_name(supplied: Settings, profile: Profile)
    requires
        !supplied.no_tokens,
        supplied.tokenizer is None,
    ensures
        profile.default_tokenizer == "huggingface"@ ==> resolve(supplied, profile).tokenizer
            == Some(TokenizerType::HuggingFace),
        profile.default_tokenizer != "huggingface"@ ==> resolve(supplied, profile).tokenizer
            == Some(TokenizerType::Tiktoken),
{
}

/// Where tokens are counted, a tokenizer family that the command line
/// named is kept, whatever the profile stores.
pub proof fn lemma_supplied_tokenizer_is_kept(supplied: Settings, profile: Profile)
    requires
        !supplied.no_tokens,
        supplied.tokenizer is Some,
    ensures
        resolve(supplied, profile).tokenizer == supplied.tokenizer,
{
}

/// A tokenizer file given on the command line takes precedence over any
/// model: the resolved settings hold the file and no model, whatever model
/// the command line named and whatever the profile stores.
pub proof fn lemma_tokenizer_file_excludes_model(supplied: Settings, profile: Profile)
    requires
        supplied.tokenizer_file is Some,
    ensures
        resolve(supplied, profile).tokenizer_file == supplied.tokenizer_file,
        resolve(supplied, profile).model is None,
{
}

/// Resolved settings never hold both a model and a tokenizer file, and
/// hold neither a family nor a model where tokens are not counted.
pub proof fn lemma_never_both_model_and_file(supplied: Settings, profile: Profile)
    ensures
        !(resolve(supplied, profile).model is Some && resolve(supplied, profile).tokenizer_file
            is Some),
        resolve(supplied, profile).is_consistent(),
{
}

/// Where tokens are counted and no tokenizer file was given, the model is
/// the one that the command line named; where it named none, it is the
/// profile's for the HuggingFace family and absent for any other.
pub proof fn lemma_default_model_only_for_huggingface(supplied: Settings, profile: Profile)
    requires
        !supplied.no_tokens,
        supplied.tokenizer_file is None,
    ensures
        supplied.model is Some ==> resolve(supplied, profile).model == supplied.model,
        supplied.model is None && resolve(supplied, profile).tokenizer == Some(
            TokenizerType::HuggingFace,
        ) ==> resolve(supplied, profile).model == Some(profile.default_tokenizer_model),
        supplied.model is None && resolve(supplied, profile).tokenizer != Some(
            TokenizerType::HuggingFace,
        ) ==> resolve(supplied, profile).model is None,
{
}

/// Where tokens are not counted, the resolved settings hold neither a
/// tokenizer family nor a model, whatever the command line named and
/// whatever the profile stores.
pub proof fn lemma_no_tokens_leaves_tokenizer_absent(supplied: Settings, profile: Profile)
    requires
        supplied.no_tokens,
    ensures
        resolve(supplied, profile).tokenizer is None,
        resolve(supplied, profile).model is None,
{
}

/// After resolution every setting with a stored default is present, the
/// exclusion rules are present, and a tokenizer family is present wherever
/// tokens are counted. The rules are empty only where both sources are.
pub proof fn lemma_resolved_settings_are_complete(supplied: Settings, profile: Profile)
    ensures
        resolve(supplied, profile).is_complete(),
        resolve(supplied, profile).exclude->0.len() == 0 <==> profile.default_excludes.len() == 0
            && (supplied.exclude is Some ==> supplied.exclude->0.len() == 0),
{
}

/// Settings without a stored default pass through resolution unchanged.
pub proof fn lemma_other_settings_pass_through(supplied: Settings, profile: Profile)
    ensures
        resolve(supplied, profile).paths == supplied.paths,
        resolve(supplied, profile).config_path == supplied.config_path,
        resolve(supplied, profile).include_patterns == supplied.include_patterns,
        resolve(supplied, profile).file == supplied.file,
        resolve(supplied, profile).print == supplied.print,
        resolve(supplied, profile).threads == supplied.threads,
        resolve(supplied, profile).hidden == supplied.hidden,
        resolve(supplied, profile).no_ignore == supplied.no_ignore,
        resolve(supplied, profile).no_tokens == supplied.no_tokens,
        resolve(supplied, profile).tokenizer_file == supplied.tokenizer_file,
        resolve(supplied, profile).interactive == supplied.interactive,
        resolve(supplied, profile).pdf == supplied.pdf,
{
}

} // verus!
