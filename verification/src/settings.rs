//! Application settings: the validated configuration record and its rules.
//! Reading and writing the record to disk is the host's concern.

use vstd::prelude::*;
use crate::chunks::invalid_chunk_size_msg;
use crate::chunks::MAX_CHUNK_MINUTES;
use crate::chunks::MIN_CHUNK_MINUTES;
use crate::text::is_blank;
use crate::text::is_space_char;
use crate::text::views_of;

verus! {

/// The user-facing configuration.
#[derive(Clone, Debug)]
pub struct AppSettings {
    pub api_key: String,
    pub default_output_folder: Option<String>,
    pub preferred_languages: Vec<String>,
    pub chunk_duration_minutes: u32,
    pub max_retries: u8,
    pub source_language: String,
    pub target_language: Option<String>,
}

pub const MIN_RETRIES: u8 = 1;

pub const MAX_RETRIES: u8 = 10;

pub open spec fn invalid_retries_msg() -> Seq<char> {
    "Max retries must be between 1 and 10."@
}

pub open spec fn missing_source_language_msg() -> Seq<char> {
    "Source language is required."@
}

/// A source language made of nothing but blank space counts as missing.
pub open spec fn source_language_blank(s: AppSettings) -> bool {
    forall|j: int| 0 <= j < s.source_language@.len() ==> is_space_char(s.source_language@[j])
}

/// The rules a settings record must meet before it is persisted or used.
pub open spec fn settings_valid(s: AppSettings) -> bool {
    &&& MIN_CHUNK_MINUTES <= s.chunk_duration_minutes <= MAX_CHUNK_MINUTES
    &&& MIN_RETRIES <= s.max_retries <= MAX_RETRIES
    &&& !source_language_blank(s)
}

impl Default for AppSettings {
    /// The record a fresh installation starts from.
    fn default() -> (s: Self)
        ensures
            s.api_key@ == Seq::<char>::empty(),
            s.default_output_folder is None,
            s.preferred_languages@.len() == 0,
            s.chunk_duration_minutes == 20,
            s.max_retries == 3,
            s.source_language@ == "en"@,
            s.target_language is None,
    {
        AppSettings {
            api_key: String::new(),
            default_output_folder: None,
            preferred_languages: Vec::new(),
            chunk_duration_minutes: 20,
            max_retries: 3,
            source_language: "en".to_owned(),
            target_language: None,
        }
    }
}

impl AppSettings {
    /// Checks the record against the rules, reporting the first broken one:
    /// the chunk bound must lie in [5, 60] minutes, the retry bound in
    /// [1, 10], and a source language must be given.
    pub fn validate(&self) -> (r: Result<(), String>)
        ensures
            !(MIN_CHUNK_MINUTES <= self.chunk_duration_minutes <= MAX_CHUNK_MINUTES) ==> (
            r matches Err(e) && e@ == invalid_chunk_size_msg()),
            MIN_CHUNK_MINUTES <= self.chunk_duration_minutes <= MAX_CHUNK_MINUTES && !(MIN_RETRIES
                <= self.max_retries <= MAX_RETRIES) ==> (r matches Err(e) && e@
                == invalid_retries_msg()),
            MIN_CHUNK_MINUTES <= self.chunk_duration_minutes <= MAX_CHUNK_MINUTES && MIN_RETRIES
                <= self.max_retries <= MAX_RETRIES && source_language_blank(*self) ==> (
            r matches Err(e) && e@ == missing_source_language_msg()),
            r is Ok <==> settings_valid(*self),
    {
        if self.chunk_duration_minutes < MIN_CHUNK_MINUTES || self.chunk_duration_minutes
            > MAX_CHUNK_MINUTES {
            return Err("Chunk duration must be between 5 and 60 minutes.".to_owned());
        }
        if self.max_retries < MIN_RETRIES || self.max_retries > MAX_RETRIES {
            return Err("Max retries must be between 1 and 10.".to_owned());
        }
        if is_blank(self.source_language.as_str()) {
            return Err("Source language is required.".to_owned());
        }
        Ok(())
    }
}

/// Fills an empty preferred-language list with the supported codes; a
/// non-empty list, and every other field, is left as it is.
#[verifier::loop_isolation(false)]
pub fn apply_default_languages(settings: &mut AppSettings, supported: &Vec<String>)
    ensures
        old(settings).preferred_languages@.len() == 0 ==> {
            &&& views_of(final(settings).preferred_languages@) == views_of(
                supported@,
            )
            &&& final(settings).api_key == old(settings).api_key
            &&& final(settings).default_output_folder == old(settings).default_output_folder
            &&& final(settings).chunk_duration_minutes == old(settings).chunk_duration_minutes
            &&& final(settings).max_retries == old(settings).max_retries
            &&& final(settings).source_language == old(settings).source_language
            &&& final(settings).target_language == old(settings).target_language
        },
        old(settings).preferred_languages@.len() > 0 ==> *final(settings) == *old(settings),
{
    if settings.preferred_languages.len() == 0 {
        let mut filled: Vec<String> = Vec::new();
        let mut i: usize = 0;
        while i < supported.len()
            invariant
                0 <= i <= supported@.len(),
                filled@.len() == i,
                forall|j: int| 0 <= j < i ==> #[trigger] filled@[j]@ == supported@[j]@,
            decreases supported@.len() - i,
        {
            filled.push(supported[i].clone());
            i = i + 1;
        }
        settings.preferred_languages = filled;
        proof {
            assert(views_of(settings.preferred_languages@) =~= views_of(supported@));
        }
    }
}

} // verus!
