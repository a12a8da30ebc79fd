//! The Parakeet engine.

use vstd::prelude::*;

use crate::text;
use crate::transcription::provider::{
    conclude_plain_text, stated_language, str_view, trim_language, Failure, TranscriptResult,
    TranscriptionError,
};

verus! {

/// Parakeet detects the language by itself: a preference must be absent or ask for detection.
pub open spec fn parakeet_accepts(language: Option<Seq<char>>) -> bool {
    match stated_language(language) {
        Some(value) => text::lowered(value) == text::lowered("auto"@),
        None => true,
    }
}

/// Rejects a language preference that Parakeet would silently ignore.
pub fn validate_parakeet_language(language: Option<&str>) -> (r: Result<(), TranscriptionError>)
    ensures
        r is Ok <==> parakeet_accepts(str_view(language)),
        r matches Err(error) ==> stated_language(str_view(language)) matches Some(value) && error@
            == Failure::UnsupportedLanguage(value),
{
    match trim_language(language) {
        None => Ok(()),
        Some(value) => if text::same_ignoring_ascii_case(value.as_str(), "auto") {
            Ok(())
        } else {
            Err(TranscriptionError::UnsupportedLanguage(value))
        },
    }
}

/// A Parakeet engine as a transcription provider.
#[derive(Debug)]
pub struct ParakeetProvider<E> {
    pub engine: E,
}

impl<E> ParakeetProvider<E> {
    pub fn new(engine: E) -> (r: Self)
        ensures
            r.engine == engine,
    {
        ParakeetProvider { engine }
    }

    /// The outcome of a request: the language is checked first, then `reply` is what the engine
    /// made of the audio.
    pub fn transcribe(&self, language: Option<&str>, reply: Result<String, String>) -> (r: Result<
        TranscriptResult,
        TranscriptionError,
    >)
        ensures
            !parakeet_accepts(str_view(language)) ==> (stated_language(
                str_view(language)) matches Some(value) && r matches Err(e) && e@
                == Failure::UnsupportedLanguage(value)),
            parakeet_accepts(str_view(language)) ==> match reply {
                Ok(text) => r matches Ok(result) && result.text@ == text::trimmed(text@)
                    && result.confidence_bits is None && !result.is_partial,
                Err(error) => r matches Err(e) && e@ == Failure::EngineFailed(error@),
            },
    {
        match validate_parakeet_language(language) {
            Ok(()) => conclude_plain_text(reply),
            Err(error) => Err(error),
        }
    }

    pub fn provider_name(&self) -> (r: &'static str)
        ensures
            r@ == "Parakeet"@,
    {
        "Parakeet"
    }
}

} // verus!
