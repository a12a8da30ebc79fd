//! The SenseVoice engine.

use vstd::prelude::*;

use crate::text;
use crate::transcription::provider::{
    conclude_plain_text, stated_language, str_view, trim_language, Failure, TranscriptResult,
    TranscriptionError,
};

verus! {

/// The languages of the checkpoint, and automatic detection.
pub open spec fn is_sensevoice_language(value: Seq<char>) -> bool {
    ||| text::lowered(value) == text::lowered("auto"@)
    ||| text::lowered(value) == text::lowered("zh"@)
    ||| text::lowered(value) == text::lowered("en"@)
    ||| text::lowered(value) == text::lowered("yue"@)
    ||| text::lowered(value) == text::lowered("ja"@)
    ||| text::lowered(value) == text::lowered("ko"@)
}

/// A preference must be absent or name something the checkpoint can honour.
pub open spec fn sensevoice_accepts(language: Option<Seq<char>>) -> bool {
    match stated_language(language) {
        Some(value) => is_sensevoice_language(value),
        None => true,
    }
}

/// Rejects a language preference that the checkpoint cannot honour.
pub fn validate_sensevoice_language(language: Option<&str>) -> (r: Result<(), TranscriptionError>)
    ensures
        r is Ok <==> sensevoice_accepts(str_view(language)),
        r matches Err(error) ==> stated_language(str_view(language)) matches Some(value) && error@
            == Failure::UnsupportedLanguage(value),
{
    match trim_language(language) {
        None => Ok(()),
        Some(value) => {
            let v = value.as_str();
            if text::same_ignoring_ascii_case(v, "auto") || text::same_ignoring_ascii_case(v, "zh")
                || text::same_ignoring_ascii_case(v, "en") || text::same_ignoring_ascii_case(
                v, "yue") || text::same_ignoring_ascii_case(v, "ja")
                || text::same_ignoring_ascii_case(v, "ko") {
                Ok(())
            } else {
                Err(TranscriptionError::UnsupportedLanguage(value))
            }
        },
    }
}

/// A SenseVoice engine as a transcription provider.
#[derive(Debug)]
pub struct SenseVoiceProvider<E> {
    pub engine: E,
}

impl<E> SenseVoiceProvider<E> {
    pub fn new(engine: E) -> (r: Self)
        ensures
            r.engine == engine,
    {
        SenseVoiceProvider { engine }
    }

    /// The outcome of a request: the language is checked first, then `reply` is what the engine
    /// made of the audio.
    pub fn transcribe(&self, language: Option<&str>, reply: Result<String, String>) -> (r: Result<
        TranscriptResult,
        TranscriptionError,
    >)
        ensures
            !sensevoice_accepts(str_view(language)) ==> (stated_language(
                str_view(language)) matches Some(value) && r matches Err(e) && e@
                == Failure::UnsupportedLanguage(value)),
            sensevoice_accepts(str_view(language)) ==> match reply {
                Ok(text) => r matches Ok(result) && result.text@ == text::trimmed(text@)
                    && result.confidence_bits is None && !result.is_partial,
                Err(error) => r matches Err(e) && e@ == Failure::EngineFailed(error@),
            },
    {
        match validate_sensevoice_language(language) {
            Ok(()) => conclude_plain_text(reply),
            Err(error) => Err(error),
        }
    }

    pub fn provider_name(&self) -> (r: &'static str)
        ensures
            r@ == "SenseVoice"@,
    {
        "SenseVoice"
    }
}

/// Law: without a language, or with a blank one, SenseVoice and Parakeet both detect it themselves.
/// Parakeet takes none but the word for that, SenseVoice also the five it knows, whatever the case
/// of their letters and the white space around them.
pub proof fn engines_take_the_languages_they_know(language: Seq<char>)
    ensures
        sensevoice_accepts(None),
        crate::transcription::parakeet_provider::parakeet_accepts(None),
        text::blank(language) ==> sensevoice_accepts(Some(language))
            && crate::transcription::parakeet_provider::parakeet_accepts(Some(language)),
        crate::transcription::parakeet_provider::parakeet_accepts(Some(language))
            ==> sensevoice_accepts(Some(language)),
        !text::blank(language) ==> {
            let known = text::lowered(text::trimmed(language));
            &&& crate::transcription::parakeet_provider::parakeet_accepts(Some(language)) <==> known
                == seq!['a', 'u', 't', 'o']
            &&& sensevoice_accepts(Some(language)) <==> known == seq!['a', 'u', 't', 'o'] || known
                == seq!['z', 'h'] || known == seq!['e', 'n'] || known == seq!['y', 'u', 'e']
                || known == seq!['j', 'a'] || known == seq!['k', 'o']
        },
{
    text::blank_is_trimmed_to_nothing(language);
    reveal_strlit("auto");
    reveal_strlit("zh");
    reveal_strlit("en");
    reveal_strlit("yue");
    reveal_strlit("ja");
    reveal_strlit("ko");
    assert(text::lowered("auto"@) =~= seq!['a', 'u', 't', 'o']);
    assert(text::lowered("zh"@) =~= seq!['z', 'h']);
    assert(text::lowered("en"@) =~= seq!['e', 'n']);
    assert(text::lowered("yue"@) =~= seq!['y', 'u', 'e']);
    assert(text::lowered("ja"@) =~= seq!['j', 'a']);
    assert(text::lowered("ko"@) =~= seq!['k', 'o']);
}

} // verus!
