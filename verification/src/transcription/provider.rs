//! What every transcription engine has in common.

use vstd::prelude::*;

verus! {

/// Why audio was not transcribed.
#[derive(Debug)]
pub enum TranscriptionError {
    ModelNotLoaded,
    AudioTooShort { samples: usize, minimum: usize },
    EngineFailed(String),
    UnsupportedLanguage(String),
}

/// What a `TranscriptionError` stands for.
pub enum Failure {
    ModelNotLoaded,
    AudioTooShort { samples: nat, minimum: nat },
    EngineFailed(Seq<char>),
    UnsupportedLanguage(Seq<char>),
}

impl View for TranscriptionError {
    type V = Failure;

    open spec fn view(&self) -> Failure {
        match *self {
            TranscriptionError::ModelNotLoaded => Failure::ModelNotLoaded,
            TranscriptionError::AudioTooShort { samples, minimum } => Failure::AudioTooShort {
                samples: samples as nat,
                minimum: minimum as nat,
            },
            TranscriptionError::EngineFailed(error) => Failure::EngineFailed(error@),
            TranscriptionError::UnsupportedLanguage(language) => Failure::UnsupportedLanguage(
                language@,
            ),
        }
    }
}

/// What an engine made of a piece of audio. The confidence is the bit pattern of a 32-bit float.
#[derive(Debug)]
pub struct TranscriptResult {
    pub text: String,
    pub confidence_bits: Option<u32>,
    pub is_partial: bool,
}

/// What a language preference says once it is trimmed; a blank one says nothing.
pub open spec fn stated_language(language: Option<Seq<char>>) -> Option<Seq<char>> {
    match language {
        Some(value) => if crate::text::trimmed(value).len() == 0 {
            None
        } else {
            Some(crate::text::trimmed(value))
        },
        None => None,
    }
}

/// What an optional borrowed text stands for.
pub open spec fn str_view(s: Option<&str>) -> Option<Seq<char>> {
    match s {
        Some(s) => Some(s@),
        None => None,
    }
}

/// Trims a language preference; a blank one says nothing.
pub fn trim_language(language: Option<&str>) -> (r: Option<String>)
    ensures
        match r {
            Some(value) => stated_language(str_view(language)) == Some(value@),
            None => stated_language(str_view(language)) is None,
        },
{
    match language {
        Some(value) => {
            let trimmed = crate::text::trim(value);
            if trimmed.as_str().is_empty() {
                None
            } else {
                Some(trimmed)
            }
        },
        None => None,
    }
}

/// The outcome of an engine that gives neither confidence nor partial results.
pub fn conclude_plain_text(reply: Result<String, String>) -> (r: Result<
    TranscriptResult,
    TranscriptionError,
>)
    ensures
        match reply {
            Ok(text) => r matches Ok(result) && result.text@ == crate::text::trimmed(text@)
                && result.confidence_bits is None && !result.is_partial,
            Err(error) => r matches Err(e) && e@ == Failure::EngineFailed(error@),
        },
{
    match reply {
        Ok(text) => Ok(
            TranscriptResult {
                text: crate::text::trim(text.as_str()),
                confidence_bits: None,
                is_partial: false,
            },
        ),
        Err(error) => Err(TranscriptionError::EngineFailed(error)),
    }
}

} // verus!
