//! Finding the audio of a meeting and the model to transcribe it with.

use vstd::prelude::*;
use vstd::string::*;

use crate::outside::{lowercase, to_lowercase};
use crate::text;

verus! {

/// Names under which the audio of a meeting is stored, the preferred one first.
pub open spec fn candidate_names() -> Seq<Seq<char>> {
    seq![
        "audio.mp4"@,
        "audio.m4a"@,
        "audio.wav"@,
        "audio.mp3"@,
        "audio.flac"@,
        "audio.ogg"@,
        "recording.mp4"@,
        "audio.mkv"@,
        "audio.webm"@,
        "audio.wma"@,
    ]
}

/// Names under which the audio of a meeting is stored, the preferred one first.
pub fn audio_candidates() -> (r: Vec<&'static str>)
    ensures
        r@.len() == candidate_names().len(),
        forall|i: int| 0 <= i < r@.len() ==> (#[trigger] r@[i])@ == candidate_names()[i],
{
    let mut r: Vec<&'static str> = Vec::new();
    r.push("audio.mp4");
    r.push("audio.m4a");
    r.push("audio.wav");
    r.push("audio.mp3");
    r.push("audio.flac");
    r.push("audio.ogg");
    r.push("recording.mp4");
    r.push("audio.mkv");
    r.push("audio.webm");
    r.push("audio.wma");
    r
}

/// The extensions of audio files, in small letters.
pub open spec fn is_audio_extension(extension: Seq<char>) -> bool {
    ||| extension == "mp4"@
    ||| extension == "m4a"@
    ||| extension == "wav"@
    ||| extension == "mp3"@
    ||| extension == "flac"@
    ||| extension == "ogg"@
    ||| extension == "aac"@
    ||| extension == "mkv"@
    ||| extension == "webm"@
    ||| extension == "wma"@
}

/// Whether an extension in small letters is that of an audio file.
pub fn audio_extension(extension: &str) -> (r: bool)
    ensures
        r == is_audio_extension(extension@),
{
    text::same(extension, "mp4") || text::same(extension, "m4a") || text::same(extension, "wav")
        || text::same(extension, "mp3") || text::same(extension, "flac") || text::same(
        extension, "ogg") || text::same(extension, "aac") || text::same(extension, "mkv")
        || text::same(extension, "webm") || text::same(extension, "wma")
}

/// Position `i` holds the last dot of a file name, which does not begin with it.
pub open spec fn is_extension_dot(name: Seq<char>, i: int) -> bool {
    0 < i < name.len() && name[i] == '.' && forall|j: int| i < j < name.len() ==> name[j] != '.'
}

/// The extension of a file name: what follows its last dot, unless the name begins with it.
pub open spec fn extension_is(name: Seq<char>, extension: Option<Seq<char>>) -> bool {
    match extension {
        Some(extension) => exists|i: int| #[trigger]
            is_extension_dot(name, i) && extension == name.skip(i + 1),
        None => forall|i: int| !#[trigger] is_extension_dot(name, i),
    }
}

/// The extension of a file name.
pub fn extension_of(name: &str) -> (r: Option<String>)
    ensures
        extension_is(name@, crate::devices::configuration::text_of(r)),
{
    let chars = text::chars_of(name);
    let mut i: usize = chars.len();
    while i > 1
        invariant
            chars@ == name@,
            i <= chars@.len(),
            forall|j: int| i <= j < chars@.len() ==> chars@[j] != '.',
        decreases i,
    {
        i = i - 1;
        if chars[i] == '.' {
            let r = text::string_of(&chars, i + 1, chars.len());
            assert(is_extension_dot(name@, i as int));
            assert(chars@.subrange(i + 1, chars@.len() as int) =~= name@.skip(i + 1));
            return Some(r);
        }
    }
    None
}

/// Which file holds the audio of a meeting.
#[derive(Debug, Clone, Copy, PartialEq, Eq, Structural)]
pub enum AudioFile {
    /// The usual name at this position.
    Candidate(usize),
    /// The file at this position of the folder.
    Entry(usize),
}

/// Position `i` is the first that holds.
pub open spec fn first_true(flags: Seq<bool>, i: int) -> bool {
    0 <= i < flags.len() && flags[i] && forall|j: int| 0 <= j < i ==> !flags[j]
}

/// What is picked where these usual names exist and these files are audio.
pub open spec fn is_picked(
    present: Seq<bool>,
    is_audio: Seq<bool>,
    picked: Option<AudioFile>,
) -> bool {
    match picked {
        Some(AudioFile::Candidate(i)) => first_true(present, i as int),
        Some(AudioFile::Entry(i)) => !present.contains(true) && first_true(is_audio, i as int),
        None => !present.contains(true) && !is_audio.contains(true),
    }
}

/// Picks the audio of a meeting: the preferred usual name that exists, else the first file of the
/// folder that is audio by its extension. `is_audio` says which files are.
pub fn pick_audio_file(present: &Vec<bool>, is_audio: &Vec<bool>) -> (r: Option<AudioFile>)
    ensures
        is_picked(present@, is_audio@, r),
        match r {
            Some(AudioFile::Candidate(i)) => first_true(present@, i as int),
            Some(AudioFile::Entry(i)) => !present@.contains(true) && first_true(is_audio@, i as int),
            None => !present@.contains(true) && !is_audio@.contains(true),
        },
{
    let mut i: usize = 0;
    while i < present.len()
        invariant
            i <= present@.len(),
            forall|j: int| 0 <= j < i ==> !present@[j],
        decreases present@.len() - i,
    {
        if present[i] {
            return Some(AudioFile::Candidate(i));
        }
        i = i + 1;
    }
    let mut k: usize = 0;
    while k < is_audio.len()
        invariant
            k <= is_audio@.len(),
            forall|j: int| 0 <= j < present@.len() ==> !present@[j],
            forall|j: int| 0 <= j < k ==> !is_audio@[j],
        decreases is_audio@.len() - k,
    {
        if is_audio[k] {
            return Some(AudioFile::Entry(k));
        }
        k = k + 1;
    }
    None
}

/// A file is audio by its extension, in capitals or small letters.
pub open spec fn is_audio_file(name: Seq<char>) -> bool {
    exists|extension: Seq<char>|
        #[trigger] extension_is(name, Some(extension)) && is_audio_extension(lowercase(extension))
}

/// Whether a file is audio by its extension.
pub fn names_audio_file(name: &str) -> (r: bool)
    ensures
        r == is_audio_file(name@),
{
    match extension_of(name) {
        Some(extension) => {
            let lower = to_lowercase(extension.as_str());
            proof {
                assert forall|other: Seq<char>| #[trigger]
                    extension_is(name@, Some(other)) implies other == extension@ by {
                    let i = choose|i: int| #[trigger]
                        is_extension_dot(name@, i) && other == name@.skip(i + 1);
                    let k = choose|k: int| #[trigger]
                        is_extension_dot(name@, k) && extension@ == name@.skip(k + 1);
                    assert(i == k);
                }
            }
            audio_extension(lower.as_str())
        },
        None => false,
    }
}

/// Which of the files are audio by their extension.
pub open spec fn audio_flags(entries: Seq<String>) -> Seq<bool> {
    Seq::new(entries.len(), |i: int| is_audio_file(entries[i]@))
}

/// There is no audio in a folder.
#[derive(Debug, Clone, Copy, PartialEq, Eq, Structural)]
pub struct NoAudioFile;

impl NoAudioFile {
    pub fn message(&self, folder: &str) -> (r: String)
        ensures
            r@ == "No audio file found in: "@ + folder@,
    {
        text::joined("No audio file found in: ", folder)
    }
}

/// Finds the audio of a meeting. `present` says which of the usual names exist, and `entries` are
/// the names of the files in the folder.
pub fn find_audio_file(present: &Vec<bool>, entries: &Vec<String>) -> (r: Result<
    AudioFile,
    NoAudioFile,
>)
    ensures
        is_picked(
            present@,
            audio_flags(entries@),
            match r {
                Ok(file) => Some(file),
                Err(_) => None,
            },
        ),
        match r {
            Ok(AudioFile::Candidate(i)) => first_true(present@, i as int),
            Ok(AudioFile::Entry(i)) => !present@.contains(true) && first_true(
                audio_flags(entries@), i as int),
            Err(_) => !present@.contains(true) && !audio_flags(entries@).contains(true),
        },
{
    let mut flags: Vec<bool> = Vec::new();
    let mut i: usize = 0;
    while i < entries.len()
        invariant
            i <= entries@.len(),
            flags@.len() == i,
            forall|j: int| 0 <= j < i ==> flags@[j] == is_audio_file((#[trigger] entries@[j])@),
        decreases entries@.len() - i,
    {
        flags.push(names_audio_file(entries[i].as_str()));
        i = i + 1;
    }
    assert(flags@ =~= audio_flags(entries@));
    match pick_audio_file(present, &flags) {
        Some(file) => Ok(file),
        None => Err(NoAudioFile),
    }
}

/// Whether a model has to be loaded: another one is loaded, or none.
pub fn needs_load(current: &Option<String>, target: &str) -> (r: bool)
    ensures
        r == match *current {
            Some(loaded) => loaded@ != target@,
            None => true,
        },
{
    match current {
        Some(loaded) => !text::same(loaded.as_str(), target),
        None => true,
    }
}

/// The configured engine cannot transcribe a meeting again.
#[derive(Debug)]
pub struct WhisperRequired {
    pub provider: String,
}

impl WhisperRequired {
    pub fn message(&self) -> (r: String)
        ensures
            r@ == "Retranscription requires Whisper. Current provider '"@ + self.provider@
                + "' does not support retranscription with language selection."@,
    {
        let mut r = text::joined(
            "Retranscription requires Whisper. Current provider '", self.provider.as_str());
        r.append("' does not support retranscription with language selection.");
        r
    }
}

/// The Whisper model that is configured, or the default one where nothing is.
pub fn get_configured_whisper_model(setting: Option<(String, String)>, default_model: &str) -> (r:
    Result<String, WhisperRequired>)
    ensures
        match setting {
            None => r matches Ok(model) && model@ == default_model@,
            Some((provider, model)) => if provider@ == "localWhisper"@ || provider@ == "whisper"@ {
                r == Ok::<String, WhisperRequired>(model)
            } else {
                r matches Err(error) && error.provider == provider
            },
        },
{
    match setting {
        None => Ok(default_model.to_owned()),
        Some((provider, model)) => if text::same(provider.as_str(), "localWhisper") || text::same(
            provider.as_str(), "whisper") {
            Ok(model)
        } else {
            Err(WhisperRequired { provider })
        },
    }
}

/// The Parakeet model that is configured, or the default one where another engine is.
pub fn get_configured_parakeet_model(setting: Option<(String, String)>, default_model: &str) -> (r:
    String)
    ensures
        match setting {
            Some((provider, model)) if provider@ == "parakeet"@ => r == model,
            _ => r@ == default_model@,
        },
{
    match setting {
        Some((provider, model)) => if text::same(provider.as_str(), "parakeet") {
            model
        } else {
            default_model.to_owned()
        },
        None => default_model.to_owned(),
    }
}

/// A model, and whether it has to be loaded before it is used.
#[derive(Debug)]
pub struct ModelPlan {
    pub model: String,
    pub load: bool,
}

/// Why no model can be used.
#[derive(Debug)]
pub enum ModelError {
    EngineMissing,
    /// Which model is configured could not be told.
    NotConfigured(String),
    NotLoaded { model: String, error: String },
}

impl ModelError {
    /// The text that describes the failure of an engine.
    pub open spec fn text(self, engine: Seq<char>) -> Seq<char> {
        match self {
            ModelError::EngineMissing => engine + " engine not initialized"@,
            ModelError::NotConfigured(error) => error@,
            ModelError::NotLoaded { model, error } => "Failed to load "@ + engine + " model '"@
                + model@ + "': "@ + error@,
        }
    }

    pub fn message(&self, engine: &str) -> (r: String)
        ensures
            r@ == self.text(engine@),
    {
        match self {
            ModelError::EngineMissing => text::joined(engine, " engine not initialized"),
            ModelError::NotConfigured(error) => error.clone(),
            ModelError::NotLoaded { model, error } => {
                let mut r = text::joined("Failed to load ", engine);
                r.append(" model '");
                r.append(model.as_str());
                r.append("': ");
                r.append(error.as_str());
                r
            },
        }
    }
}

/// Which model an engine is to use: the one that was asked for, else the configured one. It is
/// loaded unless it is loaded already.
pub fn plan_model(
    initialized: bool,
    requested: Option<String>,
    configured: Result<String, String>,
    current: &Option<String>,
) -> (r: Result<ModelPlan, ModelError>)
    ensures
        match r {
            Ok(plan) => planned(initialized, requested, configured, *current) == Some(
                (plan.model@, plan.load)),
            Err(_) => planned(initialized, requested, configured, *current) is None,
        },
        match (initialized, requested, configured) {
            (false, _, _) => r == Err::<ModelPlan, ModelError>(ModelError::EngineMissing),
            (true, Some(model), _) | (true, None, Ok(model)) => r matches Ok(plan) && plan.model
                == model && plan.load == match *current {
                Some(loaded) => loaded@ != model@,
                None => true,
            },
            (true, None, Err(error)) => r == Err::<ModelPlan, ModelError>(
                ModelError::NotConfigured(error)),
        },
{
    if !initialized {
        return Err(ModelError::EngineMissing);
    }
    let model = match requested {
        Some(model) => model,
        None => match configured {
            Ok(model) => model,
            Err(error) => {
                return Err(ModelError::NotConfigured(error));
            },
        },
    };
    let load: bool = needs_load(current, model.as_str());
    Ok(ModelPlan { model, load })
}

/// The model was loaded, or not.
pub fn model_loaded(plan: ModelPlan, outcome: Result<(), String>) -> (r: Result<String, ModelError>)
    ensures
        r == match outcome {
            Ok(_) => Ok::<String, ModelError>(plan.model),
            Err(error) => Err::<String, ModelError>(
                ModelError::NotLoaded { model: plan.model, error }),
        },
{
    match outcome {
        Ok(_) => Ok(plan.model),
        Err(error) => Err(ModelError::NotLoaded { model: plan.model, error }),
    }
}

/// Law: where a usual name exists, the first of those that do is picked, whatever else is in the
/// folder; else the first file that is audio; and none only where there is none.
pub proof fn usual_names_come_first(
    present: Seq<bool>,
    is_audio: Seq<bool>,
    picked: Option<AudioFile>,
    i: int,
)
    requires
        is_picked(present, is_audio, picked),
    ensures
        0 <= i < present.len() && present[i] ==> (picked matches Some(AudioFile::Candidate(k))
            && k <= i && present[k as int]),
        (forall|j: int| 0 <= j < present.len() ==> !#[trigger] present[j]) && 0 <= i
            < is_audio.len() && is_audio[i] ==> (picked matches Some(AudioFile::Entry(k)) && k <= i
            && is_audio[k as int]),
        (forall|j: int| 0 <= j < present.len() ==> !#[trigger] present[j]) && (forall|j: int|
            0 <= j < is_audio.len() ==> !#[trigger] is_audio[j]) ==> picked is None,
{
    if 0 <= i < present.len() && present[i] {
        assert(present.contains(true));
    }
    if 0 <= i < is_audio.len() && is_audio[i] {
        assert(is_audio.contains(true));
    }
}

/// Law: a file is audio by what stands behind its last dot, unless that dot begins its name.
pub proof fn extensions_follow_the_last_dot(stem: Seq<char>, extension: Seq<char>)
    requires
        stem.len() > 0,
        forall|i: int| 0 <= i < extension.len() ==> #[trigger] extension[i] != '.',
    ensures
        extension_is(stem.push('.') + extension, Some(extension)),
        is_audio_extension(lowercase(extension)) ==> is_audio_file(stem.push('.') + extension),
        forall|other: Seq<char>| #[trigger]
            extension_is(stem.push('.') + extension, Some(other)) ==> other == extension,
{
    let name = stem.push('.') + extension;
    assert(name.skip(stem.len() as int + 1) =~= extension);
    assert forall|j: int| stem.len() < j < name.len() implies name[j] != '.' by {
        assert(name[j] == extension[j - stem.len() - 1]);
    }
    assert(is_extension_dot(name, stem.len() as int));
    assert forall|other: Seq<char>| #[trigger] extension_is(name, Some(other)) implies other
        == extension by {
        let i = choose|i: int| #[trigger] is_extension_dot(name, i) && other == name.skip(i + 1);
        if i < stem.len() {
            assert(name[stem.len() as int] == '.');
        }
        assert(i == stem.len());
    }
}

/// The model to transcribe with, and whether it has to be loaded; none where there is no engine or
/// no model.
pub open spec fn planned(
    initialized: bool,
    requested: Option<String>,
    configured: Result<String, String>,
    current: Option<String>,
) -> Option<(Seq<char>, bool)> {
    match (initialized, requested, configured) {
        (false, _, _) => None,
        (true, Some(model), _) | (true, None, Ok(model)) => Some(
            (
                model@,
                match current {
                    Some(loaded) => loaded@ != model@,
                    None => true,
                },
            ),
        ),
        (true, None, Err(_)) => None,
    }
}

/// Law: the model that is asked for is used, else the configured one; it is loaded exactly when it
/// is not the one that is, and without an engine there is none.
pub proof fn the_requested_model_is_used(
    model: String,
    configured: Result<String, String>,
    loaded: String,
    requested: Option<String>,
)
    ensures
        planned(true, Some(model), configured, None) == Some((model@, true)),
        planned(true, Some(model), configured, Some(loaded)) == Some(
            (model@, loaded@ != model@)),
        planned(true, None, Ok(model), Some(model)) == Some((model@, false)),
        planned(true, None, Ok(model), None) == Some((model@, true)),
        planned(false, requested, configured, Some(loaded)) is None,
        configured is Err ==> planned(true, None, configured, Some(loaded)) is None,
{
}

} // verus!
