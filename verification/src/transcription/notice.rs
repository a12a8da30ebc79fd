//! What is told when an engine or its live session fails during a recording.

use vstd::prelude::*;
use vstd::string::*;

use crate::devices::configuration::text_of;
use crate::text;

verus! {

/// What went wrong.
#[derive(Debug, Clone, Copy, PartialEq, Eq, Structural)]
pub enum Trouble {
    /// The engine could not be initialized: nothing is transcribed.
    EngineNotReady,
    /// The live session could not be opened.
    SessionNotOpened,
    /// The live session could not take a chunk in.
    ChunkNotTaken,
    /// The live session could not give its last rows.
    SessionNotFinished,
}

impl Trouble {
    /// What the user is told.
    pub open spec fn message(self) -> Seq<char> {
        match self {
            Trouble::EngineNotReady =>
                "Recording failed: Unable to initialize speech recognition. Please check your model settings."@,
            Trouble::SessionNotOpened => "SenseVoice 初始化失败，请重新开始录音。"@,
            Trouble::ChunkNotTaken => "部分录音转写失败，原录音已保留。"@,
            Trouble::SessionNotFinished => "最后一段转写未能保存，请保留原录音。"@,
        }
    }
}

/// Something that went wrong, and how. The user can always do something about it.
#[derive(Debug)]
pub struct TaskNotice {
    pub trouble: Trouble,
    pub error: String,
}

/// What a notice that may be missing stands for.
pub open spec fn notice_view(notice: Option<TaskNotice>) -> Option<(Trouble, Seq<char>)> {
    match notice {
        Some(notice) => Some((notice.trouble, notice.error@)),
        None => None,
    }
}

impl TaskNotice {
    /// What the user is told.
    pub fn user_message(&self) -> (r: &'static str)
        ensures
            r@ == self.trouble.message(),
    {
        match self.trouble {
            Trouble::EngineNotReady =>
                "Recording failed: Unable to initialize speech recognition. Please check your model settings.",
            Trouble::SessionNotOpened => "SenseVoice 初始化失败，请重新开始录音。",
            Trouble::ChunkNotTaken => "部分录音转写失败，原录音已保留。",
            Trouble::SessionNotFinished => "最后一段转写未能保存，请保留原录音。",
        }
    }

    /// What the writer of text is told: a recording with a failed session is not complete. Of an
    /// engine that is not ready it is told nothing.
    pub fn writer_error(&self) -> (r: Option<String>)
        ensures
            text_of(r) == if self.trouble == Trouble::EngineNotReady {
                None
            } else {
                Some(self.error@)
            },
    {
        match self.trouble {
            Trouble::EngineNotReady => None,
            _ => Some(self.error.clone()),
        }
    }

    /// What a measurement notes as its error.
    pub fn measurement_error(&self) -> (r: Option<String>)
        ensures
            text_of(r) == if self.trouble == Trouble::EngineNotReady {
                Some("failed to initialize transcription engine: "@ + self.error@)
            } else {
                None
            },
    {
        match self.trouble {
            Trouble::EngineNotReady => Some(
                text::joined("failed to initialize transcription engine: ", self.error.as_str()),
            ),
            _ => None,
        }
    }

    /// The error with which a measurement ends the inference and the writing of the chunks.
    pub fn chunk_error(&self) -> (r: Option<String>)
        ensures
            text_of(r) == if self.trouble == Trouble::ChunkNotTaken {
                Some(self.error@)
            } else {
                None
            },
    {
        match self.trouble {
            Trouble::ChunkNotTaken => Some(self.error.clone()),
            _ => None,
        }
    }
}

} // verus!
