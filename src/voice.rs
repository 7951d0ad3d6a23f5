//! Settings of the voice transcription and the reply of the transcription service.
use vstd::prelude::*;
use vstd::string::*;

use crate::model::Api;
use crate::text::{replace_all, replace_str};

verus! {

/// Stands for the audio file's path inside a recording command.
pub const AUDIO_FILE_PATH_PLACEHOLDER: &'static str = "<audio_file_path_placeholder>";

/// How to record audio and where to send it.
#[derive(Debug, Clone, PartialEq, Eq)]
pub struct VoiceConfig {
    pub url: String,
    pub recording_command: String,
    pub model: Option<String>,
    pub api: Api,
}

/// The reply of the transcription service.
#[derive(Debug, Clone, PartialEq, Eq)]
pub struct OpenAiVoiceResponse {
    pub text: String,
}

/// The recording command used by default on an operating system, if it has one.
pub open spec fn default_recording_command(os: Seq<char>) -> Option<Seq<char>> {
    if os == "windows"@ || os == "macos"@ {
        Some("sox -t waveaudio 0 -d "@ + AUDIO_FILE_PATH_PLACEHOLDER@)
    } else if os == "linux"@ {
        Some("arecord -f S16_LE --quiet "@ + AUDIO_FILE_PATH_PLACEHOLDER@)
    } else {
        None
    }
}

impl VoiceConfig {
    /// The default settings on the operating system `os` (as `std::env::consts::OS`
    /// names it): OpenAI's transcription with `whisper-1`. None for an operating
    /// system without a known recording command.
    pub fn for_os(os: &str) -> (r: Option<VoiceConfig>)
        ensures
            default_recording_command(os@) is None <==> r is None,
            r matches Some(c) ==> {
                &&& Some(c.recording_command@) == default_recording_command(os@)
                &&& c.url@ == "https://api.openai.com/v1/audio/transcriptions"@
                &&& c.model matches Some(m) && m@ == "whisper-1"@
                &&& c.api == Api::Openai
            },
    {
        let mut command = if crate::text::same_text(os, "windows") || crate::text::same_text(
            os,
            "macos",
        ) {
            String::from_str("sox -t waveaudio 0 -d ")
        } else if crate::text::same_text(os, "linux") {
            String::from_str("arecord -f S16_LE --quiet ")
        } else {
            return None;
        };
        command.append(AUDIO_FILE_PATH_PLACEHOLDER);
        Some(
            VoiceConfig {
                url: String::from_str("https://api.openai.com/v1/audio/transcriptions"),
                recording_command: command,
                model: Some(String::from_str("whisper-1")),
                api: Api::Openai,
            },
        )
    }

    /// The recording command with `audio_path` in place of the path placeholder.
    pub fn recording_command_for(&self, audio_path: &str) -> (r: String)
        ensures
            r@ == replace_all(
                self.recording_command@,
                AUDIO_FILE_PATH_PLACEHOLDER@,
                audio_path@,
            ),
    {
        proof {
            reveal_strlit("<audio_file_path_placeholder>");
        }
        replace_str(self.recording_command.as_str(), AUDIO_FILE_PATH_PLACEHOLDER, audio_path)
    }
}

} // verus!
