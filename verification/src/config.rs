use vstd::prelude::*;

verus! {

/// Twitter credentials used by the login flow.
#[derive(Clone, Debug)]
pub struct Twitter {
    pub id: String,
    pub password: String,
}

/// One background-music track: a title, a file path, and a playback volume
/// in tenths.
#[derive(Clone, Debug)]
pub struct Audio {
    pub title: String,
    pub path: String,
    pub volume_x10: u64,
}

#[derive(Clone, Debug)]
pub struct BGM {
    pub enabled: bool,
    pub audio_list: Vec<Audio>,
}

#[derive(Clone, Debug)]
pub struct Live {
    pub enabled: bool,
    pub autostart: bool,
    pub start_url: String,
    pub genre: String,
    pub title: String,
    pub tags: Vec<String>,
    pub pinned_comment: String,
    pub bg_image: String,
    pub bgm: BGM,
}

#[derive(Clone, Debug)]
pub struct Spoon {
    pub url: String,
    pub comment_check_interval_ms: u64,
    pub listener_check_interval_ratio: usize,
    pub should_comment_listener: bool,
    pub should_comment_heart: bool,
    pub should_comment_spoon: bool,
    pub should_comment_guide: bool,
    pub should_comment_block: bool,
    pub should_call_over: bool,
    pub message_tunnel_file: String,
    pub live: Live,
}

#[derive(Clone, Debug)]
pub struct Selenium {
    pub webdriver_port: usize,
    pub implicit_timeout_ms: u64,
    pub should_maximize_window: bool,
}

/// Synthesis-service settings; the speaking speed is held in tenths.
#[derive(Clone, Debug)]
pub struct VoiceVox {
    pub enabled: bool,
    pub should_skip_non_japanese: bool,
    pub should_use_google_speech_for_non_japanese: bool,
    pub url: String,
    pub api_key: String,
    pub speaker: usize,
    pub speed_x10: u64,
    pub output_dir: String,
    pub timeout_sec: u64,
}

#[derive(Clone, Debug)]
pub struct Http {
    pub url: String,
    pub timeout_ms: u64,
}

/// Completion-service model settings; the sampling temperature is held in
/// hundredths.
#[derive(Clone, Debug)]
pub struct Model {
    pub model: String,
    pub temperature_x100: u64,
    pub max_tokens_en: usize,
    pub max_tokens_ja: usize,
}

#[derive(Clone, Debug)]
pub struct ChatGPT {
    pub enabled: bool,
    pub project_dir: String,
    pub excluded_user: String,
    pub api_key: String,
    pub http: Http,
    pub model: Model,
}

#[derive(Clone, Debug)]
pub struct Config {
    pub twitter: Twitter,
    pub spoon: Spoon,
    pub database_file: String,
    pub selenium: Selenium,
    pub forbidden_words: Vec<String>,
    pub voicevox: VoiceVox,
    pub chatgpt: ChatGPT,
}

} // verus!
