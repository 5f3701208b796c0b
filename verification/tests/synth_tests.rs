use spoon_comment_viewer::config::ChatGPT as ChatGPTConfig;
use spoon_comment_viewer::config::{
    Config, Http, Live, Model, Selenium, Spoon, Twitter, VoiceVox as VoiceVoxConfig,
    BGM as BgmConfig,
};
use spoon_comment_viewer::filter::Filter;
use spoon_comment_viewer::player::AudioEffect;
use spoon_comment_viewer::voicevox::{
    calculate_hash, classify_failure, APIRequest, FailureAction, Script, SynthEvent, SynthPlan,
    SynthWorker, VoiceVox,
};

fn config(voicevox: VoiceVoxConfig) -> Config {
    Config {
        twitter: Twitter { id: String::new(), password: String::new() },
        spoon: Spoon {
            url: String::new(),
            comment_check_interval_ms: 1000,
            listener_check_interval_ratio: 10,
            should_comment_listener: false,
            should_comment_heart: false,
            should_comment_spoon: false,
            should_comment_guide: false,
            should_comment_block: false,
            should_call_over: false,
            message_tunnel_file: String::new(),
            live: Live {
                enabled: false,
                autostart: false,
                start_url: String::new(),
                genre: String::new(),
                title: String::new(),
                tags: vec![],
                pinned_comment: String::new(),
                bg_image: String::new(),
                bgm: BgmConfig { enabled: false, audio_list: vec![] },
            },
        },
        database_file: String::new(),
        selenium: Selenium {
            webdriver_port: 4444,
            implicit_timeout_ms: 1000,
            should_maximize_window: false,
        },
        forbidden_words: vec![],
        voicevox,
        chatgpt: ChatGPTConfig {
            enabled: false,
            project_dir: String::new(),
            excluded_user: String::new(),
            api_key: String::new(),
            http: Http { url: String::new(), timeout_ms: 10000 },
            model: Model {
                model: "m".to_string(),
                temperature_x100: 100,
                max_tokens_en: 100,
                max_tokens_ja: 100,
            },
        },
    }
}

fn voicevox_config() -> VoiceVoxConfig {
    VoiceVoxConfig {
        enabled: true,
        should_skip_non_japanese: false,
        should_use_google_speech_for_non_japanese: false,
        url: String::new(),
        api_key: String::new(),
        speaker: 1,
        speed_x10: 10,
        output_dir: "/tmp/voice".to_string(),
        timeout_sec: 10,
    }
}

#[test]
fn synthesis_is_cached_by_content() {
    let cfg = config(voicevox_config());
    let mut worker = SynthWorker::new(&cfg);
    let request = APIRequest::new("hello", AudioEffect::default(), 1);

    // the test fails if the service would be called more than once
    let mut service_calls = 0;
    let first_path = match worker.plan(&request) {
        SynthPlan::CallService { path, .. } => {
            service_calls += 1;
            path
        },
        _ => panic!("the first request must call the service"),
    };
    let played = worker.observe(&request, SynthEvent::Delivered { empty: false }).unwrap();
    assert_eq!(played.path, first_path);

    // an identical (voice, speed, text) request is served from the cache
    let again = APIRequest::new("hello", AudioEffect::default(), 1);
    let second_path = match worker.plan(&again) {
        SynthPlan::PlayCached { audio } => audio.path,
        SynthPlan::CallService { .. } | SynthPlan::CallGoogle { .. } => {
            panic!("the service was called twice for one content key")
        },
        SynthPlan::Skip => panic!("the worker is still running"),
    };
    assert_eq!(first_path, second_path);
    assert_eq!(service_calls, 1);

    // a different text is a different key
    let other = APIRequest::new("goodbye", AudioEffect::default(), 1);
    assert!(matches!(worker.plan(&other), SynthPlan::CallService { .. }));
}

#[test]
fn quota_exhaustion_is_terminal() {
    let cfg = config(voicevox_config());
    let mut worker = SynthWorker::new(&cfg);
    let request = APIRequest::new("こんにちは", AudioEffect::default(), 1);
    assert!(matches!(worker.plan(&request), SynthPlan::CallService { .. }));

    let action = classify_failure(500, r#"{"errorMessage": "notEnoughPoints"}"#);
    assert!(matches!(action, FailureAction::Terminate));
    assert!(worker.observe(&request, SynthEvent::Failed { action }).is_none());

    // every later request is shed without a network call
    assert!(matches!(worker.plan(&request), SynthPlan::Skip));
    assert!(matches!(
        worker.plan(&APIRequest::new("new text", AudioEffect::default(), 2)),
        SynthPlan::Skip
    ));

    // nothing revives the worker
    worker.cooldown_over();
    assert!(matches!(worker.plan(&request), SynthPlan::Skip));
    assert!(worker.observe(&request, SynthEvent::Delivered { empty: false }).is_none());
    assert!(matches!(worker.plan(&request), SynthPlan::Skip));
}

#[test]
fn rate_limit_cools_down_and_sheds() {
    let cfg = config(voicevox_config());
    let mut worker = SynthWorker::new(&cfg);
    let request = APIRequest::new("text", AudioEffect::default(), 1);
    assert!(matches!(worker.plan(&request), SynthPlan::CallService { .. }));

    let action = classify_failure(429, "");
    assert!(matches!(action, FailureAction::CoolDownAndShed));
    assert!(worker.observe(&request, SynthEvent::Failed { action }).is_none());

    // while cooling down, requests are shed rather than queued
    assert!(matches!(worker.plan(&request), SynthPlan::Skip));

    // after the cool-down the worker runs again
    worker.cooldown_over();
    assert!(matches!(worker.plan(&request), SynthPlan::CallService { .. }));
}

#[test]
fn empty_body_is_an_error_and_not_cached() {
    let cfg = config(voicevox_config());
    let mut worker = SynthWorker::new(&cfg);
    let request = APIRequest::new("text", AudioEffect::default(), 1);
    assert!(matches!(worker.plan(&request), SynthPlan::CallService { .. }));
    assert!(worker.observe(&request, SynthEvent::Delivered { empty: true }).is_none());
    assert!(matches!(worker.plan(&request), SynthPlan::CallService { .. }));
}

#[test]
fn classify_failure_cases() {
    assert!(matches!(classify_failure(429, "anything"), FailureAction::CoolDownAndShed));
    assert!(matches!(classify_failure(403, ""), FailureAction::DropTemporary));
    assert!(matches!(classify_failure(503, ""), FailureAction::DropTemporary));
    assert!(matches!(
        classify_failure(500, "... notEnoughPoints ..."),
        FailureAction::Terminate
    ));
    assert!(matches!(
        classify_failure(500, r#"{"errorMessage": "failed"}"#),
        FailureAction::DropRandomFailure
    ));
    assert!(matches!(classify_failure(500, "something else"), FailureAction::DropUnknown));
}

#[test]
fn alternate_route_for_english_requests() {
    let cfg = config(voicevox_config());
    let mut worker = SynthWorker::new(&cfg);
    let mut effect = AudioEffect::default();
    effect.pitch_for_english = true;
    let request = APIRequest::new("hello", effect, 1);

    let path = match worker.plan(&request) {
        SynthPlan::CallGoogle { path, .. } => path,
        _ => panic!("non-Japanese requests go to the alternate synthesizer"),
    };
    assert!(path.starts_with("/tmp/voice/"));
    assert!(path.ends_with(".mp3"));

    let played = worker.observe(&request, SynthEvent::Delivered { empty: false }).unwrap();
    assert_eq!(played.path, path);
    assert_eq!(played.volume_x10, 20);

    match worker.plan(&APIRequest::new("hello", effect, 1)) {
        SynthPlan::PlayCached { audio } => assert_eq!(audio.path, path),
        _ => panic!("the alternate route caches too"),
    }
}

#[test]
fn calculate_hash_is_deterministic_and_decimal() {
    let a = calculate_hash("abc");
    let b = calculate_hash("abc");
    assert_eq!(a, b);
    assert!(!a.is_empty());
    assert!(a.chars().all(|c| c.is_ascii_digit()));
}

#[test]
fn say_gates_requests() {
    // disabled: everything is dropped
    let mut vv_cfg = voicevox_config();
    vv_cfg.enabled = false;
    let cfg = config(vv_cfg);
    let vv = VoiceVox::new(&cfg, Filter::new(&vec![]));
    assert!(vv.say(Script::new("こんにちは", AudioEffect::default(), 1)).is_none());

    // a forbidden word drops the script
    let cfg = config(voicevox_config());
    let vv = VoiceVox::new(&cfg, Filter::new(&vec!["りんご".to_string()]));
    assert!(vv.say(Script::new("りんごです", AudioEffect::default(), 1)).is_none());
    let passed = vv.say(Script::new("こんにちは", AudioEffect::default(), 1)).unwrap();
    assert_eq!(passed.script, "こんにちは");
    assert!(!passed.effect.pitch_for_english);
}

#[test]
fn say_routes_non_japanese() {
    // skip non-Japanese without the alternate synthesizer: drop
    let mut vv_cfg = voicevox_config();
    vv_cfg.should_skip_non_japanese = true;
    let cfg = config(vv_cfg);
    let vv = VoiceVox::new(&cfg, Filter::new(&vec![]));
    assert!(vv.say(Script::new("hello", AudioEffect::default(), 1)).is_none());
    assert!(vv.say(Script::new("こんにちは", AudioEffect::default(), 1)).is_some());

    // with the alternate synthesizer: marked for it instead
    let mut vv_cfg = voicevox_config();
    vv_cfg.should_skip_non_japanese = true;
    vv_cfg.should_use_google_speech_for_non_japanese = true;
    let cfg = config(vv_cfg);
    let vv = VoiceVox::new(&cfg, Filter::new(&vec![]));
    let routed = vv.say(Script::new("hello", AudioEffect::default(), 1)).unwrap();
    assert!(routed.effect.pitch_for_english);
    let japanese = vv.say(Script::new("こんにちは", AudioEffect::default(), 1)).unwrap();
    assert!(!japanese.effect.pitch_for_english);
}
