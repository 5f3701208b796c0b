use spoon_comment_viewer::chatgpt::{
    choose_max_tokens, classify_completion, CallOutcome, ChatGPT, TaskAction,
};
use spoon_comment_viewer::config::ChatGPT as ChatGPTConfig;
use spoon_comment_viewer::config::{
    Config, Http, Live, Model, Selenium, Spoon, Twitter, VoiceVox as VoiceVoxConfig,
    BGM as BgmConfig,
};
use spoon_comment_viewer::filter::Filter;
use spoon_comment_viewer::player::AudioEffect;
use spoon_comment_viewer::voicevox::Script;

fn config(chatgpt_enabled: bool) -> Config {
    Config {
        twitter: Twitter { id: String::new(), password: String::new() },
        spoon: Spoon {
            url: String::new(),
            comment_check_interval_ms: 1000,
            listener_check_interval_ratio: 10,
            should_comment_listener: false,
            should_comment_heart: false,
            should_comment_spoon: false,
            should_comment_guide: false,
            should_comment_block: false,
            should_call_over: false,
            message_tunnel_file: String::new(),
            live: Live {
                enabled: false,
                autostart: false,
                start_url: String::new(),
                genre: String::new(),
                title: String::new(),
                tags: vec![],
                pinned_comment: String::new(),
                bg_image: String::new(),
                bgm: BgmConfig { enabled: false, audio_list: vec![] },
            },
        },
        database_file: String::new(),
        selenium: Selenium {
            webdriver_port: 4444,
            implicit_timeout_ms: 1000,
            should_maximize_window: false,
        },
        forbidden_words: vec![],
        voicevox: VoiceVoxConfig {
            enabled: false,
            should_skip_non_japanese: false,
            should_use_google_speech_for_non_japanese: false,
            url: String::new(),
            api_key: String::new(),
            speaker: 1,
            speed_x10: 10,
            output_dir: String::new(),
            timeout_sec: 10,
        },
        chatgpt: ChatGPTConfig {
            enabled: chatgpt_enabled,
            project_dir: String::new(),
            excluded_user: String::new(),
            api_key: String::new(),
            http: Http { url: String::new(), timeout_ms: 10000 },
            model: Model {
                model: "m".to_string(),
                temperature_x100: 100,
                max_tokens_en: 100,
                max_tokens_ja: 100,
            },
        },
    }
}

fn script(text: &str) -> Script {
    Script::new(text, AudioEffect::default(), 1)
}

#[test]
fn dispatcher_delivers_in_submission_order() {
    let cfg = config(true);
    let mut gpt = ChatGPT::new(&cfg, Filter::new(&vec![]));
    let a = gpt.push(script("A")).unwrap();
    let b = gpt.push(script("B")).unwrap();
    let c = gpt.push(script("C")).unwrap();
    assert_eq!(a.sequence, 0);
    assert_eq!(b.sequence, 1);
    assert_eq!(c.sequence, 2);

    // completions finish out of order: B, then C, while A is still pending
    gpt.complete(b.sequence, script("B_done"));
    gpt.complete(c.sequence, script("C_done"));
    assert!(gpt.fetch().is_empty());
    assert!(gpt.fetch().is_empty());

    // once A completes, one fetch yields the whole run, in submission order
    gpt.complete(a.sequence, script("A_done"));
    let out: Vec<String> = gpt.fetch().into_iter().map(|s| s.script).collect();
    assert_eq!(out, vec!["A_done", "B_done", "C_done"]);

    // nothing is delivered twice
    assert!(gpt.fetch().is_empty());
}

#[test]
fn dispatcher_partial_runs() {
    let cfg = config(true);
    let mut gpt = ChatGPT::new(&cfg, Filter::new(&vec![]));
    let a = gpt.push(script("one")).unwrap();
    let b = gpt.push(script("two")).unwrap();
    gpt.complete(a.sequence, script("one!"));
    let out: Vec<String> = gpt.fetch().into_iter().map(|s| s.script).collect();
    assert_eq!(out, vec!["one!"]);
    gpt.complete(b.sequence, script("two!"));
    let out: Vec<String> = gpt.fetch().into_iter().map(|s| s.script).collect();
    assert_eq!(out, vec!["two!"]);
}

#[test]
fn dispatcher_push_sanitizes_forbidden_words() {
    let cfg = config(true);
    let mut gpt = ChatGPT::new(&cfg, Filter::new(&vec!["badword".to_string()]));
    let item = gpt.push(script("a badword b")).unwrap();
    assert_eq!(item.script.script, "a ******* b");
    let clean = gpt.push(script("all fine")).unwrap();
    assert_eq!(clean.script.script, "all fine");
}

#[test]
fn dispatcher_disabled_is_inert() {
    let cfg = config(false);
    let mut gpt = ChatGPT::new(&cfg, Filter::new(&vec![]));
    assert!(gpt.push(script("A")).is_none());
    assert!(gpt.fetch().is_empty());
}

#[test]
fn dispatcher_cell_is_written_once() {
    let cfg = config(true);
    let mut gpt = ChatGPT::new(&cfg, Filter::new(&vec![]));
    let a = gpt.push(script("A")).unwrap();
    gpt.complete(a.sequence, script("first"));
    gpt.complete(a.sequence, script("second"));
    let out: Vec<String> = gpt.fetch().into_iter().map(|s| s.script).collect();
    assert_eq!(out, vec!["first"]);
    assert!(gpt.fetch().is_empty());
}

#[test]
fn fetch_applies_prettier() {
    let mut cfg = config(true);
    cfg.chatgpt.model.max_tokens_en = 5;
    let mut gpt = ChatGPT::new(&cfg, Filter::new(&vec![]));
    let a = gpt.push(script("q")).unwrap();
    gpt.complete(a.sequence, script("I'm five years old. Do you know me?"));
    let out: Vec<String> = gpt.fetch().into_iter().map(|s| s.script).collect();
    assert_eq!(out, vec!["I'm five years old."]);
}

#[test]
fn classify_completion_cases() {
    match classify_completion(CallOutcome::Success { text: "hi there".to_string() }, false, true) {
        TaskAction::Record { text } => assert_eq!(text, "hi there"),
        TaskAction::RetryOnce => panic!("a success is recorded, not retried"),
    }

    let quota_body = r#"{"error": {"type": "insufficient_quota"}}"#.to_string();
    match classify_completion(CallOutcome::Failure { body: quota_body }, false, true) {
        TaskAction::Record { text } => assert_eq!(text, "QUOTA_ERROR"),
        TaskAction::RetryOnce => panic!("quota exhaustion short-circuits retries"),
    }

    assert!(matches!(
        classify_completion(CallOutcome::Failure { body: "boom".to_string() }, false, true),
        TaskAction::RetryOnce
    ));

    match classify_completion(CallOutcome::Failure { body: "boom".to_string() }, true, true) {
        TaskAction::Record { text } => assert_eq!(text, "ERROR"),
        TaskAction::RetryOnce => panic!("only one retry is allowed"),
    }

    match classify_completion(CallOutcome::Failure { body: "boom".to_string() }, false, false) {
        TaskAction::Record { text } => assert_eq!(text, "ERROR"),
        TaskAction::RetryOnce => panic!("no retry outside the window"),
    }
}

#[test]
fn choose_max_tokens_by_script() {
    assert_eq!(choose_max_tokens("hello there", 64, 48), 64);
    assert_eq!(choose_max_tokens("こんにちは", 64, 48), 48);
    assert_eq!(choose_max_tokens("", 64, 48), 64);
}
