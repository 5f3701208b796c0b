use spoon_comment_viewer::bgm::BGM;
use spoon_comment_viewer::player::{play_args, Audio, AudioEffect};

#[test]
fn bgm_test01() {
    let mut bgm = BGM::new();
    assert_eq!(false, bgm.push(&Audio::new("", 10, Default::default())));
}

#[test]
fn bgm_backpressure_scenario() {
    let track = Audio::new("./assets/track.mp3", 10, Default::default());
    let mut bgm = BGM::new();
    assert_eq!(false, bgm.push(&track));
    bgm.start(&Audio::new("./assets/loop.mp3", 10, Default::default()));
    // the worker has not reported ready yet
    assert_eq!(false, bgm.push(&track));
    bgm.worker_ready();
    assert_eq!(true, bgm.push(&track));
    // the worker is busy with the accepted change: shed, don't queue
    assert_eq!(false, bgm.push(&track));
    assert_eq!(false, bgm.push(&track));
    bgm.worker_ready();
    assert_eq!(true, bgm.push(&track));
}

#[test]
fn play_args_plain() {
    let audio = Audio::new("/tmp/a.wav", 10, AudioEffect::default());
    let args = play_args(&audio);
    assert_eq!(args, vec!["-v", "1", "/tmp/a.wav"]);
}

#[test]
fn play_args_volume_with_fraction() {
    let audio = Audio::new("x.mp3", 15, AudioEffect::default());
    assert_eq!(play_args(&audio), vec!["-v", "1.5", "x.mp3"]);
    let audio = Audio::new("x.mp3", 20, AudioEffect::default());
    assert_eq!(play_args(&audio), vec!["-v", "2", "x.mp3"]);
}

#[test]
fn play_args_effects() {
    let mut effect = AudioEffect::default();
    effect.reverb = true;
    effect.low = true;
    effect.right = true;
    effect.slow = true;
    effect.repeat = true;
    let audio = Audio::new("p", 10, effect);
    assert_eq!(
        play_args(&audio),
        vec![
            "-v", "1", "p", "pad", "0", "2", "reverb", "pitch", "-250", "remix", "1v0", "1v1",
            "tempo", "0.6", "repeat", "-"
        ]
    );
}

#[test]
fn play_args_english_pitch() {
    let mut effect = AudioEffect::default();
    effect.pitch_for_english = true;
    let audio = Audio::new("p", 20, effect);
    assert_eq!(play_args(&audio), vec!["-v", "2", "p", "pitch", "150"]);

    let mut high = effect;
    high.high = true;
    assert_eq!(play_args(&Audio::new("p", 20, high)), vec!["-v", "2", "p", "pitch", "450"]);

    let mut low = effect;
    low.low = true;
    assert_eq!(play_args(&Audio::new("p", 20, low)), vec!["-v", "2", "p", "pitch", "-300"]);
}
