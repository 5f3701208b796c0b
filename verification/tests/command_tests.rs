use spoon_comment_viewer::comment::{parse_commands, CommentCommand};
use spoon_comment_viewer::player::AudioEffect;

#[test]
fn commands_set_effects_and_voice() {
    match parse_commands("/echo /zundamon こんにちは 元気？", AudioEffect::default(), 2) {
        CommentCommand::Say { text, effect, speaker } => {
            assert_eq!(text, "こんにちは 元気？");
            assert!(effect.reverb);
            assert!(!effect.high);
            assert_eq!(speaker, 3);
        },
        _ => panic!("two known commands followed by text"),
    }
}

#[test]
fn commands_accumulate() {
    match parse_commands("/high /fast /asmr x", AudioEffect::default(), 2) {
        CommentCommand::Say { text, effect, speaker } => {
            assert_eq!(text, "x");
            assert!(effect.high && effect.fast);
            assert!(!effect.low && !effect.slow && !effect.reverb);
            assert_eq!(speaker, 22);
        },
        _ => panic!("known commands followed by text"),
    }
}

#[test]
fn unknown_command_is_reported() {
    match parse_commands("/nosuch こんにちは", AudioEffect::default(), 2) {
        CommentCommand::Invalid { token } => assert_eq!(token, "/nosuch"),
        _ => panic!("an unknown command cancels the comment"),
    }
}

#[test]
fn commands_alone_say_nothing() {
    match parse_commands("/echo /low", AudioEffect::default(), 2) {
        CommentCommand::CommandOnly { command } => assert_eq!(command, "/echo /low"),
        _ => panic!("commands without text have nothing to say"),
    }
}

#[test]
fn plain_text_passes_through() {
    match parse_commands("  hello   world ", AudioEffect::default(), 2) {
        CommentCommand::Say { text, effect, speaker } => {
            assert_eq!(text, "hello world");
            assert_eq!(effect, AudioEffect::default());
            assert_eq!(speaker, 2);
        },
        _ => panic!("plain text is said as it stands"),
    }
}
