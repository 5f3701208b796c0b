use spoon_comment_viewer::pretty_print_duration;
use spoon_comment_viewer::util;

#[test]
fn lib_test_pretty_print_duration() {
    assert_eq!("3秒", pretty_print_duration(3));
    assert_eq!("60秒", pretty_print_duration(60));
    assert_eq!("1分01秒", pretty_print_duration(61));
    assert_eq!("60分00秒", pretty_print_duration(3600));
    assert_eq!("1時間00分01秒", pretty_print_duration(3601));
    assert_eq!("1時間10分15秒", pretty_print_duration(4215));
}

#[test]
fn util_test_pretty_print_duration() {
    assert_eq!("3\u{e7}\u{a7}\u{2019}", util::pretty_print_duration(3));
    assert_eq!("60\u{e7}\u{a7}\u{2019}", util::pretty_print_duration(60));
    assert_eq!("1\u{e5}\u{2c6}\u{2020}01\u{e7}\u{a7}\u{2019}", util::pretty_print_duration(61));
    assert_eq!("60\u{e5}\u{2c6}\u{2020}00\u{e7}\u{a7}\u{2019}", util::pretty_print_duration(3600));
    assert_eq!("1\u{e6}\u{2122}\u{201a}\u{e9}\u{2013}\u{201c}00\u{e5}\u{2c6}\u{2020}01\u{e7}\u{a7}\u{2019}", util::pretty_print_duration(3601));
    assert_eq!("1\u{e6}\u{2122}\u{201a}\u{e9}\u{2013}\u{201c}10\u{e5}\u{2c6}\u{2020}15\u{e7}\u{a7}\u{2019}", util::pretty_print_duration(4215));
}

#[test]
fn is_japanese_detects_japanese_scripts() {
    assert_eq!(false, util::is_japanese("hello"));
    assert_eq!(false, util::is_japanese("342352"));
    assert_eq!(true, util::is_japanese("あ"));
    assert_eq!(true, util::is_japanese("ABCコンテスト"));
    assert_eq!(true, util::is_japanese("表現"));
    assert_eq!(true, util::is_japanese("ｱｲｳ"));
    assert_eq!(false, util::is_japanese("ｄｅｆｇｈ"));
}

#[test]
fn chunk_text_cuts_by_characters() {
    let pieces = spoon_comment_viewer::text::chunk_text("abcdefg", 3);
    assert_eq!(pieces, vec!["abc", "def", "g"]);
    assert_eq!(spoon_comment_viewer::text::chunk_text("", 3), Vec::<String>::new());
    assert_eq!(spoon_comment_viewer::text::chunk_text("ab", 3), vec!["ab"]);
}

#[test]
fn guide_fires_each_reminder_once() {
    let mut flags = vec![false, false, false];
    assert!(spoon_comment_viewer::guide::plan_guide(100, &mut flags, true).is_none());
    let step = spoon_comment_viewer::guide::plan_guide(6601, &mut flags, true).unwrap();
    assert_eq!(step.index, 0);
    assert!(step.call_over);
    // the same reminder never fires twice
    assert!(spoon_comment_viewer::guide::plan_guide(6601, &mut flags, true).is_none());
    let step = spoon_comment_viewer::guide::plan_guide(7000, &mut flags, false).unwrap();
    assert_eq!(step.index, 1);
    assert!(!step.call_over);
    let step = spoon_comment_viewer::guide::plan_guide(7141, &mut flags, true).unwrap();
    assert_eq!(step.index, 2);
    assert!(spoon_comment_viewer::guide::plan_guide(7200, &mut flags, true).is_none());
}

#[test]
fn trim_text_strips_surrounding_whitespace() {
    assert_eq!(spoon_comment_viewer::text::trim_text("  QUOTA_ERROR\n"), "QUOTA_ERROR");
    assert_eq!(spoon_comment_viewer::text::trim_text("a b "), "a b");
    assert_eq!(spoon_comment_viewer::text::trim_text("   "), "");
    assert_eq!(spoon_comment_viewer::text::trim_text(""), "");
}
