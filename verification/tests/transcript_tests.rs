use meeting_summarizer::services::transcript::{
    collapse_whitespace, postprocess_transcript, space_script_changes, strip_pattern,
};

fn chars(s: &str) -> Vec<char> {
    s.chars().collect()
}

fn text(v: Vec<char>) -> String {
    v.into_iter().collect()
}

#[test]
fn spaces_are_set_where_the_script_changes() {
    assert_eq!(text(space_script_changes(&chars("今日はAPIの話"))), "今日は API の話");
    assert_eq!(text(space_script_changes(&chars("Rust入門2024年"))), "Rust 入門 2024 年");
    assert_eq!(text(space_script_changes(&chars("カタカナABC"))), "カタカナ ABC");
    assert_eq!(text(space_script_changes(&chars("abc def"))), "abc def");
    assert_eq!(text(space_script_changes(&chars("日本語、English"))), "日本語、English");
    assert_eq!(text(space_script_changes(&chars(""))), "");
    assert_eq!(text(space_script_changes(&chars("a"))), "a");
    assert_eq!(text(space_script_changes(&chars("あa"))), "あ a");
    assert_eq!(text(space_script_changes(&chars("aあ"))), "a あ");
}

#[test]
fn class_boundaries_are_exact() {
    // U+3041 and U+3093 are the ends of the hiragana taken; U+3040 and U+3094 lie outside.
    assert_eq!(text(space_script_changes(&chars("\u{3041}a"))), "\u{3041} a");
    assert_eq!(text(space_script_changes(&chars("\u{3093}a"))), "\u{3093} a");
    assert_eq!(text(space_script_changes(&chars("\u{3040}a"))), "\u{3040}a");
    assert_eq!(text(space_script_changes(&chars("\u{3094}a"))), "\u{3094}a");
    // Katakana from U+30A1 to U+30F6.
    assert_eq!(text(space_script_changes(&chars("\u{30a1}a"))), "\u{30a1} a");
    assert_eq!(text(space_script_changes(&chars("\u{30f6}a"))), "\u{30f6} a");
    assert_eq!(text(space_script_changes(&chars("\u{30a0}a"))), "\u{30a0}a");
    assert_eq!(text(space_script_changes(&chars("\u{30f7}a"))), "\u{30f7}a");
    // Ideographs from U+4E00 to U+9FAF.
    assert_eq!(text(space_script_changes(&chars("\u{4e00}a"))), "\u{4e00} a");
    assert_eq!(text(space_script_changes(&chars("\u{9faf}a"))), "\u{9faf} a");
    assert_eq!(text(space_script_changes(&chars("\u{4dff}a"))), "\u{4dff}a");
    assert_eq!(text(space_script_changes(&chars("\u{9fb0}a"))), "\u{9fb0}a");
    // Latin letters and digits only.
    for c in ['A', 'Z', 'a', 'z', '0', '9'] {
        assert_eq!(text(space_script_changes(&vec!['あ', c])), format!("あ {}", c));
    }
    for c in ['@', '[', '`', '{', '/', ':', 'é'] {
        assert_eq!(text(space_script_changes(&vec!['あ', c])), format!("あ{}", c));
    }
}

#[test]
fn runs_of_whitespace_become_one_space() {
    assert_eq!(text(collapse_whitespace(&chars("a  b\t\n c"))), "a b c");
    assert_eq!(text(collapse_whitespace(&chars("  a  "))), " a ");
    assert_eq!(text(collapse_whitespace(&chars("a\u{3000}\u{3000}b"))), "a b");
    assert_eq!(text(collapse_whitespace(&chars("a\nb"))), "a b");
    assert_eq!(text(collapse_whitespace(&chars(""))), "");
    assert_eq!(text(collapse_whitespace(&chars("abc"))), "abc");
}

#[test]
fn patterns_are_taken_out_until_none_is_left() {
    assert_eq!(text(strip_pattern(chars("abXYcdXY"), &chars("XY"))), "abcd");
    // Taking one occurrence out may bring the next together.
    assert_eq!(text(strip_pattern(chars("aXXYYb"), &chars("XY"))), "ab");
    // The ends are trimmed after each removal.
    assert_eq!(text(strip_pattern(chars("  XY  text  "), &chars("XY"))), "text");
    // Without an occurrence nothing changes, the whitespace at the ends included.
    assert_eq!(text(strip_pattern(chars("  text  "), &chars("XY"))), "  text  ");
    assert_eq!(text(strip_pattern(chars("text"), &chars(""))), "text");
    assert_eq!(text(strip_pattern(chars("XYXY"), &chars("XY"))), "");
}

#[test]
fn japanese_transcripts_are_cleaned() {
    assert_eq!(
        postprocess_transcript("日本語の音声です：今日は  API設計の話です。ご視聴ありがとうございました", "ja"),
        "今日は API 設計の話です。"
    );
    assert_eq!(
        postprocess_transcript("会議を始めます。\n\n次はQ3の予算です。", "ja"),
        "会議を始めます。 次は Q3 の予算です。"
    );
    assert_eq!(postprocess_transcript("こんにちは", "ja"), "こんにちは");
}

#[test]
fn japanese_transcript_of_stock_phrases_alone_says_that_nothing_was_recognized() {
    assert_eq!(postprocess_transcript("ご視聴ありがとうございました", "ja"), "音声を認識できませんでした。");
    assert_eq!(
        postprocess_transcript(" お疲れ様でした。 ありがとうございました。 ", "ja"),
        "音声を認識できませんでした。"
    );
    assert_eq!(postprocess_transcript("", "ja"), "音声を認識できませんでした。");
    assert_eq!(postprocess_transcript("  \n ", "ja"), "音声を認識できませんでした。");
}

#[test]
fn longer_stock_phrases_lose_their_shorter_part_first() {
    // The first phrase is a part of the second; what is left of the second stays.
    assert_eq!(postprocess_transcript("以下は日本語の音声です：本題", "ja"), "以下は本題");
}

#[test]
fn other_languages_are_left_alone() {
    assert_eq!(postprocess_transcript("Thank  you  for watching", "en"), "Thank  you  for watching");
    assert_eq!(postprocess_transcript("ご視聴ありがとうございました", "en"), "ご視聴ありがとうございました");
    assert_eq!(postprocess_transcript("", "en"), "");
}

#[test]
fn cleaning_twice_changes_nothing_more() {
    for raw in ["日本語の音声です。今日は  API設計の話です。", "会議\n\nQ3", "ご視聴ありがとうございました", "abc  def"] {
        let once = postprocess_transcript(raw, "ja");
        assert_eq!(postprocess_transcript(&once, "ja"), once, "{:?}", raw);
    }
}
