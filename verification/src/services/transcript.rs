//! The cleaning of a transcript after recognition.
//!
//! A recognition engine tends to write stock phrases where it hears
//! silence, and it runs Japanese and Latin script together. For Japanese the
//! stock phrases are taken out, runs of whitespace become one space, and a
//! space is set wherever the script changes.

use crate::text::{
    chars_of, extend_chars, find_chars, find_from, is_whitespace, lemma_find_from, lemma_trim_len,
    same_text, slice_chars, string_of, trim_chars, trim_seq, unicode_whitespace,
};
use vstd::prelude::*;

verus! {

/// The text that stands for a Japanese transcript of which nothing is left.
pub const NOTHING_RECOGNIZED: &'static str = "音声を認識できませんでした。";

/// The language whose transcripts are cleaned.
pub const JAPANESE: &'static str = "ja";

/// Hiragana, katakana, and the common ideographs.
pub open spec fn is_japanese_char(c: char) -> bool {
    ('ぁ' <= c && c <= 'ん') || ('ァ' <= c && c <= 'ヶ') || ('一' <= c && c <= '龯')
}

/// The letters of the basic Latin alphabet and the digits.
pub open spec fn is_latin_char(c: char) -> bool {
    ('A' <= c && c <= 'Z') || ('a' <= c && c <= 'z') || ('0' <= c && c <= '9')
}

/// Between `a` and `b` the script changes from Japanese to Latin or back.
pub open spec fn script_changes(a: char, b: char) -> bool {
    (is_japanese_char(a) && is_latin_char(b)) || (is_latin_char(a) && is_japanese_char(b))
}

/// `s` with a space set wherever the script changes.
pub open spec fn spaced(s: Seq<char>) -> Seq<char>
    decreases s.len(),
{
    if s.len() <= 1 {
        s
    } else if script_changes(s[s.len() - 2], s[s.len() - 1]) {
        spaced(s.drop_last()).push(' ').push(s.last())
    } else {
        spaced(s.drop_last()).push(s.last())
    }
}

/// `s` with every run of whitespace turned into one space.
pub open spec fn collapsed(s: Seq<char>) -> Seq<char>
    decreases s.len(),
{
    if s.len() == 0 {
        s
    } else if !unicode_whitespace(s.last()) {
        collapsed(s.drop_last()).push(s.last())
    } else if s.len() >= 2 && unicode_whitespace(s[s.len() - 2]) {
        collapsed(s.drop_last())
    } else {
        collapsed(s.drop_last()).push(' ')
    }
}

/// `s` without the first occurrence of `pat`.
pub open spec fn without_first(s: Seq<char>, pat: Seq<char>) -> Seq<char> {
    let i = find_from(s, pat, 0);
    if i < 0 {
        s
    } else {
        s.subrange(0, i) + s.subrange(i + pat.len(), s.len() as int)
    }
}

/// `s` after `pat` was taken out as long as it occurs, the first occurrence
/// each time, with the whitespace at the ends removed after each.
pub open spec fn stripped_of(s: Seq<char>, pat: Seq<char>) -> Seq<char>
    decreases s.len(),
    via stripped_of_decreases
{
    if pat.len() == 0 || find_from(s, pat, 0) < 0 {
        s
    } else {
        stripped_of(trim_seq(without_first(s, pat)), pat)
    }
}

#[via_fn]
proof fn stripped_of_decreases(s: Seq<char>, pat: Seq<char>) {
    if !(pat.len() == 0 || find_from(s, pat, 0) < 0) {
        lemma_find_from(s, pat, 0);
        lemma_trim_len(without_first(s, pat));
    }
}

/// `s` after each of the patterns was taken out in turn.
pub open spec fn stripped_of_all(s: Seq<char>, patterns: Seq<Seq<char>>) -> Seq<char>
    decreases patterns.len(),
{
    if patterns.len() == 0 {
        s
    } else {
        stripped_of(stripped_of_all(s, patterns.drop_last()), patterns.last())
    }
}

/// The stock phrases that are taken out of a Japanese transcript.
pub open spec fn stock_phrases() -> Seq<Seq<char>> {
    seq![
        "日本語の音声です："@,
        "以下は日本語の音声です："@,
        "日本語の音声です。"@,
        "以下は日本語の音声です。"@,
        "お疲れ様でした。"@,
        "次回はお楽しみに"@,
        "ありがとうございました。"@,
        "ご視聴ありがとうございました"@,
    ]
}

/// A Japanese transcript after cleaning: without the stock phrases, with
/// single spaces for runs of whitespace and none at the ends, and with a
/// space wherever the script changes. Where nothing is left, the text that
/// says so takes its place.
pub open spec fn cleaned_japanese(s: Seq<char>) -> Seq<char> {
    let text = spaced(trim_seq(collapsed(stripped_of_all(s, stock_phrases()))));
    if trim_seq(text).len() == 0 {
        NOTHING_RECOGNIZED@
    } else {
        text
    }
}

/// A transcript in `language` after cleaning: Japanese is cleaned, any other
/// language is left as it is.
pub open spec fn cleaned(s: Seq<char>, language: Seq<char>) -> Seq<char> {
    if language == JAPANESE@ {
        cleaned_japanese(s)
    } else {
        s
    }
}

fn japanese_char(c: char) -> (b: bool)
    ensures
        b == is_japanese_char(c),
{
    ('ぁ' <= c && c <= 'ん') || ('ァ' <= c && c <= 'ヶ') || ('一' <= c && c <= '龯')
}

fn latin_char(c: char) -> (b: bool)
    ensures
        b == is_latin_char(c),
{
    ('A' <= c && c <= 'Z') || ('a' <= c && c <= 'z') || ('0' <= c && c <= '9')
}

/// Sets a space wherever the script changes.
pub fn space_script_changes(v: &Vec<char>) -> (out: Vec<char>)
    ensures
        out@ == spaced(v@),
{
    let mut out: Vec<char> = Vec::new();
    let mut i: usize = 0;
    assert(v@.take(0) == Seq::<char>::empty());
    while i < v.len()
        invariant
            i <= v.len(),
            out@ == spaced(v@.take(i as int)),
        decreases v.len() - i,
    {
        let c = v[i];
        proof {
            let next = v@.take(i + 1);
            assert(next.drop_last() == v@.take(i as int));
            assert(next.last() == c);
            if i > 0 {
                assert(next[next.len() - 2] == v@[i - 1]);
            }
        }
        if i > 0 {
            let prev = v[i - 1];
            if (japanese_char(prev) && latin_char(c)) || (latin_char(prev) && japanese_char(c)) {
                out.push(' ');
            }
        }
        out.push(c);
        i = i + 1;
    }
    assert(v@.take(v.len() as int) == v@);
    out
}

/// Turns every run of whitespace into one space.
pub fn collapse_whitespace(v: &Vec<char>) -> (out: Vec<char>)
    ensures
        out@ == collapsed(v@),
{
    let mut out: Vec<char> = Vec::new();
    let mut i: usize = 0;
    let mut in_run: bool = false;
    assert(v@.take(0) == Seq::<char>::empty());
    while i < v.len()
        invariant
            i <= v.len(),
            out@ == collapsed(v@.take(i as int)),
            in_run == (i > 0 && unicode_whitespace(v@[i - 1])),
        decreases v.len() - i,
    {
        let c = v[i];
        proof {
            let next = v@.take(i + 1);
            assert(next.drop_last() == v@.take(i as int));
            assert(next.last() == c);
            if i > 0 {
                assert(next[next.len() - 2] == v@[i - 1]);
            }
        }
        if is_whitespace(c) {
            if !in_run {
                out.push(' ');
            }
            in_run = true;
        } else {
            out.push(c);
            in_run = false;
        }
        i = i + 1;
    }
    assert(v@.take(v.len() as int) == v@);
    out
}

/// Takes `pat` out of `v` as long as it occurs.
pub fn strip_pattern(v: Vec<char>, pat: &Vec<char>) -> (out: Vec<char>)
    ensures
        out@ == stripped_of(v@, pat@),
{
    let mut text = v;
    if pat.len() == 0 {
        return text;
    }
    loop
        invariant_except_break
            stripped_of(v@, pat@) == stripped_of(text@, pat@),
        invariant
            pat@.len() > 0,
        ensures
            text@ == stripped_of(v@, pat@),
        decreases text@.len(),
    {
        match find_chars(&text, pat, 0) {
            Some(i) => {
                proof {
                    lemma_find_from(text@, pat@, 0);
                    lemma_trim_len(without_first(text@, pat@));
                }
                let mut shorter = slice_chars(&text, 0, i);
                let tail = slice_chars(&text, i + pat.len(), text.len());
                extend_chars(&mut shorter, &tail);
                text = trim_chars(&shorter);
            },
            None => {
                break;
            },
        }
    }
    text
}

fn stock_phrase_list() -> (out: Vec<Vec<char>>)
    ensures
        out@.len() == stock_phrases().len(),
        forall|i: int| 0 <= i < out@.len() ==> (#[trigger] out@[i])@ == stock_phrases()[i],
{
    let mut out: Vec<Vec<char>> = Vec::new();
    out.push(chars_of("日本語の音声です："));
    out.push(chars_of("以下は日本語の音声です："));
    out.push(chars_of("日本語の音声です。"));
    out.push(chars_of("以下は日本語の音声です。"));
    out.push(chars_of("お疲れ様でした。"));
    out.push(chars_of("次回はお楽しみに"));
    out.push(chars_of("ありがとうございました。"));
    out.push(chars_of("ご視聴ありがとうございました"));
    out
}

/// Cleans a transcript in `language`.
pub fn postprocess_transcript(text: &str, language: &str) -> (out: String)
    ensures
        out@ == cleaned(text@, language@),
{
    if !same_text(language, JAPANESE) {
        return text.to_owned();
    }
    let phrases = stock_phrase_list();
    let mut current = chars_of(text);
    let mut i: usize = 0;
    assert(stock_phrases().take(0) == Seq::<Seq<char>>::empty());
    while i < phrases.len()
        invariant
            i <= phrases.len(),
            phrases@.len() == stock_phrases().len(),
            forall|k: int|
                0 <= k < phrases@.len() ==> (#[trigger] phrases@[k])@ == stock_phrases()[k],
            current@ == stripped_of_all(text@, stock_phrases().take(i as int)),
        decreases phrases.len() - i,
    {
        proof {
            let next = stock_phrases().take(i + 1);
            assert(next.drop_last() == stock_phrases().take(i as int));
            assert(next.last() == phrases@[i as int]@);
        }
        current = strip_pattern(current, &phrases[i]);
        i = i + 1;
    }
    assert(stock_phrases().take(phrases.len() as int) == stock_phrases());
    let single = collapse_whitespace(&current);
    let trimmed = trim_chars(&single);
    let with_spaces = space_script_changes(&trimmed);
    let rest = trim_chars(&with_spaces);
    if rest.len() == 0 {
        NOTHING_RECOGNIZED.to_owned()
    } else {
        string_of(&with_spaces)
    }
}

} // verus!
