//! The setting by which the replay of committed fees is turned on.
use vstd::prelude::*;
use vstd::string::StringExecFns;

verus! {

/// The environment variable that holds the setting.
pub const USE_COMMITTED_FEES_ENV: &'static str = "SNOS_REPLAY_USE_COMMITTED_FEES";

/// What a text says of the replay of committed fees.
#[derive(Clone, Copy, Debug, PartialEq, Eq, Structural)]
pub enum Setting {
    Enabled,
    Disabled,
    Invalid,
}

/// The lower case of an ASCII letter; any other character as it is.
pub open spec fn ascii_lower(c: char) -> char {
    if 'A' <= c <= 'Z' {
        (c as int + ('a' as int - 'A' as int)) as char
    } else {
        c
    }
}

/// `text` with its ASCII letters in lower case.
pub open spec fn ascii_lowercase(text: Seq<char>) -> Seq<char> {
    text.map_values(|c: char| ascii_lower(c))
}

/// What `text` says, whatever the case of its ASCII letters.
pub open spec fn setting_of(text: Seq<char>) -> Setting {
    let word = ascii_lowercase(text);
    if word == "1"@ || word == "true"@ || word == "yes"@ {
        Setting::Enabled
    } else if word == "0"@ || word == "false"@ || word == "no"@ {
        Setting::Disabled
    } else {
        Setting::Invalid
    }
}

/// `str::to_ascii_lowercase` of the standard library: ASCII letters from `A` to `Z` are mapped to
/// `a` to `z`, and all other characters are kept.
#[verifier::external_body]
fn to_ascii_lowercase(text: &str) -> (res: String)
    ensures
        res@ == ascii_lowercase(text@),
{
    text.to_ascii_lowercase()
}

/// What the text of the setting says.
pub fn parse_setting(value: &str) -> (res: Setting)
    ensures
        res == setting_of(value@),
{
    let word = to_ascii_lowercase(value);
    if word == String::from_str("1") || word == String::from_str("true") || word
        == String::from_str("yes") {
        Setting::Enabled
    } else if word == String::from_str("0") || word == String::from_str("false") || word
        == String::from_str("no") {
        Setting::Disabled
    } else {
        Setting::Invalid
    }
}

/// Whether the replay of committed fees is turned on, given the text of the setting, if there is
/// one. It is off unless the text turns it on.
pub fn is_enabled(value: Option<&str>) -> (res: bool)
    ensures
        res == (value matches Some(text) && setting_of(text@) == Setting::Enabled),
{
    match value {
        Some(text) => match parse_setting(text) {
            Setting::Enabled => true,
            Setting::Disabled => false,
            Setting::Invalid => false,
        },
        None => false,
    }
}

/// The case of ASCII letters does not matter to a setting.
pub proof fn law_case_does_not_matter(text: Seq<char>)
    ensures
        setting_of(ascii_lowercase(text)) == setting_of(text),
{
    assert(ascii_lowercase(ascii_lowercase(text)) =~= ascii_lowercase(text));
}

/// Whether `text` is `word`, but for letters of `word` that `text` may have in upper case.
pub open spec fn spelled(text: Seq<char>, word: Seq<char>) -> bool {
    &&& text.len() == word.len()
    &&& forall|i: int|
        0 <= i < word.len() ==> (#[trigger] text[i] == word[i] || ('a' <= word[i] <= 'z' && text[i]
            as int + 32 == word[i] as int))
}

proof fn lemma_spelled(text: Seq<char>, word: Seq<char>)
    requires
        forall|i: int| 0 <= i < word.len() ==> !('A' <= #[trigger] word[i] <= 'Z'),
    ensures
        ascii_lowercase(text) == word <==> spelled(text, word),
{
    let lower = ascii_lowercase(text);
    if spelled(text, word) {
        assert forall|i: int| 0 <= i < word.len() implies lower[i] == word[i] by {
            assert(text[i] == word[i] || text[i] as int + 32 == word[i] as int);
        }
        assert(lower =~= word);
    }
    if lower == word {
        assert forall|i: int| 0 <= i < word.len() implies (#[trigger] text[i] == word[i] || ('a'
            <= word[i] <= 'z' && text[i] as int + 32 == word[i] as int)) by {
            assert(lower[i] == word[i]);
        }
    }
}

/// The replay is turned on by 1, true and yes, and off by 0, false and no, in any case of the
/// letters. No other text is a setting.
pub proof fn law_settings_are_these_words(text: Seq<char>)
    ensures
        setting_of(text) == Setting::Enabled <==> {
            ||| spelled(text, seq!['1'])
            ||| spelled(text, seq!['t', 'r', 'u', 'e'])
            ||| spelled(text, seq!['y', 'e', 's'])
        },
        setting_of(text) == Setting::Disabled <==> {
            ||| spelled(text, seq!['0'])
            ||| spelled(text, seq!['f', 'a', 'l', 's', 'e'])
            ||| spelled(text, seq!['n', 'o'])
        },
{
    reveal_strlit("1");
    reveal_strlit("true");
    reveal_strlit("yes");
    reveal_strlit("0");
    reveal_strlit("false");
    reveal_strlit("no");
    assert("1"@ =~= seq!['1']);
    assert("true"@ =~= seq!['t', 'r', 'u', 'e']);
    assert("yes"@ =~= seq!['y', 'e', 's']);
    assert("0"@ =~= seq!['0']);
    assert("false"@ =~= seq!['f', 'a', 'l', 's', 'e']);
    assert("no"@ =~= seq!['n', 'o']);
    lemma_spelled(text, "1"@);
    lemma_spelled(text, "true"@);
    lemma_spelled(text, "yes"@);
    lemma_spelled(text, "0"@);
    lemma_spelled(text, "false"@);
    lemma_spelled(text, "no"@);
    assert("1"@[0] != "0"@[0]);
}

} // verus!
