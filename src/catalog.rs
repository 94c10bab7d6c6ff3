//! The fixed table of supported languages, and lookup by name or code.

use vstd::prelude::*;
use crate::text::{lower_of, to_lower};

verus! {

/// Number of languages in the catalog.
pub const LANG_COUNT: usize = 31;

/// Entry `i` of the catalog as (display name, lowercase display name, code),
/// in declaration order.
pub open spec fn lang_entry(i: int) -> (Seq<char>, Seq<char>, Seq<char>) {
    if i == 0 {
        ("Arabic"@, "arabic"@, "ar"@)
    } else if i == 1 {
        ("Bulgarian"@, "bulgarian"@, "bg"@)
    } else if i == 2 {
        ("Chinese"@, "chinese"@, "zh"@)
    } else if i == 3 {
        ("Czech"@, "czech"@, "cs"@)
    } else if i == 4 {
        ("Danish"@, "danish"@, "da"@)
    } else if i == 5 {
        ("Dutch"@, "dutch"@, "nl"@)
    } else if i == 6 {
        ("English"@, "english"@, "en"@)
    } else if i == 7 {
        ("Estonian"@, "estonian"@, "et"@)
    } else if i == 8 {
        ("Finnish"@, "finnish"@, "fi"@)
    } else if i == 9 {
        ("French"@, "french"@, "fr"@)
    } else if i == 10 {
        ("German"@, "german"@, "de"@)
    } else if i == 11 {
        ("Greek"@, "greek"@, "el"@)
    } else if i == 12 {
        ("Hungarian"@, "hungarian"@, "hu"@)
    } else if i == 13 {
        ("Indonesian"@, "indonesian"@, "id"@)
    } else if i == 14 {
        ("Italian"@, "italian"@, "it"@)
    } else if i == 15 {
        ("Japanese"@, "japanese"@, "ja"@)
    } else if i == 16 {
        ("Korean"@, "korean"@, "ko"@)
    } else if i == 17 {
        ("Latvian"@, "latvian"@, "lv"@)
    } else if i == 18 {
        ("Lithuanian"@, "lithuanian"@, "lt"@)
    } else if i == 19 {
        ("Norwegian"@, "norwegian"@, "nb"@)
    } else if i == 20 {
        ("Polish"@, "polish"@, "pl"@)
    } else if i == 21 {
        ("Portuguese"@, "portuguese"@, "pt"@)
    } else if i == 22 {
        ("Romanian"@, "romanian"@, "ro"@)
    } else if i == 23 {
        ("Russian"@, "russian"@, "ru"@)
    } else if i == 24 {
        ("Slovak"@, "slovak"@, "sk"@)
    } else if i == 25 {
        ("Slovenian"@, "slovenian"@, "sl"@)
    } else if i == 26 {
        ("Spanish"@, "spanish"@, "es"@)
    } else if i == 27 {
        ("Swedish"@, "swedish"@, "sv"@)
    } else if i == 28 {
        ("Turkish"@, "turkish"@, "tr"@)
    } else if i == 29 {
        ("Ukrainian"@, "ukrainian"@, "uk"@)
    } else {
        ("Hindi"@, "hindi"@, "hi"@)
    }
}

/// Display name of entry `i`.
pub open spec fn lang_name(i: int) -> Seq<char> {
    lang_entry(i).0
}

/// Lowercase display name of entry `i`, the form a lowercased token is
/// compared with.
pub open spec fn lang_key(i: int) -> Seq<char> {
    lang_entry(i).1
}

/// Short code of entry `i`.
pub open spec fn lang_code(i: int) -> Seq<char> {
    lang_entry(i).2
}

/// A lowercased token names entry `i`: it is the entry's lowercase display
/// name or its code.
pub open spec fn names_entry(t: Seq<char>, i: int) -> bool {
    t == lang_key(i) || t == lang_code(i)
}

/// Entry `i` is the first entry of the catalog that the lowercased token names.
pub open spec fn is_first_match(t: Seq<char>, i: int) -> bool {
    &&& 0 <= i < LANG_COUNT
    &&& names_entry(t, i)
    &&& forall|j: int| 0 <= j < i ==> !names_entry(t, j)
}

/// No entry of the catalog is named by the lowercased token.
pub open spec fn no_match(t: Seq<char>) -> bool {
    forall|j: int| 0 <= j < LANG_COUNT ==> !names_entry(t, j)
}

/// The position of the entry that a lowercased token names first, if any.
pub open spec fn resolve(t: Seq<char>) -> Option<int> {
    if exists|i: int| is_first_match(t, i) {
        Some(choose|i: int| is_first_match(t, i))
    } else {
        None
    }
}

/// There is at most one first match.
pub proof fn lemma_first_match_unique(t: Seq<char>, i: int, j: int)
    requires
        is_first_match(t, i),
        is_first_match(t, j),
    ensures
        i == j,
{
}

/// A catalog entry: the display name of a language and its short code.
pub struct Language {
    pub name: String,
    pub code: String,
}

impl Language {
    /// The entry as a pair of character sequences (display name, code).
    pub open spec fn view(&self) -> (Seq<char>, Seq<char>) {
        (self.name@, self.code@)
    }
}

/// Entry `i` of the catalog, as static strings.
fn raw_entry(i: usize) -> (r: (&'static str, &'static str, &'static str))
    requires
        i < LANG_COUNT,
    ensures
        (r.0@, r.1@, r.2@) == lang_entry(i as int),
{
    match i {
        0 => ("Arabic", "arabic", "ar"),
        1 => ("Bulgarian", "bulgarian", "bg"),
        2 => ("Chinese", "chinese", "zh"),
        3 => ("Czech", "czech", "cs"),
        4 => ("Danish", "danish", "da"),
        5 => ("Dutch", "dutch", "nl"),
        6 => ("English", "english", "en"),
        7 => ("Estonian", "estonian", "et"),
        8 => ("Finnish", "finnish", "fi"),
        9 => ("French", "french", "fr"),
        10 => ("German", "german", "de"),
        11 => ("Greek", "greek", "el"),
        12 => ("Hungarian", "hungarian", "hu"),
        13 => ("Indonesian", "indonesian", "id"),
        14 => ("Italian", "italian", "it"),
        15 => ("Japanese", "japanese", "ja"),
        16 => ("Korean", "korean", "ko"),
        17 => ("Latvian", "latvian", "lv"),
        18 => ("Lithuanian", "lithuanian", "lt"),
        19 => ("Norwegian", "norwegian", "nb"),
        20 => ("Polish", "polish", "pl"),
        21 => ("Portuguese", "portuguese", "pt"),
        22 => ("Romanian", "romanian", "ro"),
        23 => ("Russian", "russian", "ru"),
        24 => ("Slovak", "slovak", "sk"),
        25 => ("Slovenian", "slovenian", "sl"),
        26 => ("Spanish", "spanish", "es"),
        27 => ("Swedish", "swedish", "sv"),
        28 => ("Turkish", "turkish", "tr"),
        29 => ("Ukrainian", "ukrainian", "uk"),
        _ => ("Hindi", "hindi", "hi"),
    }
}

/// Length and first two characters of a sequence: enough to tell the
/// catalog's names and codes apart.
spec fn signature(t: Seq<char>) -> (int, char, char) {
    (t.len() as int, t[0], t[1])
}

proof fn lemma_distinct_names()
    ensures
        forall|i: int, j: int|
            0 <= j < i < LANG_COUNT ==> {
                &&& lang_key(j) != lang_key(i)
                &&& lang_code(j) != lang_code(i)
                &&& lang_key(j) != lang_code(i)
                &&& lang_code(j) != lang_key(i)
            },
{
        reveal_strlit("arabic");
        reveal_strlit("ar");
        reveal_strlit("bulgarian");
        reveal_strlit("bg");
        reveal_strlit("chinese");
        reveal_strlit("zh");
        reveal_strlit("czech");
        reveal_strlit("cs");
        reveal_strlit("danish");
        reveal_strlit("da");
        reveal_strlit("dutch");
        reveal_strlit("nl");
        reveal_strlit("english");
        reveal_strlit("en");
        reveal_strlit("estonian");
        reveal_strlit("et");
        reveal_strlit("finnish");
        reveal_strlit("fi");
        reveal_strlit("french");
        reveal_strlit("fr");
        reveal_strlit("german");
        reveal_strlit("de");
        reveal_strlit("greek");
        reveal_strlit("el");
        reveal_strlit("hungarian");
        reveal_strlit("hu");
        reveal_strlit("indonesian");
        reveal_strlit("id");
        reveal_strlit("italian");
        reveal_strlit("it");
        reveal_strlit("japanese");
        reveal_strlit("ja");
        reveal_strlit("korean");
        reveal_strlit("ko");
        reveal_strlit("latvian");
        reveal_strlit("lv");
        reveal_strlit("lithuanian");
        reveal_strlit("lt");
        reveal_strlit("norwegian");
        reveal_strlit("nb");
        reveal_strlit("polish");
        reveal_strlit("pl");
        reveal_strlit("portuguese");
        reveal_strlit("pt");
        reveal_strlit("romanian");
        reveal_strlit("ro");
        reveal_strlit("russian");
        reveal_strlit("ru");
        reveal_strlit("slovak");
        reveal_strlit("sk");
        reveal_strlit("slovenian");
        reveal_strlit("sl");
        reveal_strlit("spanish");
        reveal_strlit("es");
        reveal_strlit("swedish");
        reveal_strlit("sv");
        reveal_strlit("turkish");
        reveal_strlit("tr");
        reveal_strlit("ukrainian");
        reveal_strlit("uk");
        reveal_strlit("hindi");
        reveal_strlit("hi");
    assert forall|i: int, j: int| 0 <= j < i < LANG_COUNT implies {
        &&& signature(lang_key(j)) != signature(lang_key(i))
        &&& signature(lang_code(j)) != signature(lang_code(i))
        &&& signature(lang_key(j)) != signature(lang_code(i))
        &&& signature(lang_code(j)) != signature(lang_key(i))
    } by {}
}

/// Builds the catalog entry `i`.
pub fn language_at(i: usize) -> (r: Language)
    requires
        i < LANG_COUNT,
    ensures
        r@ == (lang_name(i as int), lang_code(i as int)),
{
    let (name, _key, code) = raw_entry(i);
    Language { name: String::from_str(name), code: String::from_str(code) }
}

/// Finds the first catalog entry named by an already lowercased token, and
/// gives its position.
pub fn find_lang_lowered(lowered: &String) -> (r: Option<usize>)
    ensures
        match r {
            Some(i) => is_first_match(lowered@, i as int) && resolve(lowered@) == Some(i as int),
            None => no_match(lowered@) && resolve(lowered@) is None,
        },
{
    let mut i: usize = 0;
    while i < LANG_COUNT
        invariant
            i <= LANG_COUNT,
            forall|j: int| 0 <= j < i ==> !names_entry(lowered@, j),
        decreases LANG_COUNT - i,
    {
        let (_name, key, code) = raw_entry(i);
        let key = String::from_str(key);
        let code = String::from_str(code);
        if *lowered == key || *lowered == code {
            proof {
                assert(is_first_match(lowered@, i as int));
                let c = choose|c: int| is_first_match(lowered@, c);
                lemma_first_match_unique(lowered@, c, i as int);
            }
            return Some(i);
        }
        i = i + 1;
    }
    None
}

/// Looks a language up by display name or code, without regard to case.
/// Gives the first entry in catalog order whose lowercase name or code equals
/// the lowercased token.
pub fn find_lang(token: &str) -> (r: Option<Language>)
    ensures
        match r {
            Some(l) => resolve(lower_of(token@)) matches Some(i) && l@ == (lang_name(i), lang_code(i)),
            None => resolve(lower_of(token@)) is None,
        },
{
    let lowered = to_lower(token);
    match find_lang_lowered(&lowered) {
        Some(i) => Some(language_at(i)),
        None => None,
    }
}

/// An entry's lowercase display name and its code each name that entry
/// before any other.
pub proof fn lemma_entry_resolves(t: Seq<char>, i: int)
    requires
        0 <= i < LANG_COUNT,
        t == lang_key(i) || t == lang_code(i),
    ensures
        is_first_match(t, i),
        resolve(t) == Some(i),
{
    lemma_distinct_names();
    assert forall|j: int| 0 <= j < i implies !names_entry(t, j) by {
        assert(lang_key(j) != lang_key(i));
        assert(lang_code(j) != lang_code(i));
    }
    assert(is_first_match(t, i));
    let c = choose|c: int| is_first_match(t, c);
    lemma_first_match_unique(t, c, i);
}

/// Lookup finds every entry, whatever the case of the token: a token whose
/// lowercase form is the entry's lowercase display name or its code finds
/// that entry first.
pub proof fn lemma_lookup_finds_entry(token: Seq<char>, i: int)
    requires
        0 <= i < LANG_COUNT,
        lower_of(token) == lang_key(i) || lower_of(token) == lang_code(i),
    ensures
        is_first_match(lower_of(token), i),
        resolve(lower_of(token)) == Some(i),
{
    lemma_entry_resolves(lower_of(token), i);
}

/// No two entries share a code.
pub proof fn lemma_code_identifies(i: int, j: int)
    requires
        0 <= i < LANG_COUNT,
        0 <= j < LANG_COUNT,
        lang_code(i) == lang_code(j),
    ensures
        i == j,
{
    lemma_distinct_names();
}

/// A code outside the catalog names no entry.
pub proof fn lemma_unknown_code_not_found()
    ensures
        no_match("xx"@),
        resolve("xx"@) is None,
{
    reveal_strlit("arabic");
    reveal_strlit("ar");
    reveal_strlit("bulgarian");
    reveal_strlit("bg");
    reveal_strlit("chinese");
    reveal_strlit("zh");
    reveal_strlit("czech");
    reveal_strlit("cs");
    reveal_strlit("danish");
    reveal_strlit("da");
    reveal_strlit("dutch");
    reveal_strlit("nl");
    reveal_strlit("english");
    reveal_strlit("en");
    reveal_strlit("estonian");
    reveal_strlit("et");
    reveal_strlit("finnish");
    reveal_strlit("fi");
    reveal_strlit("french");
    reveal_strlit("fr");
    reveal_strlit("german");
    reveal_strlit("de");
    reveal_strlit("greek");
    reveal_strlit("el");
    reveal_strlit("hungarian");
    reveal_strlit("hu");
    reveal_strlit("indonesian");
    reveal_strlit("id");
    reveal_strlit("italian");
    reveal_strlit("it");
    reveal_strlit("japanese");
    reveal_strlit("ja");
    reveal_strlit("korean");
    reveal_strlit("ko");
    reveal_strlit("latvian");
    reveal_strlit("lv");
    reveal_strlit("lithuanian");
    reveal_strlit("lt");
    reveal_strlit("norwegian");
    reveal_strlit("nb");
    reveal_strlit("polish");
    reveal_strlit("pl");
    reveal_strlit("portuguese");
    reveal_strlit("pt");
    reveal_strlit("romanian");
    reveal_strlit("ro");
    reveal_strlit("russian");
    reveal_strlit("ru");
    reveal_strlit("slovak");
    reveal_strlit("sk");
    reveal_strlit("slovenian");
    reveal_strlit("sl");
    reveal_strlit("spanish");
    reveal_strlit("es");
    reveal_strlit("swedish");
    reveal_strlit("sv");
    reveal_strlit("turkish");
    reveal_strlit("tr");
    reveal_strlit("ukrainian");
    reveal_strlit("uk");
    reveal_strlit("hindi");
    reveal_strlit("hi");
    reveal_strlit("xx");
    assert forall|j: int| 0 <= j < LANG_COUNT implies !names_entry("xx"@, j) by {
        assert(signature("xx"@) != signature(lang_key(j)));
        assert(signature("xx"@) != signature(lang_code(j)));
    }
}

} // verus!
