//! Requests to the DeepL translation service and the reading of its replies.
//! The HTTP exchange itself happens outside the library: it is handed a
//! prepared request and gives back what the service answered.

use vstd::prelude::*;
use crate::text::{lower_of, to_lower};

verus! {

/// Number of rows in the table from catalog codes to DeepL's codes.
pub const DEEPL_CODE_COUNT: usize = 32;

/// Row `k` of the code table: a lowercase code and the code DeepL expects.
pub open spec fn deepl_row(k: int) -> (Seq<char>, Seq<char>) {
    if k == 0 {
        ("zh"@, "ZH"@)
    } else if k == 1 {
        ("en"@, "EN"@)
    } else if k == 2 {
        ("de"@, "DE"@)
    } else if k == 3 {
        ("fr"@, "FR"@)
    } else if k == 4 {
        ("it"@, "IT"@)
    } else if k == 5 {
        ("ja"@, "JA"@)
    } else if k == 6 {
        ("es"@, "ES"@)
    } else if k == 7 {
        ("nl"@, "NL"@)
    } else if k == 8 {
        ("pl"@, "PL"@)
    } else if k == 9 {
        ("pt"@, "PT"@)
    } else if k == 10 {
        ("ru"@, "RU"@)
    } else if k == 11 {
        ("bg"@, "BG"@)
    } else if k == 12 {
        ("cs"@, "CS"@)
    } else if k == 13 {
        ("da"@, "DA"@)
    } else if k == 14 {
        ("el"@, "EL"@)
    } else if k == 15 {
        ("et"@, "ET"@)
    } else if k == 16 {
        ("fi"@, "FI"@)
    } else if k == 17 {
        ("hu"@, "HU"@)
    } else if k == 18 {
        ("id"@, "ID"@)
    } else if k == 19 {
        ("lv"@, "LV"@)
    } else if k == 20 {
        ("lt"@, "LT"@)
    } else if k == 21 {
        ("ro"@, "RO"@)
    } else if k == 22 {
        ("sk"@, "SK"@)
    } else if k == 23 {
        ("sl"@, "SL"@)
    } else if k == 24 {
        ("sv"@, "SV"@)
    } else if k == 25 {
        ("tr"@, "TR"@)
    } else if k == 26 {
        ("uk"@, "UK"@)
    } else if k == 27 {
        ("ar"@, "AR"@)
    } else if k == 28 {
        ("hi"@, "HI"@)
    } else if k == 29 {
        ("ko"@, "KO"@)
    } else if k == 30 {
        ("nb"@, "NB"@)
    } else {
        ("no"@, "NB"@)
    }
}

/// The DeepL code for a code whose lowercase form is `lowered`, searching the
/// table from row `k`; a code outside the table is kept as it was given.
pub open spec fn deepl_code_from(lowered: Seq<char>, given: Seq<char>, k: int) -> Seq<char>
    decreases DEEPL_CODE_COUNT - k,
{
    if k < 0 || k >= DEEPL_CODE_COUNT {
        given
    } else if lowered == deepl_row(k).0 {
        deepl_row(k).1
    } else {
        deepl_code_from(lowered, given, k + 1)
    }
}

/// The DeepL code for `given`, whose lowercase form is `lowered`.
pub open spec fn deepl_code(lowered: Seq<char>, given: Seq<char>) -> Seq<char> {
    deepl_code_from(lowered, given, 0)
}

fn deepl_row_exec(k: usize) -> (r: (&'static str, &'static str))
    requires
        k < DEEPL_CODE_COUNT,
    ensures
        (r.0@, r.1@) == deepl_row(k as int),
{
    match k {
        0 => ("zh", "ZH"),
        1 => ("en", "EN"),
        2 => ("de", "DE"),
        3 => ("fr", "FR"),
        4 => ("it", "IT"),
        5 => ("ja", "JA"),
        6 => ("es", "ES"),
        7 => ("nl", "NL"),
        8 => ("pl", "PL"),
        9 => ("pt", "PT"),
        10 => ("ru", "RU"),
        11 => ("bg", "BG"),
        12 => ("cs", "CS"),
        13 => ("da", "DA"),
        14 => ("el", "EL"),
        15 => ("et", "ET"),
        16 => ("fi", "FI"),
        17 => ("hu", "HU"),
        18 => ("id", "ID"),
        19 => ("lv", "LV"),
        20 => ("lt", "LT"),
        21 => ("ro", "RO"),
        22 => ("sk", "SK"),
        23 => ("sl", "SL"),
        24 => ("sv", "SV"),
        25 => ("tr", "TR"),
        26 => ("uk", "UK"),
        27 => ("ar", "AR"),
        28 => ("hi", "HI"),
        29 => ("ko", "KO"),
        30 => ("nb", "NB"),
        _ => ("no", "NB"),
    }
}

/// Maps a code whose lowercase form is `lowered` to DeepL's format; a code
/// outside the table is given back unchanged.
pub fn deepl_code_lowered(lowered: &String, given: &str) -> (r: String)
    ensures
        r@ == deepl_code(lowered@, given@),
{
    let mut k: usize = 0;
    while k < DEEPL_CODE_COUNT
        invariant
            k <= DEEPL_CODE_COUNT,
            deepl_code_from(lowered@, given@, 0) == deepl_code_from(lowered@, given@, k as int),
        decreases DEEPL_CODE_COUNT - k,
    {
        let (ours, theirs) = deepl_row_exec(k);
        let ours = String::from_str(ours);
        if *lowered == ours {
            return String::from_str(theirs);
        }
        k = k + 1;
    }
    String::from_str(given)
}

/// Maps a language code to DeepL's format, without regard to case; a code
/// outside the table is given back unchanged.
pub fn map_to_deepl_lang(lang: &str) -> (r: String)
    ensures
        r@ == deepl_code(lower_of(lang@), lang@),
{
    let lowered = to_lower(lang);
    deepl_code_lowered(&lowered, lang)
}

/// A failed translation: the text to show in place of a translation (the
/// original text), the description of what went wrong, and whether the
/// service refused because the account is over its quota.
pub struct TranslationError {
    pub partial_trans: String,
    pub error_msg: String,
    pub over_limit: bool,
}

impl TranslationError {
    pub fn new(partial_trans: String, error_msg: String, over_limit: bool) -> (r: Self)
        ensures
            r.partial_trans@ == partial_trans@,
            r.error_msg@ == error_msg@,
            r.over_limit == over_limit,
    {
        TranslationError { partial_trans, error_msg, over_limit }
    }

    /// The text to show in place of the translation.
    pub fn get_partial_trans(&self) -> (r: &str)
        ensures
            r@ == self.partial_trans@,
    {
        self.partial_trans.as_str()
    }

    /// Whether the service refused because of a rate limit or quota.
    pub fn is_over_limit(&self) -> (r: bool)
        ensures
            r == self.over_limit,
    {
        self.over_limit
    }

    /// The one-line description shown to the user.
    pub fn message(&self) -> (r: String)
        ensures
            r@ == "Translation Error: "@ + self.error_msg@,
    {
        String::from_str("Translation Error: ").concat(self.error_msg.as_str())
    }
}

/// A translation request ready to be sent: the credential, the one text to
/// translate, the source language (absent: let the service detect it) and the
/// target language, both in DeepL's format.
pub struct TranslationRequest {
    pub auth_key: String,
    pub text: String,
    pub source_lang: Option<String>,
    pub target_lang: String,
}

/// The DeepL source code of `source`, or none where it asks for detection.
pub open spec fn source_field(source: Seq<char>) -> Option<Seq<char>> {
    let code = deepl_code(lower_of(source), source);
    if code == "auto"@ {
        None
    } else {
        Some(code)
    }
}

/// Prepares the request that translates `text` from `source` to `target`.
/// Without a credential nothing can be sent: the error keeps the text.
pub fn prepare_request(text: &str, source: &str, target: &str, api_key: Option<String>) -> (r: Result<TranslationRequest, TranslationError>)
    ensures
        match api_key {
            None => r matches Err(e) && e.partial_trans@ == text@ && !e.over_limit
                && e.error_msg@ == "DeepL API key not found. Set DEEPL_API_KEY environment variable."@,
            Some(k) => r matches Ok(q) && q.auth_key@ == k@ && q.text@ == text@
                && q.target_lang@ == deepl_code(lower_of(target@), target@)
                && match (q.source_lang, source_field(source@)) {
                    (None, None) => true,
                    (Some(a), Some(b)) => a@ == b,
                    _ => false,
                },
        },
{
    let auth_key = match api_key {
        Some(k) => k,
        None => {
            return Err(TranslationError::new(
                String::from_str(text),
                String::from_str("DeepL API key not found. Set DEEPL_API_KEY environment variable."),
                false,
            ));
        },
    };
    let deepl_source = map_to_deepl_lang(source);
    let deepl_target = map_to_deepl_lang(target);
    let auto = String::from_str("auto");
    let source_lang = if deepl_source == auto {
        None
    } else {
        Some(deepl_source)
    };
    Ok(TranslationRequest { auth_key, text: String::from_str(text), source_lang, target_lang: deepl_target })
}

/// What came back from one exchange with the service.
pub enum ServiceReply {
    /// A well-formed reply, with the translated texts in order.
    Translations(Vec<String>),
    /// A reply whose body could not be read; the reason.
    BadBody(String),
    /// The service answered with an error status; the status and its description.
    Status(u16, String),
    /// The exchange failed before a status came back; the description.
    Transport(String),
}

/// Whether an error status means the account is over its rate limit or quota.
pub open spec fn is_limit_status(code: u16) -> bool {
    code == 403 || code == 429
}

/// Reads the service's reply to a request that translated `text`. Success
/// gives the first translation; every failure keeps `text` to show instead.
pub fn read_reply(text: &str, reply: ServiceReply) -> (r: Result<String, TranslationError>)
    ensures
        match reply {
            ServiceReply::Translations(v) => if v@.len() > 0 {
                r matches Ok(t) && t@ == v@[0]@
            } else {
                r matches Err(e) && e.partial_trans@ == text@ && !e.over_limit
                    && e.error_msg@ == "No translation returned from DeepL API"@
            },
            ServiceReply::BadBody(m) => r matches Err(e) && e.partial_trans@ == text@ && !e.over_limit
                && e.error_msg@ == "Failed to parse DeepL response: "@ + m@,
            ServiceReply::Status(code, m) => r matches Err(e) && e.partial_trans@ == text@
                && e.over_limit == is_limit_status(code)
                && e.error_msg@ == "DeepL API request failed: "@ + m@,
            ServiceReply::Transport(m) => r matches Err(e) && e.partial_trans@ == text@ && !e.over_limit
                && e.error_msg@ == "DeepL API request failed: "@ + m@,
        },
{
    match reply {
        ServiceReply::Translations(mut v) => {
            if v.len() > 0 {
                Ok(v.swap_remove(0))
            } else {
                Err(TranslationError::new(
                    String::from_str(text),
                    String::from_str("No translation returned from DeepL API"),
                    false,
                ))
            }
        },
        ServiceReply::BadBody(m) => Err(TranslationError::new(
            String::from_str(text),
            String::from_str("Failed to parse DeepL response: ").concat(m.as_str()),
            false,
        )),
        ServiceReply::Status(code, m) => Err(TranslationError::new(
            String::from_str(text),
            String::from_str("DeepL API request failed: ").concat(m.as_str()),
            code == 403 || code == 429,
        )),
        ServiceReply::Transport(m) => Err(TranslationError::new(
            String::from_str(text),
            String::from_str("DeepL API request failed: ").concat(m.as_str()),
            false,
        )),
    }
}

} // verus!
