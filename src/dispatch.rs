//! What the plugin does when a command is issued, a chat event arrives, or a
//! translation comes back. Each handler takes the registry and the values the
//! host gave, and answers with what to show or send and which translation to
//! start; the host calls themselves are made by the caller.

use vstd::prelude::*;
use crate::catalog::{find_lang, Language, resolve, lang_name, lang_key, lang_code, LANG_COUNT, language_at};
use crate::deepl::TranslationError;
use crate::registry::{ChannelKey, LanguagePair, Registry};
use crate::text::lower_of;

verus! {

/// How far the host should go on with an event or command after a handler.
#[derive(PartialEq, Eq, Structural, Clone, Copy, Debug)]
pub enum Eat {
    /// Not handled: the host and other plugins go on as usual.
    Pass,
    /// The host does not show it; other plugins still see it.
    Host,
    /// Fully handled: nobody else sees it.
    All,
}

/// The plain command that carries a translated message out.
#[derive(PartialEq, Eq, Structural, Clone, Copy, Debug)]
pub enum SendKind {
    /// An ordinary message (`SAY`).
    Say,
    /// An action (`ME`).
    Me,
}

/// A line shown to the user.
pub enum Line {
    Blank,
    /// The heading of the language list.
    ListHeader,
    /// One row of the language list.
    ListRow(Vec<Language>),
    /// The language list was asked for with arguments.
    ListUsage,
    SetlangUsage,
    OfflangUsage,
    /// Translation is on, from the user's language to the context's.
    TranslationOn { source_name: String, target_name: String },
    /// A language was not found, or both were the same.
    BadLanguages,
    TranslationOff,
    ActivationFailed,
    DeactivationFailed,
    /// The context could not be told, or the message could not be stripped.
    BasicFailure,
    /// The context of a finished translation is gone.
    ContextLost,
    /// The untranslated text, shown to the user only.
    Original(String),
    /// The description of a failed translation.
    Failure(String),
}

/// One thing for the host to do.
pub enum Action {
    /// Print a line in the current window.
    Print(Line),
    /// Send a message of this kind in the translation's context.
    Send(SendKind, String),
    /// Print a line in the translation's context.
    PrintThere(Line),
    /// Emit the named event in the translation's context with these fields.
    Emit(String, Vec<String>),
}

/// How a finished translation is delivered.
pub enum Delivery {
    /// Sent out as the user's own message.
    Send(SendKind),
    /// Shown as the event that brought it, in place of the original text.
    Emit { event: String, sender: String, mode: String },
}

/// A translation to run away from the host's thread: everything it needs is
/// held by value.
pub struct Job {
    pub key: ChannelKey,
    /// The plain text to translate.
    pub text: String,
    /// The text as it was given, formatting and all.
    pub original: String,
    /// Code of the language the text is in.
    pub from: String,
    /// Code of the language wanted.
    pub to: String,
    pub delivery: Delivery,
}

/// A handler's answer: what the host does with the event or command, what to
/// show or send now, and the translation to start, if any.
pub struct Reaction {
    pub eat: Eat,
    pub actions: Vec<Action>,
    pub job: Option<Job>,
}

/// The field that marks an event this plugin emitted itself.
pub open spec fn echo_marker() -> Seq<char> {
    "~"@
}

/// The sessions, as the registry's view.
pub type Sessions = Map<(Seq<char>, Seq<char>), (Seq<char>, Seq<char>)>;

/// Whether translation is on in the context, if the context is known.
pub open spec fn is_active(s: Sessions, ctx: Option<ChannelKey>) -> bool {
    ctx matches Some(k) && s.contains_key(k@)
}

/// The catalog entries that a SETLANG command's two languages resolve to,
/// where both resolve and differ.
pub open spec fn setlang_choice(src: Seq<char>, tgt: Seq<char>) -> Option<(int, int)> {
    match (resolve(lower_of(src)), resolve(lower_of(tgt))) {
        (Some(i), Some(j)) => if i != j {
            Some((i, j))
        } else {
            None
        },
        _ => None,
    }
}

fn reaction(eat: Eat, actions: Vec<Action>) -> (r: Reaction)
    ensures
        r.eat == eat,
        r.actions@ == actions@,
        r.job is None,
{
    Reaction { eat, actions, job: None }
}

/// Handles `SETLANG <src> <tgt>`: both languages must be in the catalog and
/// differ; translation is then on in the current context, between their codes.
pub fn on_cmd_setlang(reg: &mut Registry, ctx: Option<ChannelKey>, word: &Vec<String>) -> (r: Reaction)
    requires
        old(reg).wf(),
    ensures
        final(reg).wf(),
        r.eat == Eat::All,
        r.job is None,
        word@.len() != 3 ==> final(reg)@ == old(reg)@ && r.actions@.len() == 1
            && r.actions@[0] matches Action::Print(Line::SetlangUsage),
        word@.len() == 3 ==> match setlang_choice(word@[1]@, word@[2]@) {
            None => final(reg)@ == old(reg)@ && r.actions@.len() == 1
                && r.actions@[0] matches Action::Print(Line::BadLanguages),
            Some((i, j)) => {
                &&& r.actions@.last() matches Action::Print(Line::TranslationOn { source_name, target_name })
                    && source_name@ == lang_name(i) && target_name@ == lang_name(j)
                &&& match ctx {
                    Some(k) => final(reg)@ == old(reg)@.insert(k@, (lang_code(i), lang_code(j)))
                        && r.actions@.len() == 1,
                    None => final(reg)@ == old(reg)@ && r.actions@.len() == 2
                        && r.actions@[0] matches Action::Print(Line::ActivationFailed),
                }
            },
        },
{
    let mut actions: Vec<Action> = Vec::new();
    if word.len() != 3 {
        actions.push(Action::Print(Line::SetlangUsage));
        return reaction(Eat::All, actions);
    }
    let src = find_lang(word[1].as_str());
    let tgt = find_lang(word[2].as_str());
    match (src, tgt) {
        (Some(s), Some(t)) => {
            if s.code != t.code {
                match ctx {
                    Some(k) => {
                        reg.activate(k, LanguagePair { source: s.code, target: t.code });
                    },
                    None => {
                        actions.push(Action::Print(Line::ActivationFailed));
                    },
                }
                actions.push(Action::Print(Line::TranslationOn { source_name: s.name, target_name: t.name }));
                return reaction(Eat::All, actions);
            } else {
                proof {
                    let i = resolve(lower_of(word@[1]@))->Some_0;
                    let j = resolve(lower_of(word@[2]@))->Some_0;
                    crate::catalog::lemma_code_identifies(i, j);
                }
            }
        },
        _ => {},
    }
    actions.push(Action::Print(Line::BadLanguages));
    reaction(Eat::All, actions)
}

/// Handles `OFFLANG`: translation is off in the current context, whether or
/// not it was on.
pub fn on_cmd_offlang(reg: &mut Registry, ctx: Option<ChannelKey>, word: &Vec<String>) -> (r: Reaction)
    requires
        old(reg).wf(),
    ensures
        final(reg).wf(),
        r.eat == Eat::All,
        r.job is None,
        word@.len() != 1 ==> final(reg)@ == old(reg)@ && r.actions@.len() == 1
            && r.actions@[0] matches Action::Print(Line::OfflangUsage),
        word@.len() == 1 ==> {
            &&& r.actions@.last() matches Action::Print(Line::TranslationOff)
            &&& match ctx {
                Some(k) => final(reg)@ == old(reg)@.remove(k@) && r.actions@.len() == 1,
                None => final(reg)@ == old(reg)@ && r.actions@.len() == 2
                    && r.actions@[0] matches Action::Print(Line::DeactivationFailed),
            }
        },
{
    let mut actions: Vec<Action> = Vec::new();
    if word.len() != 1 {
        actions.push(Action::Print(Line::OfflangUsage));
        return reaction(Eat::All, actions);
    }
    match ctx {
        Some(k) => reg.deactivate(&k),
        None => actions.push(Action::Print(Line::DeactivationFailed)),
    }
    actions.push(Action::Print(Line::TranslationOff));
    reaction(Eat::All, actions)
}

/// Handles `LSAY` and `LME`: where translation is on in the current context,
/// the stripped message is translated and then sent as `kind`; elsewhere the
/// command is not handled.
pub fn on_cmd_lsay(reg: &Registry, ctx: Option<ChannelKey>, kind: SendKind, message: String, stripped: Option<String>) -> (r: Reaction)
    requires
        reg.wf(),
    ensures
        !is_active(reg@, ctx) ==> r.eat == Eat::Pass && r.actions@.len() == 0 && r.job is None,
        is_active(reg@, ctx) ==> r.eat == Eat::All && match stripped {
            None => r.job is None && r.actions@.len() == 1
                && r.actions@[0] matches Action::Print(Line::BasicFailure),
            Some(s) => {
                &&& r.actions@.len() == 0
                &&& r.job matches Some(j)
                &&& j.key@ == ctx->Some_0@
                &&& j.text@ == s@
                &&& j.original@ == message@
                &&& j.from@ == reg@[ctx->Some_0@].0
                &&& j.to@ == reg@[ctx->Some_0@].1
                &&& j.delivery matches Delivery::Send(k) && k == kind
            },
        },
{
    let mut actions: Vec<Action> = Vec::new();
    let key = match ctx {
        Some(k) => k,
        None => return reaction(Eat::Pass, actions),
    };
    let pair = match reg.lookup(&key) {
        Some(p) => p,
        None => return reaction(Eat::Pass, actions),
    };
    match stripped {
        Some(text) => {
            let job = Job {
                key,
                text,
                original: message,
                from: pair.source,
                to: pair.target,
                delivery: Delivery::Send(kind),
            };
            Reaction { eat: Eat::All, actions, job: Some(job) }
        },
        None => {
            actions.push(Action::Print(Line::BasicFailure));
            reaction(Eat::All, actions)
        },
    }
}

/// An event's fields that this plugin does not translate: too few of them,
/// or the echo of an event it emitted itself.
pub open spec fn is_echo_or_short(word: Seq<String>) -> bool {
    word.len() < 2 || word.last()@ == echo_marker()
}

/// The mode field of an event, empty where it carries none.
pub open spec fn mode_of(word: Seq<String>) -> Seq<char> {
    if word.len() > 2 {
        word[2]@
    } else {
        Seq::empty()
    }
}

/// Handles a chat event with fields `word` (sender, message, optional mode):
/// where translation is on in the current context, the stripped message is
/// translated back into the user's language and the event is hidden from the
/// host until then.
pub fn on_recv_message(reg: &Registry, ctx: Option<ChannelKey>, event: String, word: &Vec<String>, stripped: Option<String>) -> (r: Reaction)
    requires
        reg.wf(),
    ensures
        is_echo_or_short(word@) || !is_active(reg@, ctx) ==> r.eat == Eat::Pass
            && r.actions@.len() == 0 && r.job is None,
        !is_echo_or_short(word@) && is_active(reg@, ctx) ==> r.eat == Eat::Host && match stripped {
            None => r.job is None && r.actions@.len() == 1
                && r.actions@[0] matches Action::Print(Line::BasicFailure),
            Some(s) => {
                &&& r.actions@.len() == 0
                &&& r.job matches Some(j)
                &&& j.key@ == ctx->Some_0@
                &&& j.text@ == s@
                &&& j.original@ == word@[1]@
                &&& j.from@ == reg@[ctx->Some_0@].1
                &&& j.to@ == reg@[ctx->Some_0@].0
                &&& j.delivery matches Delivery::Emit { event: e, sender, mode }
                &&& e@ == event@
                &&& sender@ == word@[0]@
                &&& mode@ == mode_of(word@)
            },
        },
{
    let mut actions: Vec<Action> = Vec::new();
    if word.len() < 2 {
        return reaction(Eat::Pass, actions);
    }
    let marker = String::from_str("~");
    if word[word.len() - 1] == marker {
        return reaction(Eat::Pass, actions);
    }
    let key = match ctx {
        Some(k) => k,
        None => return reaction(Eat::Pass, actions),
    };
    let pair = match reg.lookup(&key) {
        Some(p) => p,
        None => return reaction(Eat::Pass, actions),
    };
    match stripped {
        Some(text) => {
            let mode = if word.len() > 2 {
                word[2].clone()
            } else {
                String::new()
            };
            let job = Job {
                key,
                text,
                original: word[1].clone(),
                from: pair.target,
                to: pair.source,
                delivery: Delivery::Emit { event, sender: word[0].clone(), mode },
            };
            Reaction { eat: Eat::Host, actions, job: Some(job) }
        },
        None => {
            actions.push(Action::Print(Line::BasicFailure));
            reaction(Eat::Host, actions)
        },
    }
}

/// Whether a translation failed because of the service's rate limit.
pub open spec fn rate_limited(result: Result<String, TranslationError>) -> bool {
    result matches Err(e) && e.over_limit
}

/// The text delivered for a translation: the translation, or on failure the
/// text the failure kept.
pub open spec fn payload(result: Result<String, TranslationError>) -> Seq<char> {
    match result {
        Ok(t) => t@,
        Err(e) => e.partial_trans@,
    }
}

/// The sessions once a translation for `key` is delivered: a rate-limited
/// failure turns translation off in a context that is still there.
pub open spec fn sessions_after(s: Sessions, key: (Seq<char>, Seq<char>), limited: bool, found: bool) -> Sessions {
    if found && limited {
        s.remove(key)
    } else {
        s
    }
}

/// The fields of a re-emitted event: the mode only where there is one, and
/// the echo marker last.
pub open spec fn emit_fields(sender: Seq<char>, text: Seq<char>, mode: Seq<char>) -> Seq<Seq<char>> {
    if mode.len() > 0 {
        seq![sender, text, mode, echo_marker()]
    } else {
        seq![sender, text, echo_marker()]
    }
}

/// Delivers a finished translation on the host's thread. `found` tells
/// whether the job's context is still there; if not, only a diagnostic is
/// shown. Otherwise the translated text (or, on failure, the kept text) is
/// sent or shown in place of the original, the original follows for the user,
/// and a failure is described; a rate-limited failure turns translation off
/// in that context.
pub fn deliver(reg: &mut Registry, job: Job, result: Result<String, TranslationError>, found: bool) -> (r: Vec<Action>)
    requires
        old(reg).wf(),
    ensures
        final(reg).wf(),
        final(reg)@ == sessions_after(old(reg)@, job.key@, rate_limited(result), found),
        !found ==> r@.len() == 1 && r@[0] matches Action::Print(Line::ContextLost),
        found ==> {
            &&& r@.len() >= 2
            &&& match job.delivery {
                Delivery::Send(kind) => r@[0] matches Action::Send(k, t) && k == kind && t@ == payload(result),
                Delivery::Emit { event, sender, mode } => r@[0] matches Action::Emit(e, fields)
                    && e@ == event@ && fields@.map_values(|f: String| f@) == emit_fields(sender@, payload(result), mode@),
            }
            &&& r@[1] matches Action::PrintThere(Line::Original(o)) && o@ == job.original@
            &&& match result {
                Ok(_) => r@.len() == 2,
                Err(e) => {
                    &&& r@.len() == if e.over_limit { 4int } else { 3int }
                    &&& r@[2] matches Action::PrintThere(Line::Failure(m))
                    &&& m@ == "Translation Error: "@ + e.error_msg@
                    &&& e.over_limit ==> r@[3] matches Action::PrintThere(Line::TranslationOff)
                },
            }
        },
{
    let mut actions: Vec<Action> = Vec::new();
    if !found {
        actions.push(Action::Print(Line::ContextLost));
        return actions;
    }
    let ghost limited = rate_limited(result);
    let ghost expected = payload(result);
    let (text, failure, over_limit) = match result {
        Ok(t) => (t, None, false),
        Err(e) => {
            let m = e.message();
            let over = e.is_over_limit();
            (e.partial_trans, Some(m), over)
        },
    };
    match job.delivery {
        Delivery::Send(kind) => {
            actions.push(Action::Send(kind, text));
        },
        Delivery::Emit { event, sender, mode } => {
            let mut fields: Vec<String> = Vec::new();
            fields.push(sender);
            fields.push(text);
            if mode.as_str().unicode_len() > 0 {
                fields.push(mode);
            }
            fields.push(String::from_str("~"));
            proof {
                assert(fields@.map_values(|f: String| f@) =~= emit_fields(sender@, expected, mode@));
            }
            actions.push(Action::Emit(event, fields));
        },
    }
    actions.push(Action::PrintThere(Line::Original(job.original)));
    match failure {
        Some(m) => {
            actions.push(Action::PrintThere(Line::Failure(m)));
            if over_limit {
                reg.deactivate(&job.key);
                actions.push(Action::PrintThere(Line::TranslationOff));
            }
        },
        None => {},
    }
    actions
}

/// Number of rows of the language list: three languages to a row.
pub const LIST_ROWS: usize = 11;

/// How many languages row `row` of the list holds.
pub open spec fn row_width(row: int) -> int {
    if LANG_COUNT - 3 * row < 3 {
        LANG_COUNT - 3 * row
    } else {
        3
    }
}

/// Row `row` of the language list: the entries from `3 * row`, in catalog order.
pub open spec fn is_list_row(a: Action, row: int) -> bool {
    a matches Action::Print(Line::ListRow(v)) && v@.len() == row_width(row)
        && forall|c: int| 0 <= c < v@.len() ==> #[trigger] v@[c]@ == (lang_name(3 * row + c), lang_code(3 * row + c))
}

fn list_row(row: usize) -> (r: Action)
    requires
        row < LIST_ROWS,
    ensures
        is_list_row(r, row as int),
{
    let mut v: Vec<Language> = Vec::new();
    let start: usize = 3 * row;
    let mut i: usize = start;
    while i < start + 3 && i < LANG_COUNT
        invariant
            start == 3 * row,
            row < LIST_ROWS,
            start <= i <= start + 3,
            i <= LANG_COUNT,
            v@.len() == i - start,
            forall|c: int| 0 <= c < v@.len() ==> #[trigger] v@[c]@ == (lang_name(start + c), lang_code(start + c)),
        decreases start + 3 - i,
    {
        v.push(language_at(i));
        i = i + 1;
    }
    Action::Print(Line::ListRow(v))
}

/// Handles `LISTLANG`: the catalog, three languages to a row, between a
/// heading and blank lines.
pub fn on_cmd_listlang(word: &Vec<String>) -> (r: Reaction)
    ensures
        r.eat == Eat::All,
        r.job is None,
        word@.len() != 1 ==> r.actions@.len() == 1 && r.actions@[0] matches Action::Print(Line::ListUsage),
        word@.len() == 1 ==> {
            &&& r.actions@.len() == LIST_ROWS + 3
            &&& r.actions@[0] matches Action::Print(Line::Blank)
            &&& r.actions@[1] matches Action::Print(Line::ListHeader)
            &&& forall|row: int| 0 <= row < LIST_ROWS ==> #[trigger] is_list_row(r.actions@[row + 2], row)
            &&& r.actions@.last() matches Action::Print(Line::Blank)
        },
{
    let mut actions: Vec<Action> = Vec::new();
    if word.len() != 1 {
        actions.push(Action::Print(Line::ListUsage));
        return reaction(Eat::All, actions);
    }
    actions.push(Action::Print(Line::Blank));
    actions.push(Action::Print(Line::ListHeader));
    let mut row: usize = 0;
    while row < LIST_ROWS
        invariant
            row <= LIST_ROWS,
            actions@.len() == row + 2,
            actions@[0] matches Action::Print(Line::Blank),
            actions@[1] matches Action::Print(Line::ListHeader),
            forall|k: int| 0 <= k < row ==> #[trigger] is_list_row(actions@[k + 2], k),
        decreases LIST_ROWS - row,
    {
        actions.push(list_row(row));
        row = row + 1;
    }
    actions.push(Action::Print(Line::Blank));
    reaction(Eat::All, actions)
}

/// SETLANG refuses two names for the same language, whatever their case or
/// form: each of `src` and `tgt` lowercases to the entry's name or code.
pub proof fn lemma_same_language_rejected(src: Seq<char>, tgt: Seq<char>, i: int)
    requires
        0 <= i < LANG_COUNT,
        lower_of(src) == lang_key(i) || lower_of(src) == lang_code(i),
        lower_of(tgt) == lang_key(i) || lower_of(tgt) == lang_code(i),
    ensures
        setlang_choice(src, tgt) is None,
{
    crate::catalog::lemma_lookup_finds_entry(src, i);
    crate::catalog::lemma_lookup_finds_entry(tgt, i);
}

/// A rate-limited failure delivered to a context that is still there leaves
/// translation off in that context.
pub proof fn lemma_rate_limit_turns_off(s: Sessions, key: (Seq<char>, Seq<char>), result: Result<String, TranslationError>)
    requires
        rate_limited(result),
    ensures
        !sessions_after(s, key, rate_limited(result), true).contains_key(key),
{
}

/// Two translations may come back in either order: the sessions after both
/// deliveries are the same.
pub proof fn lemma_deliveries_commute(
    s: Sessions,
    key1: (Seq<char>, Seq<char>),
    limited1: bool,
    found1: bool,
    key2: (Seq<char>, Seq<char>),
    limited2: bool,
    found2: bool,
)
    ensures
        sessions_after(sessions_after(s, key1, limited1, found1), key2, limited2, found2)
            == sessions_after(sessions_after(s, key2, limited2, found2), key1, limited1, found1),
{
    assert(sessions_after(sessions_after(s, key1, limited1, found1), key2, limited2, found2)
        =~= sessions_after(sessions_after(s, key2, limited2, found2), key1, limited1, found1));
}

} // verus!
