use vstd::prelude::*;

verus! {

/// The most grapheme clusters a subscriber's name may have.
pub const MAX_NAME_GRAPHEMES: usize = 256;

/// A character with Unicode's `White_Space` property, which `char::is_whitespace`
/// tests (Unicode's PropList: U+0009..U+000D, U+0020, U+0085, U+00A0, U+1680,
/// U+2000..U+200A, U+2028, U+2029, U+202F, U+205F, U+3000).
pub open spec fn is_white_space(c: char) -> bool {
    ||| '\u{9}' <= c && c <= '\u{d}'
    ||| c == ' '
    ||| c == '\u{85}'
    ||| c == '\u{a0}'
    ||| c == '\u{1680}'
    ||| '\u{2000}' <= c && c <= '\u{200a}'
    ||| c == '\u{2028}'
    ||| c == '\u{2029}'
    ||| c == '\u{202f}'
    ||| c == '\u{205f}'
    ||| c == '\u{3000}'
}

/// Whether `c` has the `White_Space` property, as `char::is_whitespace` tests.
fn char_is_whitespace(c: char) -> (white: bool)
    ensures
        white == is_white_space(c),
{
    ('\u{9}' <= c && c <= '\u{d}') || c == ' ' || c == '\u{85}' || c == '\u{a0}' || c
        == '\u{1680}' || ('\u{2000}' <= c && c <= '\u{200a}') || c == '\u{2028}' || c
        == '\u{2029}' || c == '\u{202f}' || c == '\u{205f}' || c == '\u{3000}'
}

/// `s` holds a carriage return followed by a line feed.
pub open spec fn has_crlf(s: Seq<char>) -> bool {
    exists|i: int| 0 <= i < s.len() - 1 && #[trigger] s[i] == '\r' && s[i + 1] == '\n'
}

/// The number of extended grapheme clusters of `s`, as `unicode_segmentation`'s
/// `graphemes(true)` splits it.
pub uninterp spec fn grapheme_count(s: Seq<char>) -> nat;

/// Calls `UnicodeSegmentation::graphemes(s, true)` and counts the clusters. The
/// clusters are non-empty pieces of `s` that together make up `s`, so there are at
/// most as many as `s` has characters. Within ASCII only a carriage return and the
/// line feed after it join into one cluster (every other ASCII character is a
/// control or of no grapheme category), so an ASCII string without that pair has
/// one cluster per character.
#[verifier::external_body]
fn count_graphemes(s: &str) -> (count: usize)
    ensures
        count == grapheme_count(s@),
        count <= s@.len(),
        vstd::utf8::is_ascii_chars(s@) && !has_crlf(s@) ==> count == s@.len(),
{
    unicode_segmentation::UnicodeSegmentation::graphemes(s, true).count()
}

/// A string of white space only (the empty string among them): what `trim` empties.
pub open spec fn is_blank(s: Seq<char>) -> bool {
    forall|i: int| 0 <= i < s.len() ==> is_white_space(#[trigger] s[i])
}

/// A character that may not stand in a name.
pub open spec fn is_forbidden_char(c: char) -> bool {
    ||| c == '/'
    ||| c == '('
    ||| c == ')'
    ||| c == '"'
    ||| c == '<'
    ||| c == '>'
    ||| c == '\\'
    ||| c == '{'
    ||| c == '}'
}

/// `s` holds a character that may not stand in a name.
pub open spec fn has_forbidden_char(s: Seq<char>) -> bool {
    exists|i: int| 0 <= i < s.len() && is_forbidden_char(#[trigger] s[i])
}

/// The rules for a name `s` of `graphemes` grapheme clusters: not blank, at most
/// `MAX_NAME_GRAPHEMES` clusters, no forbidden character.
pub open spec fn name_rules_hold(s: Seq<char>, graphemes: nat) -> bool {
    !(is_blank(s) || graphemes > MAX_NAME_GRAPHEMES || has_forbidden_char(s))
}

/// `s` is an acceptable subscriber name.
pub open spec fn valid_name(s: Seq<char>) -> bool {
    name_rules_hold(s, grapheme_count(s))
}

/// Whether `s`, which has `graphemes` grapheme clusters, obeys the rules for a name.
pub fn name_rules_accept(s: &str, graphemes: usize) -> (accepted: bool)
    ensures
        accepted == name_rules_hold(s@, graphemes as nat),
        accepted <==> !is_blank(s@) && graphemes <= 256 && (forall|i: int|
            0 <= i < s@.len() ==> #[trigger] s@[i] != '/' && s@[i] != '(' && s@[i] != ')'
                && s@[i] != '"' && s@[i] != '<' && s@[i] != '>' && s@[i] != '\\' && s@[i]
                != '{' && s@[i] != '}'),
{
    let mut blank = true;
    let mut forbidden = false;
    let ghost chars = s@;
    for c in it: s.chars()
        invariant
            it.seq() == chars,
            chars == s@,
            blank == (forall|j: int| 0 <= j < it.index() ==> is_white_space(#[trigger] chars[j])),
            forbidden == (exists|j: int| 0 <= j < it.index() && is_forbidden_char(#[trigger] chars[j])),
    {
        if !char_is_whitespace(c) {
            blank = false;
        }
        if c == '/' || c == '(' || c == ')' || c == '"' || c == '<' || c == '>' || c == '\\'
            || c == '{' || c == '}' {
            forbidden = true;
        }
    }
    !(blank || graphemes > MAX_NAME_GRAPHEMES || forbidden)
}


/// Whether `s` is acceptable as a subscriber's name: it is not empty or white space
/// only, has at most `MAX_NAME_GRAPHEMES` grapheme clusters, and holds none of
/// `/ ( ) " < > \ { }`.
pub fn is_valid_name(s: &str) -> (valid: bool)
    ensures
        valid == valid_name(s@),
        valid ==> s@.len() > 0,
        has_forbidden_char(s@) ==> !valid,
        is_blank(s@) ==> !valid,
        s@.len() <= MAX_NAME_GRAPHEMES && !is_blank(s@) && !has_forbidden_char(s@) ==> valid,
        vstd::utf8::is_ascii_chars(s@) && !has_crlf(s@) ==> valid == name_rules_hold(
            s@,
            s@.len(),
        ),
{
    let graphemes = count_graphemes(s);
    name_rules_accept(s, graphemes)
}

/// The fields of a subscription form.
pub struct FormData {
    pub name: String,
    pub email: String,
}

/// The HTTP status a subscription request is answered with.
#[derive(PartialEq, Eq, Structural, Clone, Copy, Debug)]
pub enum ResponseStatus {
    Success,
    BadRequest,
    InternalServerError,
}

/// The numeric HTTP status code.
pub open spec fn status_code(status: ResponseStatus) -> u16 {
    match status {
        ResponseStatus::Success => 200,
        ResponseStatus::BadRequest => 400,
        ResponseStatus::InternalServerError => 500,
    }
}

impl ResponseStatus {
    /// The numeric HTTP status code: 200, 400 or 500.
    pub fn as_u16(&self) -> (code: u16)
        ensures
            code == status_code(*self),
    {
        match self {
            ResponseStatus::Success => 200,
            ResponseStatus::BadRequest => 400,
            ResponseStatus::InternalServerError => 500,
        }
    }
}

/// How far the handling of one subscription request has come.
#[derive(PartialEq, Eq, Structural, Clone, Copy, Debug)]
pub enum SubscribeStage {
    /// The form has arrived and nothing is done yet.
    Received,
    /// A database connection is asked for.
    Connecting,
    /// The subscriber is being saved.
    Inserting,
    /// The request is answered.
    Answered,
}

/// What happened outside since the last step.
#[derive(PartialEq, Eq, Structural, Clone, Copy, Debug)]
pub enum SubscribeEvent {
    /// Handling starts.
    Start,
    ConnectionReady,
    ConnectionFailed,
    InsertDone,
    InsertFailed,
}

/// What to do next.
#[derive(PartialEq, Eq, Structural, Clone, Copy, Debug)]
pub enum SubscribeAction {
    /// Take a connection from the pool.
    GetConnection,
    /// Save the subscriber through the connection.
    InsertSubscriber,
    /// Answer the request with this status.
    Respond(ResponseStatus),
}

/// The next stage and action, for a form whose name is valid or not.
pub open spec fn subscribe_transition(
    name_valid: bool,
    stage: SubscribeStage,
    event: SubscribeEvent,
) -> (SubscribeStage, SubscribeAction) {
    match stage {
        SubscribeStage::Received => if name_valid {
            (SubscribeStage::Connecting, SubscribeAction::GetConnection)
        } else {
            (SubscribeStage::Answered, SubscribeAction::Respond(ResponseStatus::BadRequest))
        },
        SubscribeStage::Connecting => if event == SubscribeEvent::ConnectionReady {
            (SubscribeStage::Inserting, SubscribeAction::InsertSubscriber)
        } else {
            (
                SubscribeStage::Answered,
                SubscribeAction::Respond(ResponseStatus::InternalServerError),
            )
        },
        _ => if event == SubscribeEvent::InsertDone {
            (SubscribeStage::Answered, SubscribeAction::Respond(ResponseStatus::Success))
        } else {
            (
                SubscribeStage::Answered,
                SubscribeAction::Respond(ResponseStatus::InternalServerError),
            )
        },
    }
}

/// One step of handling a subscription: a form with an invalid name is refused
/// with 400 before the database is touched; a valid one takes a connection, then
/// saves the subscriber, and is answered 200 when both succeed and 500 when either fails.
pub fn subscribe_step(form: &FormData, stage: SubscribeStage, event: SubscribeEvent) -> (next: (
    SubscribeStage,
    SubscribeAction,
))
    ensures
        next == subscribe_transition(valid_name(form.name@), stage, event),
{
    match stage {
        SubscribeStage::Received => {
            if !is_valid_name(form.name.as_str()) {
                (SubscribeStage::Answered, SubscribeAction::Respond(ResponseStatus::BadRequest))
            } else {
                (SubscribeStage::Connecting, SubscribeAction::GetConnection)
            }
        },
        SubscribeStage::Connecting => {
            if event == SubscribeEvent::ConnectionReady {
                (SubscribeStage::Inserting, SubscribeAction::InsertSubscriber)
            } else {
                (
                    SubscribeStage::Answered,
                    SubscribeAction::Respond(ResponseStatus::InternalServerError),
                )
            }
        },
        _ => {
            if event == SubscribeEvent::InsertDone {
                (SubscribeStage::Answered, SubscribeAction::Respond(ResponseStatus::Success))
            } else {
                (
                    SubscribeStage::Answered,
                    SubscribeAction::Respond(ResponseStatus::InternalServerError),
                )
            }
        },
    }
}

/// The actions taken for one request, step after step, when the connection and the
/// insert succeed or fail as given, until the request is answered.
pub open spec fn subscribe_run(name_valid: bool, connected: bool, inserted: bool) -> Seq<
    SubscribeAction,
> {
    let (stage1, action1) = subscribe_transition(
        name_valid,
        SubscribeStage::Received,
        SubscribeEvent::Start,
    );
    if stage1 == SubscribeStage::Answered {
        seq![action1]
    } else {
        let event2 = if connected {
            SubscribeEvent::ConnectionReady
        } else {
            SubscribeEvent::ConnectionFailed
        };
        let (stage2, action2) = subscribe_transition(name_valid, stage1, event2);
        if stage2 == SubscribeStage::Answered {
            seq![action1, action2]
        } else {
            let event3 = if inserted {
                SubscribeEvent::InsertDone
            } else {
                SubscribeEvent::InsertFailed
            };
            let (stage3, action3) = subscribe_transition(name_valid, stage2, event3);
            seq![action1, action2, action3]
        }
    }
}

/// The status a request is answered with.
pub open spec fn subscribe_answer(name_valid: bool, connected: bool, inserted: bool) -> ResponseStatus {
    if !name_valid {
        ResponseStatus::BadRequest
    } else if connected && inserted {
        ResponseStatus::Success
    } else {
        ResponseStatus::InternalServerError
    }
}

/// Law: every request is answered, once, as its last action: 200 when the name is
/// valid and the connection and the insert succeed, 400 when the name is invalid,
/// 500 otherwise; a subscriber is saved only for a valid name and an open
/// connection, and a refused name never asks for a connection.
pub proof fn lemma_subscribe_run(name_valid: bool, connected: bool, inserted: bool)
    ensures
        ({
            let run = subscribe_run(name_valid, connected, inserted);
            &&& 1 <= run.len() <= 3
            &&& run.last() == SubscribeAction::Respond(
                subscribe_answer(name_valid, connected, inserted),
            )
            &&& forall|i: int| 0 <= i < run.len() - 1 ==> !(#[trigger] run[i] is Respond)
            &&& run.contains(SubscribeAction::InsertSubscriber) <==> (name_valid && connected)
            &&& run.contains(SubscribeAction::GetConnection) <==> name_valid
        }),
{
    let run = subscribe_run(name_valid, connected, inserted);
    if !name_valid {
        assert(run =~= seq![SubscribeAction::Respond(ResponseStatus::BadRequest)]);
        assert(!run.contains(SubscribeAction::InsertSubscriber));
        assert(!run.contains(SubscribeAction::GetConnection));
    } else if !connected {
        assert(run[0] == SubscribeAction::GetConnection);
        assert(!run.contains(SubscribeAction::InsertSubscriber));
    } else {
        assert(run[0] == SubscribeAction::GetConnection);
        assert(run[1] == SubscribeAction::InsertSubscriber);
    }
}


/// Law: exactly nine characters are forbidden in a name, `/ ( ) " < > \ { }`: a
/// name that is not blank and has at most 256 grapheme clusters is accepted exactly
/// when it holds none of them (so an apostrophe, a hyphen or a comma is no reason
/// to refuse one).
pub proof fn lemma_forbidden_characters(s: Seq<char>, graphemes: nat)
    requires
        !is_blank(s),
        graphemes <= 256,
    ensures
        name_rules_hold(s, graphemes) <==> (forall|i: int|
            0 <= i < s.len() ==> #[trigger] s[i] != '/' && s[i] != '(' && s[i] != ')' && s[i]
                != '"' && s[i] != '<' && s[i] != '>' && s[i] != '\\' && s[i] != '{' && s[i]
                != '}'),
{
}

/// Law: a name is refused when it has more than 256 grapheme clusters, and when it
/// is empty or white space only.
pub proof fn lemma_refused_names(s: Seq<char>, graphemes: nat)
    ensures
        graphemes > 256 ==> !name_rules_hold(s, graphemes),
        s.len() == 0 ==> !name_rules_hold(s, graphemes),
        (forall|i: int|
            0 <= i < s.len() ==> #[trigger] s[i] == ' ' || s[i] == '\t' || s[i] == '\n' || s[i]
                == '\r') ==> !name_rules_hold(s, graphemes),
{
}

/// Law: the white space that makes a name blank is Unicode's `White_Space` set,
/// the code points U+0009..U+000D, U+0020, U+0085, U+00A0, U+1680,
/// U+2000..U+200A, U+2028, U+2029, U+202F, U+205F and U+3000, and no others.
pub proof fn lemma_white_space_code_points(c: char)
    ensures
        is_white_space(c) <==> (9 <= c as u32 <= 13 || c as u32 == 32 || c as u32 == 0x85
            || c as u32 == 0xa0 || c as u32 == 0x1680 || 0x2000 <= c as u32 <= 0x200a || c as u32
            == 0x2028 || c as u32 == 0x2029 || c as u32 == 0x202f || c as u32 == 0x205f || c as u32
            == 0x3000),
{
}

} // verus!
