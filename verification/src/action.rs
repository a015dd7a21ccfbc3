//! The actions a model may choose, and how a reply is read as one.

use vstd::prelude::*;
use serde_json::Value;
use crate::json::{Json, json_of, json_parse, parse_document, member, as_text};
use crate::text::{bare, begins_with, finishes_with, lemma_trim_keeps_bare_text, same_text, trim,
    trim_end_matches, trim_start_matches, trimmed, without_leading, without_trailing};

verus! {

/// What the agent does next.
#[derive(Debug, PartialEq, Eq)]
pub enum AgentAction {
    /// Scan a web server for vulnerabilities.
    RunNikto { target: String },
    /// Enumerate directories of a web server from a word list.
    RunGobuster { target: String, wordlist: String },
    /// End the session with a summary.
    Finish { summary: String },
}

/// An action with its texts as character sequences.
pub ghost enum ActionView {
    RunNikto { target: Seq<char> },
    RunGobuster { target: Seq<char>, wordlist: Seq<char> },
    Finish { summary: Seq<char> },
}

impl View for AgentAction {
    type V = ActionView;

    open spec fn view(&self) -> ActionView {
        match self {
            AgentAction::RunNikto { target } => ActionView::RunNikto { target: target@ },
            AgentAction::RunGobuster { target, wordlist } => ActionView::RunGobuster {
                target: target@,
                wordlist: wordlist@,
            },
            AgentAction::Finish { summary } => ActionView::Finish { summary: summary@ },
        }
    }
}

/// Why a reply is no action.
#[derive(Debug, PartialEq, Eq)]
pub enum ParseError {
    /// The reply is not a JSON document; `message` is what the JSON parser
    /// said of it.
    Syntax { message: String },
    /// The reply is a JSON document that describes none of the actions.
    Shape,
}

/// A parse error with its message as a character sequence.
pub ghost enum ParseErrorView {
    Syntax { message: Seq<char> },
    Shape,
}

impl View for ParseError {
    type V = ParseErrorView;

    open spec fn view(&self) -> ParseErrorView {
        match self {
            ParseError::Syntax { message } => ParseErrorView::Syntax { message: message@ },
            ParseError::Shape => ParseErrorView::Shape,
        }
    }
}

impl ParseErrorView {
    /// The error in words.
    pub open spec fn message(self) -> Seq<char> {
        match self {
            ParseErrorView::Syntax { message } => message,
            ParseErrorView::Shape => "the reply describes none of the actions"@,
        }
    }
}

impl ParseError {
    /// The error in words: the JSON parser's message, or that the document
    /// describes no action.
    pub fn message(&self) -> (r: String)
        ensures
            r@ == self@.message(),
    {
        match self {
            ParseError::Syntax { message } => message.clone(),
            ParseError::Shape => String::from_str("the reply describes none of the actions"),
        }
    }
}

/// The action a document describes: an object whose `action` names one of
/// the three actions and whose `args` holds that action's fields as strings.
pub open spec fn action_of(doc: Json) -> Result<ActionView, ParseErrorView> {
    let args = doc.member("args"@);
    let target = args.member("target"@).text();
    let wordlist = args.member("wordlist"@).text();
    let summary = args.member("summary"@).text();
    match doc.member("action"@).text() {
        Some(tag) => {
            if tag == "run_nikto"@ && target is Some {
                Ok(ActionView::RunNikto { target: target->0 })
            } else if tag == "run_gobuster"@ && target is Some && wordlist is Some {
                Ok(ActionView::RunGobuster { target: target->0, wordlist: wordlist->0 })
            } else if tag == "finish"@ && summary is Some {
                Ok(ActionView::Finish { summary: summary->0 })
            } else {
                Err(ParseErrorView::Shape)
            }
        },
        None => Err(ParseErrorView::Shape),
    }
}

/// A trimmed reply without a surrounding code fence: the opening marker
/// "```", with or without its "json" tag, removed from the front and the
/// closing marker "```" removed from the back, each as often as it stands
/// there.
pub open spec fn unfenced(s: Seq<char>) -> Seq<char> {
    without_trailing(without_leading(without_leading(s, "```json"@), "```"@), "```"@)
}

/// The action that a text without white space and fence around it stands
/// for.
pub open spec fn understood(clean: Seq<char>) -> Result<ActionView, ParseErrorView> {
    match json_parse(clean) {
        Ok(doc) => action_of(doc),
        Err(message) => Err(ParseErrorView::Syntax { message }),
    }
}

/// The action a reply text stands for.
pub open spec fn parsed(response: Seq<char>) -> Result<ActionView, ParseErrorView> {
    understood(unfenced(trimmed(response)))
}

/// A reply without white space at either end reaches the removal of the
/// fence as it is.
pub proof fn lemma_bare_reply_is_not_trimmed(response: Seq<char>)
    requires
        bare(response),
    ensures
        parsed(response) == understood(unfenced(response)),
{
    lemma_trim_keeps_bare_text(response);
}

/// An outcome of parsing with the action's texts as character sequences.
pub open spec fn outcome_view(r: Result<AgentAction, ParseError>) -> Result<ActionView, ParseErrorView> {
    match r {
        Ok(a) => Ok(a@),
        Err(e) => Err(e@),
    }
}

/// The three action names are pairwise different.
pub proof fn lemma_action_names_differ()
    ensures
        "run_nikto"@ != "run_gobuster"@,
        "run_nikto"@ != "finish"@,
        "run_gobuster"@ != "finish"@,
{
    reveal_strlit("run_nikto");
    reveal_strlit("run_gobuster");
    reveal_strlit("finish");
    assert("run_nikto"@.len() == 9);
    assert("run_gobuster"@.len() == 12);
    assert("finish"@.len() == 6);
}

/// The document that the prompt shows for an action: an object with the
/// action's name under `action` and its fields, as strings, under `args`.
pub open spec fn document_of(a: ActionView) -> Json {
    match a {
        ActionView::RunNikto { target } => tagged(
            "run_nikto"@,
            Map::empty().insert("target"@, Json::Text(target)),
        ),
        ActionView::RunGobuster { target, wordlist } => tagged(
            "run_gobuster"@,
            Map::empty().insert("target"@, Json::Text(target)).insert(
                "wordlist"@,
                Json::Text(wordlist),
            ),
        ),
        ActionView::Finish { summary } => tagged(
            "finish"@,
            Map::empty().insert("summary"@, Json::Text(summary)),
        ),
    }
}

/// An object with a name under `action` and fields under `args`.
pub open spec fn tagged(name: Seq<char>, args: Map<Seq<char>, Json>) -> Json {
    Json::Object(Map::empty().insert("action"@, Json::Text(name)).insert("args"@, Json::Object(args)))
}

/// Every action is read back from the document that the prompt shows for
/// it, with its fields as the document holds them.
pub proof fn lemma_documented_shapes_parse(a: ActionView)
    ensures
        action_of(document_of(a)) == Ok::<ActionView, ParseErrorView>(a),
{
    lemma_action_names_differ();
    reveal_strlit("action");
    reveal_strlit("args");
    reveal_strlit("target");
    reveal_strlit("wordlist");
    reveal_strlit("summary");
    assert("action"@.len() == 6 && "args"@.len() == 4);
    assert("target"@.len() == 6 && "wordlist"@.len() == 8 && "summary"@.len() == 7);
    assert("action"@ != "args"@);
    assert("target"@ != "wordlist"@);
}

/// Removes a code fence from a reply that has already been trimmed.
pub fn strip_fence(s: &str) -> (r: &str)
    ensures
        r@ == unfenced(s@),
{
    proof {
        reveal_strlit("```json");
        reveal_strlit("```");
    }
    let untagged = trim_start_matches(s, "```json");
    let opened = trim_start_matches(untagged, "```");
    trim_end_matches(opened, "```")
}

/// The string under `key` in `v`, copied.
fn text_field(v: &Value, key: &str) -> (r: Option<String>)
    ensures
        match r {
            Some(s) => json_of(*v).member(key@).text() == Some(s@),
            None => json_of(*v).member(key@).text() is None,
        },
{
    match as_text(member(v, key)) {
        Some(s) => Some(String::from_str(s)),
        None => None,
    }
}

/// Reads a document as an action.
pub fn interpret(doc: &Value) -> (r: Result<AgentAction, ParseError>)
    ensures
        outcome_view(r) == action_of(json_of(*doc)),
{
    proof {
        lemma_action_names_differ();
    }
    let args = member(doc, "args");
    match as_text(member(doc, "action")) {
        None => Err(ParseError::Shape),
        Some(tag) => {
            if same_text(tag, "run_nikto") {
                match text_field(args, "target") {
                    Some(target) => Ok(AgentAction::RunNikto { target }),
                    None => Err(ParseError::Shape),
                }
            } else if same_text(tag, "run_gobuster") {
                match text_field(args, "target") {
                    Some(target) => match text_field(args, "wordlist") {
                        Some(wordlist) => Ok(AgentAction::RunGobuster { target, wordlist }),
                        None => Err(ParseError::Shape),
                    },
                    None => Err(ParseError::Shape),
                }
            } else if same_text(tag, "finish") {
                match text_field(args, "summary") {
                    Some(summary) => Ok(AgentAction::Finish { summary }),
                    None => Err(ParseError::Shape),
                }
            } else {
                Err(ParseError::Shape)
            }
        },
    }
}

/// Reads a model's reply as an action: trims it, removes a code fence,
/// parses the rest as JSON and interprets the document. An empty reply is
/// never an action.
pub fn parse_action(response: &str) -> (r: Result<AgentAction, ParseError>)
    ensures
        outcome_view(r) == parsed(response@),
        response@.len() == 0 ==> r is Err && r->Err_0 is Syntax,
{
    let clean = strip_fence(trim(response));
    proof {
        lemma_unfenced_shrinks(trimmed(response@));
    }
    match parse_document(clean) {
        Ok(doc) => interpret(&doc),
        Err(message) => Err(ParseError::Syntax { message }),
    }
}

/// A body wrapped in a fence that carries the "json" tag comes out of
/// [`unfenced`] as it went in, provided that the body does not itself end
/// with the marker and that body and closing marker do not together begin
/// with it.
pub proof fn lemma_fence_is_stripped(body: Seq<char>)
    requires
        !begins_with(body + "```"@, "```"@),
        !finishes_with(body, "```"@),
    ensures
        unfenced("```json"@ + body + "```"@) == body,
{
    reveal_strlit("```json");
    reveal_strlit("```");
    let open = "```json"@;
    let mark = "```"@;
    let whole = open + body + mark;
    let rest = body + mark;
    reveal_with_fuel(without_leading, 3);
    reveal_with_fuel(without_trailing, 3);
    assert(whole.subrange(0, open.len() as int) =~= open);
    assert(whole.subrange(open.len() as int, whole.len() as int) =~= rest);
    assert(!begins_with(rest, open)) by {
        if begins_with(rest, open) {
            assert(rest.subrange(0, 3) =~= rest.subrange(0, 7).subrange(0, 3));
            assert(open.subrange(0, 3) =~= mark);
        }
    }
    assert(without_leading(whole, open) == rest);
    assert(without_leading(rest, mark) == rest);
    lemma_closing_marker_is_stripped(body);
}

/// A body wrapped in a fence without a tag comes out of [`unfenced`] as it
/// went in, under the same provisos, and provided that the body does not
/// begin with the tag.
pub proof fn lemma_plain_fence_is_stripped(body: Seq<char>)
    requires
        !begins_with("```"@ + body + "```"@, "```json"@),
        !begins_with(body + "```"@, "```"@),
        !finishes_with(body, "```"@),
    ensures
        unfenced("```"@ + body + "```"@) == body,
{
    reveal_strlit("```");
    let mark = "```"@;
    let whole = mark + body + mark;
    let rest = body + mark;
    reveal_with_fuel(without_leading, 3);
    assert(without_leading(whole, "```json"@) == whole);
    assert(whole.subrange(0, mark.len() as int) =~= mark);
    assert(whole.subrange(mark.len() as int, whole.len() as int) =~= rest);
    assert(without_leading(whole, mark) == rest);
    lemma_closing_marker_is_stripped(body);
}

/// A closing marker behind a body that does not end with one is removed,
/// and nothing else.
proof fn lemma_closing_marker_is_stripped(body: Seq<char>)
    requires
        !finishes_with(body, "```"@),
    ensures
        without_trailing(body + "```"@, "```"@) == body,
{
    reveal_strlit("```");
    let mark = "```"@;
    let rest = body + mark;
    reveal_with_fuel(without_trailing, 3);
    assert(rest.subrange(rest.len() - mark.len(), rest.len() as int) =~= mark);
    assert(rest.subrange(0, rest.len() - mark.len()) =~= body);
}

/// Removing repetitions of a pattern from the front never lengthens a text.
pub proof fn lemma_without_leading_shrinks(s: Seq<char>, p: Seq<char>)
    ensures
        without_leading(s, p).len() <= s.len(),
    decreases s.len(),
{
    if p.len() > 0 && begins_with(s, p) {
        lemma_without_leading_shrinks(s.subrange(p.len() as int, s.len() as int), p);
    }
}

/// Removing repetitions of a pattern from the back never lengthens a text.
pub proof fn lemma_without_trailing_shrinks(s: Seq<char>, p: Seq<char>)
    ensures
        without_trailing(s, p).len() <= s.len(),
    decreases s.len(),
{
    if p.len() > 0 && finishes_with(s, p) {
        lemma_without_trailing_shrinks(s.subrange(0, s.len() - p.len()), p);
    }
}

/// Removing a fence never lengthens a text.
pub proof fn lemma_unfenced_shrinks(s: Seq<char>)
    ensures
        unfenced(s).len() <= s.len(),
{
    let untagged = without_leading(s, "```json"@);
    lemma_without_leading_shrinks(s, "```json"@);
    lemma_without_leading_shrinks(untagged, "```"@);
    lemma_without_trailing_shrinks(without_leading(untagged, "```"@), "```"@);
}

} // verus!
