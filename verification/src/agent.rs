//! The decision loop as a state machine, and the fixed policy that stands in
//! for it when no model is asked.
//!
//! The caller performs what a [`Command`] names and reports back: after
//! [`Command::AskModel`] it hands the reply to [`Session::decide`], after a
//! scanner has run it hands the output to [`Session::on_tool_output`].

use vstd::prelude::*;
use crate::action::{outcome_view, parse_action, parsed, ActionView, AgentAction, ParseError,
    ParseErrorView};
use crate::json::json_of;
use crate::llm::{LLMClient, ChatRequest, ClientView, Provider, request_body, authorization};
use crate::text::{contains, occurs_in, lowercased};
use crate::tools::Tool;

verus! {

/// How many requests to the model one session may make.
pub const MAX_STEPS: u64 = 5;

/// The prompt that tells the model which actions exist and how to answer.
pub const SYSTEM_PROMPT: &'static str = "You are an expert Network Reconnaissance Agent. \nYour goal is to investigate a target based on initial Nmap scan results.\nYou have access to the following tools:\n1. run_nikto(target) - Scan web server for vulnerabilities.\n2. run_gobuster(target, wordlist) - Brute-force directories.\n3. finish(summary) - End the session with a summary.\n\nYou must reply with a strictly valid JSON object representing your decision.\nExample:\n{ \"action\": \"run_nikto\", \"args\": { \"target\": \"http://192.168.1.1\" } }\nor\n{ \"action\": \"finish\", \"args\": { \"summary\": \"Port 80 found, Nikto found nothing.\" } }\n\nDo not output markdown code blocks. Just the raw JSON.\n";

/// What the caller is to do next.
#[derive(Debug, PartialEq, Eq)]
pub enum Command {
    /// Send the system prompt and the session's context to the model.
    AskModel,
    /// Run the vulnerability scanner.
    RunNikto { target: String },
    /// Run the directory brute-forcer.
    RunGobuster { target: String, wordlist: String },
    /// Show the summary; the session is over.
    Finish { summary: String },
    /// Report that the reply was no action; the session is over.
    ParseFailed { error: ParseError, response: String },
    /// Report that the step budget is used up; the session is over.
    BudgetExhausted,
}

/// A command with its texts as character sequences.
pub ghost enum CommandView {
    AskModel,
    RunNikto { target: Seq<char> },
    RunGobuster { target: Seq<char>, wordlist: Seq<char> },
    Finish { summary: Seq<char> },
    ParseFailed { error: ParseErrorView, response: Seq<char> },
    BudgetExhausted,
}

impl CommandView {
    /// The command asks for a scanner to be run.
    pub open spec fn runs_tool(self) -> bool {
        self is RunNikto || self is RunGobuster
    }

    /// The command ends the session.
    pub open spec fn ends_session(self) -> bool {
        self is Finish || self is ParseFailed || self is BudgetExhausted
    }
}

impl View for Command {
    type V = CommandView;

    open spec fn view(&self) -> CommandView {
        match self {
            Command::AskModel => CommandView::AskModel,
            Command::RunNikto { target } => CommandView::RunNikto { target: target@ },
            Command::RunGobuster { target, wordlist } => CommandView::RunGobuster {
                target: target@,
                wordlist: wordlist@,
            },
            Command::Finish { summary } => CommandView::Finish { summary: summary@ },
            Command::ParseFailed { error, response } => CommandView::ParseFailed {
                error: error@,
                response: response@,
            },
            Command::BudgetExhausted => CommandView::BudgetExhausted,
        }
    }
}

/// A session as a mathematical record.
pub ghost struct SessionView {
    /// Everything the model is told: the seed and the results so far.
    pub context: Seq<char>,
    /// How many requests to the model have been issued.
    pub steps: nat,
}

/// The state of one run of the decision loop.
pub struct Session {
    context: String,
    steps: u64,
}

impl View for Session {
    type V = SessionView;

    closed spec fn view(&self) -> SessionView {
        SessionView { context: self.context@, steps: self.steps as nat }
    }
}

/// The context a session starts with.
pub open spec fn seed(target: Seq<char>, initial: Seq<char>, wordlist: Seq<char>) -> Seq<char> {
    "Target: "@ + target + "\nInitial Nmap Output:\n"@ + initial + "\nWordlist: "@ + wordlist
}

/// The block under which a scanner's output enters the context.
pub open spec fn result_block(tool: Tool, output: Seq<char>) -> Seq<char> {
    "\n[Result of "@ + tool.title() + "]\n"@ + output
}

/// Asking for the next request: granted, and counted, while fewer than
/// [`MAX_STEPS`] have been issued; refused from then on.
pub open spec fn advance(s: SessionView) -> (SessionView, CommandView) {
    if s.steps >= MAX_STEPS {
        (s, CommandView::BudgetExhausted)
    } else {
        (SessionView { context: s.context, steps: s.steps + 1 }, CommandView::AskModel)
    }
}

/// A session after a scanner's output has been appended.
pub open spec fn recorded(s: SessionView, tool: Tool, output: Seq<char>) -> SessionView {
    SessionView { context: s.context + result_block(tool, output), steps: s.steps }
}

/// The command that follows a reply, given what the reply parsed to.
pub open spec fn decision(
    outcome: Result<ActionView, ParseErrorView>,
    response: Seq<char>,
) -> CommandView {
    match outcome {
        Ok(ActionView::RunNikto { target }) => CommandView::RunNikto { target },
        Ok(ActionView::RunGobuster { target, wordlist }) => CommandView::RunGobuster {
            target,
            wordlist,
        },
        Ok(ActionView::Finish { summary }) => CommandView::Finish { summary },
        Err(error) => CommandView::ParseFailed { error, response },
    }
}

impl Command {
    /// The command that follows a reply, given what the reply parsed to.
    pub fn from_outcome(outcome: Result<AgentAction, ParseError>, response: &str) -> (c: Command)
        ensures
            c@ == decision(outcome_view(outcome), response@),
    {
        match outcome {
            Ok(AgentAction::RunNikto { target }) => Command::RunNikto { target },
            Ok(AgentAction::RunGobuster { target, wordlist }) => Command::RunGobuster {
                target,
                wordlist,
            },
            Ok(AgentAction::Finish { summary }) => Command::Finish { summary },
            Err(error) => Command::ParseFailed { error, response: String::from_str(response) },
        }
    }
}

impl Session {
    /// A fresh session: the context is the seed, no request has been made.
    pub fn new(target: &str, wordlist: &str, initial_context: &str) -> (s: Session)
        ensures
            s@ == (SessionView { context: seed(target@, initial_context@, wordlist@), steps: 0 }),
    {
        let context = String::from_str("Target: ").concat(target).concat(
            "\nInitial Nmap Output:\n",
        ).concat(initial_context).concat("\nWordlist: ").concat(wordlist);
        Session { context, steps: 0 }
    }

    /// The context.
    pub fn context(&self) -> (r: &str)
        ensures
            r@ == self@.context,
    {
        self.context.as_str()
    }

    /// How many requests to the model have been issued.
    pub fn steps(&self) -> (r: u64)
        ensures
            r == self@.steps,
    {
        self.steps
    }

    /// Asks for the next request to the model.
    pub fn next(&mut self) -> (c: Command)
        ensures
            (final(self)@, c@) == advance(old(self)@),
    {
        if self.steps >= MAX_STEPS {
            Command::BudgetExhausted
        } else {
            self.steps = self.steps + 1;
            Command::AskModel
        }
    }

    /// Reads the model's reply and says what follows from it. A reply that is
    /// no action ends the session; no scanner is run for it.
    pub fn decide(&self, response: &str) -> (c: Command)
        ensures
            c@ == decision(parsed(response@), response@),
            response@.len() == 0 ==> c@ is ParseFailed && c@->ParseFailed_error is Syntax,
    {
        Command::from_outcome(parse_action(response), response)
    }

    /// Appends a scanner's output to the context under its label.
    pub fn record(&mut self, tool: Tool, output: &str)
        ensures
            final(self)@ == recorded(old(self)@, tool, output@),
    {
        self.context.append("\n[Result of ");
        self.context.append(tool.name());
        self.context.append("]\n");
        self.context.append(output);
        assert(self.context@ =~= old(self).context@ + result_block(tool, output@));
    }

    /// Appends a scanner's output to the context and asks for the next
    /// request.
    pub fn on_tool_output(&mut self, tool: Tool, output: &str) -> (c: Command)
        ensures
            (final(self)@, c@) == advance(recorded(old(self)@, tool, output@)),
    {
        self.record(tool, output);
        self.next()
    }
}

/// What happens to a session between replies.
pub ghost enum Step {
    /// The next request is asked for.
    Next,
    /// A scanner's output is recorded.
    Record { tool: Tool, output: Seq<char> },
}

/// The session after one step.
pub open spec fn step(s: SessionView, e: Step) -> SessionView {
    match e {
        Step::Next => advance(s).0,
        Step::Record { tool, output } => recorded(s, tool, output),
    }
}

/// Whether a step issues a request to the model.
pub open spec fn asks(s: SessionView, e: Step) -> bool {
    e is Next && advance(s).1 is AskModel
}

/// The session after a run of steps.
pub open spec fn run(s: SessionView, trace: Seq<Step>) -> SessionView
    decreases trace.len(),
{
    if trace.len() == 0 {
        s
    } else {
        run(step(s, trace[0]), trace.drop_first())
    }
}

/// How many requests to the model a run of steps issues.
pub open spec fn requests(s: SessionView, trace: Seq<Step>) -> nat
    decreases trace.len(),
{
    if trace.len() == 0 {
        0
    } else {
        (if asks(s, trace[0]) { 1nat } else { 0nat }) + requests(step(s, trace[0]), trace.drop_first())
    }
}

/// Whatever steps a session takes, the requests it has issued and those it
/// goes on to issue never exceed the budget together; a session that has
/// used its budget issues none.
pub proof fn lemma_request_budget(s: SessionView, trace: Seq<Step>)
    ensures
        s.steps <= MAX_STEPS ==> s.steps + requests(s, trace) <= MAX_STEPS,
        s.steps >= MAX_STEPS ==> requests(s, trace) == 0,
        run(s, trace).steps == s.steps + requests(s, trace),
    decreases trace.len(),
{
    if trace.len() > 0 {
        lemma_request_budget(step(s, trace[0]), trace.drop_first());
    }
}

/// Whatever steps a session takes, its context only grows: the earlier
/// context is the beginning of the later one.
pub proof fn lemma_context_grows(s: SessionView, trace: Seq<Step>)
    ensures
        s.context.is_prefix_of(run(s, trace).context),
    decreases trace.len(),
{
    if trace.len() > 0 {
        let t = step(s, trace[0]);
        lemma_context_grows(t, trace.drop_first());
        let last = run(s, trace).context;
        assert(s.context.is_prefix_of(t.context)) by {
            assert(t.context.subrange(0, s.context.len() as int) =~= s.context);
        }
        assert(s.context.is_prefix_of(last)) by {
            assert(last.subrange(0, t.context.len() as int) == t.context);
            assert(last.subrange(0, s.context.len() as int) =~= t.context.subrange(
                0,
                s.context.len() as int,
            ));
        }
    }
}

/// A reply that is no action ends the session, and no scanner is run for it.
pub proof fn lemma_parse_failure_ends(error: ParseErrorView, response: Seq<char>)
    ensures
        decision(Err(error), response).ends_session(),
        !decision(Err(error), response).runs_tool(),
        decision(Err(error), response) == (CommandView::ParseFailed { error, response }),
{
}

/// A finish action ends the session with exactly its summary.
pub proof fn lemma_finish_surfaces_summary(summary: Seq<char>, response: Seq<char>)
    ensures
        decision(Ok(ActionView::Finish { summary }), response) == (CommandView::Finish { summary }),
        decision(Ok(ActionView::Finish { summary }), response).ends_session(),
{
}

/// One turn of the loop as the caller meets it: the model's reply to a
/// request and, where the reply asks for a scanner, that scanner's output.
pub ghost struct Turn {
    pub reply: Seq<char>,
    pub output: Seq<char>,
}

/// What a loop has done when it stops.
pub ghost struct Course {
    /// The session at that point.
    pub session: SessionView,
    /// How many requests to the model were issued.
    pub asked: nat,
    /// The scanners that were run, in order.
    pub tools: Seq<Tool>,
    /// The command at which the loop stopped: one that ends the session, or
    /// a request that no turn answers.
    pub last: CommandView,
}

/// The scanner that a command asks for, if any.
pub open spec fn tool_of(c: CommandView) -> Option<Tool> {
    match c {
        CommandView::RunNikto { .. } => Some(Tool::Nikto),
        CommandView::RunGobuster { .. } => Some(Tool::Gobuster),
        _ => None,
    }
}

/// The loop: ask for a request; hand the reply to the decision; where it
/// names a scanner, record that scanner's output and go round again.
pub open spec fn course(s: SessionView, turns: Seq<Turn>) -> Course
    decreases turns.len(),
{
    let (asked, first) = advance(s);
    if first is BudgetExhausted {
        Course { session: asked, asked: 0, tools: Seq::empty(), last: first }
    } else if turns.len() == 0 {
        Course { session: asked, asked: 1, tools: Seq::empty(), last: first }
    } else {
        let then = decision(parsed(turns[0].reply), turns[0].reply);
        match tool_of(then) {
            Some(tool) => {
                let rest = course(recorded(asked, tool, turns[0].output), turns.drop_first());
                Course {
                    session: rest.session,
                    asked: rest.asked + 1,
                    tools: seq![tool] + rest.tools,
                    last: rest.last,
                }
            },
            None => Course { session: asked, asked: 1, tools: Seq::empty(), last: then },
        }
    }
}

/// However the model replies, a loop issues no more requests than the budget
/// leaves, none once the budget is used up, and runs at most one scanner for
/// each request.
pub proof fn lemma_course_budget(s: SessionView, turns: Seq<Turn>)
    ensures
        s.steps <= MAX_STEPS ==> s.steps + course(s, turns).asked <= MAX_STEPS,
        s.steps >= MAX_STEPS ==> course(s, turns).asked == 0 && course(s, turns).last
            is BudgetExhausted,
        course(s, turns).tools.len() <= course(s, turns).asked,
        course(s, turns).session.steps == s.steps + course(s, turns).asked,
        s.context.is_prefix_of(course(s, turns).session.context),
    decreases turns.len(),
{
    let (asked, first) = advance(s);
    if !(first is BudgetExhausted) && turns.len() > 0 {
        let then = decision(parsed(turns[0].reply), turns[0].reply);
        match tool_of(then) {
            Some(tool) => {
                let t = recorded(asked, tool, turns[0].output);
                lemma_course_budget(t, turns.drop_first());
                let last = course(t, turns.drop_first()).session.context;
                assert(last.subrange(0, t.context.len() as int) == t.context);
                assert(last.subrange(0, s.context.len() as int) =~= t.context.subrange(
                    0,
                    s.context.len() as int,
                ));
                assert(t.context.subrange(0, s.context.len() as int) =~= s.context);
            },
            None => {
                assert(s.context.subrange(0, s.context.len() as int) =~= s.context);
            },
        }
    } else {
        assert(s.context.subrange(0, s.context.len() as int) =~= s.context);
    }
}

/// A first reply that is no action stops the loop at once: one request was
/// issued, no scanner was run, and the context is as it was.
pub proof fn lemma_course_parse_failure(s: SessionView, turns: Seq<Turn>)
    requires
        s.steps < MAX_STEPS,
        turns.len() > 0,
        parsed(turns[0].reply) is Err,
    ensures
        course(s, turns).last == (CommandView::ParseFailed {
            error: parsed(turns[0].reply)->Err_0,
            response: turns[0].reply,
        }),
        course(s, turns).asked == 1,
        course(s, turns).tools == Seq::<Tool>::empty(),
        course(s, turns).session.context == s.context,
{
}

/// A first reply that is a finish action stops the loop at once with
/// exactly its summary, and no scanner was run.
pub proof fn lemma_course_finish(s: SessionView, turns: Seq<Turn>, summary: Seq<char>)
    requires
        s.steps < MAX_STEPS,
        turns.len() > 0,
        parsed(turns[0].reply) == Ok::<ActionView, ParseErrorView>(ActionView::Finish { summary }),
    ensures
        course(s, turns).last == (CommandView::Finish { summary }),
        course(s, turns).tools == Seq::<Tool>::empty(),
{
}

/// The scan text shows a port that faces the web.
pub open spec fn web_facing(scan: Seq<char>) -> bool {
    occurs_in(scan, "80/tcp"@) || occurs_in(scan, "443/tcp"@) || occurs_in(scan, "http"@)
}

/// The scanners that the fixed policy runs after the port scan.
pub open spec fn classic_plan(scan: Seq<char>) -> Seq<Tool> {
    if web_facing(scan) {
        seq![Tool::Nikto, Tool::Gobuster]
    } else {
        Seq::empty()
    }
}

/// A scan text that shows port 80 has the vulnerability scanner run, then
/// the directory brute-forcer, once each.
pub proof fn lemma_web_port_plan(scan: Seq<char>)
    requires
        occurs_in(scan, "80/tcp"@),
    ensures
        classic_plan(scan) == seq![Tool::Nikto, Tool::Gobuster],
{
}

/// A scan text that shows none of the three signs has no scanner run.
pub proof fn lemma_no_web_port_plan(scan: Seq<char>)
    requires
        !occurs_in(scan, "80/tcp"@),
        !occurs_in(scan, "443/tcp"@),
        !occurs_in(scan, "http"@),
    ensures
        classic_plan(scan) == Seq::<Tool>::empty(),
{
}

/// The fixed policy: where the scan text shows a port that faces the web,
/// the vulnerability scanner and then the directory brute-forcer, once each;
/// otherwise nothing.
pub fn classic_mode(scan: &str) -> (plan: Vec<Tool>)
    ensures
        plan@ == classic_plan(scan@),
{
    let mut plan: Vec<Tool> = Vec::new();
    if contains(scan, "80/tcp") || contains(scan, "443/tcp") || contains(scan, "http") {
        plan.push(Tool::Nikto);
        plan.push(Tool::Gobuster);
        assert(plan@ =~= seq![Tool::Nikto, Tool::Gobuster]);
    } else {
        assert(plan@ =~= Seq::<Tool>::empty());
    }
    plan
}

/// The agent: a model client and the prompt it is asked with.
pub struct Agent {
    client: LLMClient,
}

impl Agent {
    /// The client's configuration.
    pub closed spec fn client_view(&self) -> ClientView {
        self.client@
    }

    /// An agent for the provider that `provider` names. `api_key` is the
    /// credential found in the environment, if any.
    pub fn new(provider: String, model: Option<String>, api_key: Option<String>) -> (a: Agent)
        ensures
            a.client_view().provider == Provider::named(lowercased(provider@)),
            a.client_view() == LLMClient::configured(
                a.client_view().provider,
                match model { Some(m) => Some(m@), None => None },
                match api_key { Some(k) => Some(k@), None => None },
            ),
    {
        Agent { client: LLMClient::new(provider, model, api_key) }
    }

    /// The model client.
    pub fn client(&self) -> (c: &LLMClient)
        ensures
            c@ == self.client_view(),
    {
        &self.client
    }

    /// A fresh session for a target.
    pub fn start(&self, target: &str, wordlist: &str, initial_context: &str) -> (s: Session)
        ensures
            s@ == (SessionView { context: seed(target@, initial_context@, wordlist@), steps: 0 }),
    {
        Session::new(target, wordlist, initial_context)
    }

    /// The request that asks the model for the session's next action: the
    /// system prompt and the whole context.
    pub fn request(&self, session: &Session) -> (r: ChatRequest)
        ensures
            r.url@ == self.client_view().base_url,
            match r.authorization {
                Some(h) => authorization(self.client_view().provider, self.client_view().api_key)
                    == Some(h@),
                None => authorization(self.client_view().provider, self.client_view().api_key)
                    is None,
            },
            json_of(r.body) == request_body(
                self.client_view().provider,
                self.client_view().model,
                SYSTEM_PROMPT@,
                session@.context,
            ),
    {
        self.client.request(SYSTEM_PROMPT, session.context())
    }
}

} // verus!
