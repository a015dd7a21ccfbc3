use argus::action::ParseError;
use argus::agent::{classic_mode, Agent, Command, Session, MAX_STEPS, SYSTEM_PROMPT};
use argus::tools::Tool;
use serde_json::Value;

#[test]
fn session_starts_with_the_seed() {
    let s = Session::new("10.0.0.1", "/w/list.txt", "80/tcp open http");
    assert_eq!(
        s.context(),
        "Target: 10.0.0.1\nInitial Nmap Output:\n80/tcp open http\nWordlist: /w/list.txt"
    );
    assert_eq!(s.steps(), 0);
}

#[test]
fn sixth_request_is_refused() {
    let mut s = Session::new("t", "w", "scan");
    for asked in 1..=5u64 {
        assert_eq!(s.next(), Command::AskModel);
        assert_eq!(s.steps(), asked);
    }
    assert_eq!(s.next(), Command::BudgetExhausted);
    assert_eq!(s.next(), Command::BudgetExhausted);
    assert_eq!(s.steps(), 5);
    assert_eq!(MAX_STEPS, 5);
}

#[test]
fn tool_output_is_appended_under_its_label() {
    let mut s = Session::new("t", "w", "scan");
    assert_eq!(s.next(), Command::AskModel);
    s.record(Tool::Nikto, "+ Server: nginx");
    assert_eq!(
        s.context(),
        "Target: t\nInitial Nmap Output:\nscan\nWordlist: w\n[Result of Nikto]\n+ Server: nginx"
    );
    let c = s.on_tool_output(Tool::Gobuster, "/admin");
    assert_eq!(c, Command::AskModel);
    assert_eq!(s.steps(), 2);
    assert_eq!(
        s.context(),
        "Target: t\nInitial Nmap Output:\nscan\nWordlist: w\n[Result of Nikto]\n+ Server: nginx\n[Result of Gobuster]\n/admin"
    );
}

#[test]
fn budget_holds_across_tool_runs() {
    let mut s = Session::new("t", "w", "scan");
    let mut asked = 0;
    let mut c = s.next();
    while c == Command::AskModel {
        asked += 1;
        c = s.on_tool_output(Tool::Nikto, "out");
    }
    assert_eq!(asked, 5);
    assert_eq!(c, Command::BudgetExhausted);
}

#[test]
fn invalid_reply_ends_the_session_without_a_tool() {
    let s = Session::new("t", "w", "scan");
    let c = s.decide("not json at all");
    let message = serde_json::from_str::<Value>("not json at all").unwrap_err().to_string();
    assert_eq!(
        c,
        Command::ParseFailed {
            error: ParseError::Syntax { message },
            response: "not json at all".to_string(),
        }
    );
    assert_eq!(s.context(), "Target: t\nInitial Nmap Output:\nscan\nWordlist: w");
}

#[test]
fn empty_reply_ends_the_session() {
    let s = Session::new("t", "w", "scan");
    assert_eq!(
        s.decide(""),
        Command::ParseFailed {
            error: ParseError::Syntax {
                message: "EOF while parsing a value at line 1 column 0".to_string(),
            },
            response: String::new(),
        }
    );
}

#[test]
fn finish_surfaces_the_exact_summary() {
    let s = Session::new("t", "w", "scan");
    let c = s.decide(
        "{ \"action\": \"finish\", \"args\": { \"summary\": \"Port 80 found, Nikto found nothing.\" } }",
    );
    assert_eq!(
        c,
        Command::Finish { summary: "Port 80 found, Nikto found nothing.".to_string() }
    );
}

#[test]
fn tool_actions_become_tool_commands() {
    let s = Session::new("t", "w", "scan");
    assert_eq!(
        s.decide("{\"action\":\"run_nikto\",\"args\":{\"target\":\"http://t\"}}"),
        Command::RunNikto { target: "http://t".to_string() }
    );
    assert_eq!(
        s.decide("```json\n{\"action\":\"run_gobuster\",\"args\":{\"target\":\"http://t\",\"wordlist\":\"w.txt\"}}\n```"),
        Command::RunGobuster { target: "http://t".to_string(), wordlist: "w.txt".to_string() }
    );
}

#[test]
fn unknown_shape_ends_the_session() {
    let s = Session::new("t", "w", "scan");
    assert_eq!(
        s.decide("{\"action\":\"sleep\"}"),
        Command::ParseFailed { error: ParseError::Shape, response: "{\"action\":\"sleep\"}".to_string() }
    );
}

#[test]
fn web_port_runs_nikto_then_gobuster() {
    assert_eq!(classic_mode("PORT STATE\n80/tcp open"), vec![Tool::Nikto, Tool::Gobuster]);
    assert_eq!(classic_mode("443/tcp open ssl"), vec![Tool::Nikto, Tool::Gobuster]);
    assert_eq!(classic_mode("8080/tcp open http-proxy"), vec![Tool::Nikto, Tool::Gobuster]);
}

#[test]
fn no_web_port_runs_nothing() {
    assert_eq!(classic_mode("22/tcp open ssh\n25/tcp open smtp"), Vec::<Tool>::new());
    assert_eq!(classic_mode(""), Vec::<Tool>::new());
    assert_eq!(classic_mode("HTTP 80/TCP"), Vec::<Tool>::new());
}

#[test]
fn system_prompt_names_the_three_actions() {
    assert!(SYSTEM_PROMPT.starts_with("You are an expert Network Reconnaissance Agent. \nYour goal"));
    assert!(SYSTEM_PROMPT.contains("1. run_nikto(target)"));
    assert!(SYSTEM_PROMPT.contains("2. run_gobuster(target, wordlist)"));
    assert!(SYSTEM_PROMPT.contains("3. finish(summary)"));
    assert!(SYSTEM_PROMPT.ends_with("Just the raw JSON.\n"));
}

#[test]
fn agent_asks_with_prompt_and_context() {
    let agent = Agent::new("ollama".to_string(), None, None);
    let session = agent.start("t", "w", "scan");
    let request = agent.request(&session);
    assert_eq!(request.url, "http://localhost:11434/api/chat");
    assert_eq!(request.authorization, None);
    assert_eq!(request.body["messages"][0]["content"], Value::String(SYSTEM_PROMPT.to_string()));
    assert_eq!(
        request.body["messages"][1]["content"],
        Value::String("Target: t\nInitial Nmap Output:\nscan\nWordlist: w".to_string())
    );
    assert_eq!(agent.client().model(), "llama3");
}

#[test]
fn plain_fenced_reply_runs_the_tool_then_finishes() {
    let mut s = Session::new("10.0.0.5", "/w.txt", "");
    assert_eq!(s.next(), Command::AskModel);
    let first = s.decide(
        "```\n{\"action\":\"run_nikto\",\"args\":{\"target\":\"http://192.168.1.1\"}}\n```",
    );
    assert_eq!(first, Command::RunNikto { target: "http://192.168.1.1".to_string() });
    assert_eq!(s.on_tool_output(Tool::Nikto, "n"), Command::AskModel);
    let second = s.decide("{\"action\":\"finish\",\"args\":{\"summary\":\"s\"}}");
    assert_eq!(second, Command::Finish { summary: "s".to_string() });
    assert_eq!(s.steps(), 2);
    assert_eq!(
        s.context(),
        "Target: 10.0.0.5\nInitial Nmap Output:\n\nWordlist: /w.txt\n[Result of Nikto]\nn"
    );
}
