//! How the three scanners are invoked and what counts as their result.

use vstd::prelude::*;
use crate::text::{decoded_lossy, decode_lossy};

verus! {

/// The scanners.
#[derive(Debug, Clone, Copy, PartialEq, Eq, Structural)]
pub enum Tool {
    /// The port scanner.
    Nmap,
    /// The web vulnerability scanner.
    Nikto,
    /// The directory brute-forcer.
    Gobuster,
}

impl Tool {
    /// The program's name.
    pub open spec fn program_name(self) -> Seq<char> {
        match self {
            Tool::Nmap => "nmap"@,
            Tool::Nikto => "nikto"@,
            Tool::Gobuster => "gobuster"@,
        }
    }

    /// The name of the result file inside the output directory.
    pub open spec fn result_file(self) -> Seq<char> {
        match self {
            Tool::Nmap => "nmap.txt"@,
            Tool::Nikto => "nikto.txt"@,
            Tool::Gobuster => "gobuster.txt"@,
        }
    }

    /// The name under which the tool is reported.
    pub open spec fn title(self) -> Seq<char> {
        match self {
            Tool::Nmap => "Nmap"@,
            Tool::Nikto => "Nikto"@,
            Tool::Gobuster => "Gobuster"@,
        }
    }

    /// Whether an exit status other than success is a failure. Only the port
    /// scanner's is: the other two report findings through theirs.
    pub open spec fn must_succeed(self) -> bool {
        self == Tool::Nmap
    }

    /// The program's name.
    pub fn program(self) -> (r: &'static str)
        ensures
            r@ == self.program_name(),
    {
        match self {
            Tool::Nmap => "nmap",
            Tool::Nikto => "nikto",
            Tool::Gobuster => "gobuster",
        }
    }

    /// The name of the result file inside the output directory.
    pub fn file_name(self) -> (r: &'static str)
        ensures
            r@ == self.result_file(),
    {
        match self {
            Tool::Nmap => "nmap.txt",
            Tool::Nikto => "nikto.txt",
            Tool::Gobuster => "gobuster.txt",
        }
    }

    /// The name under which the tool is reported.
    pub fn name(self) -> (r: &'static str)
        ensures
            r@ == self.title(),
    {
        match self {
            Tool::Nmap => "Nmap",
            Tool::Nikto => "Nikto",
            Tool::Gobuster => "Gobuster",
        }
    }

    /// Whether an exit status other than success is a failure.
    pub fn checks_status(self) -> (r: bool)
        ensures
            r == self.must_succeed(),
    {
        match self {
            Tool::Nmap => true,
            _ => false,
        }
    }
}

/// One argument on a scanner's command line.
#[derive(Debug, PartialEq, Eq)]
pub enum Arg {
    /// A fixed flag or a text handed through.
    Text(String),
    /// The path of the tool's result file inside the output directory.
    OutputFile,
}

/// An argument with its text as a character sequence.
pub ghost enum ArgView {
    Text(Seq<char>),
    OutputFile,
}

impl View for Arg {
    type V = ArgView;

    open spec fn view(&self) -> ArgView {
        match self {
            Arg::Text(s) => ArgView::Text(s@),
            Arg::OutputFile => ArgView::OutputFile,
        }
    }
}

/// The views of a command line's arguments, in order.
pub open spec fn views(args: Seq<Arg>) -> Seq<ArgView> {
    args.map_values(|a: Arg| a@)
}

/// Why a scanner's run counts as failed.
#[derive(Debug, PartialEq, Eq)]
pub enum ToolError {
    /// The program ended with a status other than success; `stderr` is what
    /// it wrote to its error stream.
    Failed { tool: Tool, stderr: String },
}

impl ToolError {
    /// The message for the operator.
    pub fn message(&self) -> (r: String)
        ensures
            match self {
                ToolError::Failed { tool, stderr } => r@ == tool.title() + " failed: "@ + stderr@,
            },
    {
        match self {
            ToolError::Failed { tool, stderr } => {
                String::from_str(tool.name()).concat(" failed: ").concat(stderr.as_str())
            },
        }
    }
}

fn flag(s: &str) -> (r: Arg)
    ensures
        r@ == ArgView::Text(s@),
{
    Arg::Text(String::from_str(s))
}

/// The command lines of the scanners, and what their runs yield.
pub struct ToolRunner;

impl ToolRunner {
    /// The port scanner's arguments: version and script detection, normal
    /// output to the result file, then the target.
    pub open spec fn nmap_args(target: Seq<char>) -> Seq<ArgView> {
        seq![
            ArgView::Text("-sV"@),
            ArgView::Text("-sC"@),
            ArgView::Text("-oN"@),
            ArgView::OutputFile,
            ArgView::Text(target),
        ]
    }

    /// The vulnerability scanner's arguments: the host, then the result file.
    pub open spec fn nikto_args(target: Seq<char>) -> Seq<ArgView> {
        seq![
            ArgView::Text("-h"@),
            ArgView::Text(target),
            ArgView::Text("-o"@),
            ArgView::OutputFile,
        ]
    }

    /// The brute-forcer's arguments: directory mode, the address, the word
    /// list, the result file, and no verification of certificates.
    pub open spec fn gobuster_args(target: Seq<char>, wordlist: Seq<char>) -> Seq<ArgView> {
        seq![
            ArgView::Text("dir"@),
            ArgView::Text("-u"@),
            ArgView::Text(target),
            ArgView::Text("-w"@),
            ArgView::Text(wordlist),
            ArgView::Text("-o"@),
            ArgView::OutputFile,
            ArgView::Text("-k"@),
        ]
    }

    /// The arguments of a run of a tool.
    pub open spec fn args_of(tool: Tool, target: Seq<char>, wordlist: Seq<char>) -> Seq<ArgView> {
        match tool {
            Tool::Nmap => ToolRunner::nmap_args(target),
            Tool::Nikto => ToolRunner::nikto_args(target),
            Tool::Gobuster => ToolRunner::gobuster_args(target, wordlist),
        }
    }

    /// The port scanner's command line.
    pub fn nmap_command(target: &str) -> (r: Vec<Arg>)
        ensures
            views(r@) == ToolRunner::nmap_args(target@),
    {
        let mut args: Vec<Arg> = Vec::new();
        args.push(flag("-sV"));
        args.push(flag("-sC"));
        args.push(flag("-oN"));
        args.push(Arg::OutputFile);
        args.push(flag(target));
        assert(views(args@) =~= ToolRunner::nmap_args(target@));
        args
    }

    /// The vulnerability scanner's command line.
    pub fn nikto_command(target: &str) -> (r: Vec<Arg>)
        ensures
            views(r@) == ToolRunner::nikto_args(target@),
    {
        let mut args: Vec<Arg> = Vec::new();
        args.push(flag("-h"));
        args.push(flag(target));
        args.push(flag("-o"));
        args.push(Arg::OutputFile);
        assert(views(args@) =~= ToolRunner::nikto_args(target@));
        args
    }

    /// The brute-forcer's command line.
    pub fn gobuster_command(target: &str, wordlist: &str) -> (r: Vec<Arg>)
        ensures
            views(r@) == ToolRunner::gobuster_args(target@, wordlist@),
    {
        let mut args: Vec<Arg> = Vec::new();
        args.push(flag("dir"));
        args.push(flag("-u"));
        args.push(flag(target));
        args.push(flag("-w"));
        args.push(flag(wordlist));
        args.push(flag("-o"));
        args.push(Arg::OutputFile);
        args.push(flag("-k"));
        assert(views(args@) =~= ToolRunner::gobuster_args(target@, wordlist@));
        args
    }

    /// What a finished run yields, given its decoded output streams.
    pub open spec fn outcome_of(
        tool: Tool,
        success: bool,
        stdout: Seq<char>,
        stderr: Seq<char>,
    ) -> Result<Seq<char>, (Tool, Seq<char>)> {
        if tool.must_succeed() && !success {
            Err((tool, stderr))
        } else {
            Ok(stdout)
        }
    }

    /// An outcome with its texts as character sequences.
    pub open spec fn outcome_view(r: Result<String, ToolError>) -> Result<
        Seq<char>,
        (Tool, Seq<char>),
    > {
        match r {
            Ok(s) => Ok(s@),
            Err(ToolError::Failed { tool, stderr }) => Err((tool, stderr@)),
        }
    }

    /// What a finished run yields: the standard output, unless the tool's
    /// exit status counts and is not success.
    pub fn outcome(tool: Tool, success: bool, stdout: String, stderr: String) -> (r: Result<
        String,
        ToolError,
    >)
        ensures
            ToolRunner::outcome_view(r) == ToolRunner::outcome_of(tool, success, stdout@, stderr@),
    {
        if tool.checks_status() && !success {
            Err(ToolError::Failed { tool, stderr })
        } else {
            Ok(stdout)
        }
    }

    /// What a finished run yields, from the bytes of its output streams.
    pub fn collect(tool: Tool, success: bool, stdout: &[u8], stderr: &[u8]) -> (r: Result<
        String,
        ToolError,
    >)
        ensures
            ToolRunner::outcome_view(r) == ToolRunner::outcome_of(
                tool,
                success,
                decoded_lossy(stdout@),
                decoded_lossy(stderr@),
            ),
    {
        let out = decode_lossy(stdout);
        let err = decode_lossy(stderr);
        ToolRunner::outcome(tool, success, out, err)
    }
}

} // verus!
