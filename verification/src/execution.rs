//! The tool that runs shell commands: its configuration, the check for
//! dangerous commands, and the report of a command's outcome.

use crate::editing::normalize::lowercase_of;
use crate::search::filtering::owned_list;
use crate::text::{
    contains, contains_text, decimal, from_chars, push_decimal_wide, push_str, string_texts,
    to_chars,
};
use crate::tool_core::{ToolArgs, ToolError};
use vstd::prelude::*;

verus! {

/// Tool for executing shell commands safely.
pub struct RunCommandTool {
    pub timeout_seconds: u64,
    pub working_dir: String,
    pub dangerous_commands: Vec<String>,
}

/// The patterns that mark a command as dangerous.
pub open spec fn dangerous_patterns() -> Seq<Seq<char>> {
    seq![
        "rm -rf"@,
        "sudo rm"@,
        "format"@,
        "mkfs"@,
        "dd if="@,
        "shutdown"@,
        "reboot"@,
        "halt"@,
        "kill -9"@,
        ":(){:|:&};:"@,
    ]
}

/// Whether `command`, in lower case, holds one of `patterns` in lower case.
pub open spec fn is_dangerous(patterns: Seq<String>, command: Seq<char>) -> bool {
    exists|i: int|
        0 <= i < patterns.len() && contains_text(
            lowercase_of(command),
            lowercase_of((#[trigger] patterns[i])@),
        )
}

/// What validation owes: a command must be given, as the first positional
/// argument or under the name `command`.
pub open spec fn command_given(args: ToolArgs) -> bool {
    args.args.len() > 0 || args.named("command"@) is Some
}

/// The report of a command that ran: its output if it succeeded, and its
/// exit code and output if it failed. A failure without exit code is
/// reported as -1.
pub open spec fn command_report(
    stdout: Seq<char>,
    stderr: Seq<char>,
    success: bool,
    exit_code: Option<i32>,
) -> Seq<char> {
    if success {
        if stdout.len() == 0 && stderr.len() == 0 {
            "Command executed successfully with no output (exit code: 0)"@
        } else {
            "Command executed successfully:\n"@ + (if stdout.len() > 0 {
                "stdout:\n"@ + stdout
            } else {
                Seq::empty()
            }) + (if stdout.len() > 0 && stderr.len() > 0 {
                "\n"@
            } else {
                Seq::empty()
            }) + (if stderr.len() > 0 {
                "stderr:\n"@ + stderr
            } else {
                Seq::empty()
            })
        }
    } else {
        "Command failed with exit code "@ + signed_decimal(
            match exit_code {
                Some(c) => c as int,
                None => -1,
            },
        ) + ":\nstdout: "@ + stdout + "\nstderr: "@ + stderr
    }
}

/// `n` in decimal, with a minus sign if it is negative.
pub open spec fn signed_decimal(n: int) -> Seq<char> {
    if n < 0 {
        seq!['-'] + decimal((-n) as nat)
    } else {
        decimal(n as nat)
    }
}

impl RunCommandTool {
    /// The tool with a timeout of two minutes, working in the directory
    /// `.`.
    pub fn new() -> (r: Self)
        ensures
            r.timeout_seconds == 120,
            r.working_dir@ == "."@,
            string_texts(r.dangerous_commands@) == dangerous_patterns(),
    {
        let patterns = vec![
            "rm -rf",
            "sudo rm",
            "format",
            "mkfs",
            "dd if=",
            "shutdown",
            "reboot",
            "halt",
            "kill -9",
            ":(){:|:&};:",
        ];
        let dangerous_commands = owned_list(patterns.as_slice());
        assert(string_texts(dangerous_commands@) == dangerous_patterns());
        RunCommandTool { timeout_seconds: 120, working_dir: ".".to_owned(), dangerous_commands }
    }

    /// The tool with the timeout given.
    pub fn new_with_timeout(timeout_seconds: u64) -> (r: Self)
        ensures
            r.timeout_seconds == timeout_seconds,
            r.working_dir@ == "."@,
            string_texts(r.dangerous_commands@) == dangerous_patterns(),
    {
        let mut tool = Self::new();
        tool.timeout_seconds = timeout_seconds;
        tool
    }

    /// The tool working in the directory given.
    pub fn new_with_workdir(working_dir: &str) -> (r: Self)
        ensures
            r.timeout_seconds == 120,
            r.working_dir@ == working_dir@,
            string_texts(r.dangerous_commands@) == dangerous_patterns(),
    {
        let mut tool = Self::new();
        tool.working_dir = working_dir.to_owned();
        tool
    }

    pub fn name(&self) -> (r: &'static str)
        ensures
            r@ == "run_command"@,
    {
        "run_command"
    }

    pub fn description(&self) -> (r: &'static str)
        ensures
            r@ == "Execute shell commands safely with timeout protection and dangerous command filtering"@,
    {
        "Execute shell commands safely with timeout protection and dangerous command filtering"
    }

    pub fn signature(&self) -> (r: &'static str)
        ensures
            r@ == "run_command(command: string) -> {stdout: string, stderr: string, success: bool}"@,
    {
        "run_command(command: string) -> {stdout: string, stderr: string, success: bool}"
    }

    /// Whether `command` holds one of the dangerous patterns, whatever the
    /// case of its letters.
    pub fn is_dangerous_command(&self, command: &str) -> (r: bool)
        ensures
            r == is_dangerous(self.dangerous_commands@, command@),
    {
        let lower = to_chars(command.to_lowercase().as_str());
        let mut i: usize = 0;
        while i < self.dangerous_commands.len()
            invariant
                i <= self.dangerous_commands.len(),
                lower@ == lowercase_of(command@),
                forall|j: int|
                    0 <= j < i ==> !contains_text(
                        lowercase_of(command@),
                        lowercase_of((#[trigger] self.dangerous_commands[j])@),
                    ),
            decreases self.dangerous_commands.len() - i,
        {
            let pattern = to_chars(self.dangerous_commands[i].as_str().to_lowercase().as_str());
            if contains(lower.as_slice(), pattern.as_slice()) {
                return true;
            }
            i += 1;
        }
        false
    }

    /// A command must be given, as the first positional argument or under
    /// the name `command`.
    pub fn validate_args(&self, args: &ToolArgs) -> (r: Result<(), ToolError>)
        ensures
            command_given(*args) ==> r is Ok,
            !command_given(*args) ==> (r matches Err(ToolError::InvalidArgs { message }) && message@
                == "run_command requires either a positional 'command' argument or named 'command' parameter"@),
    {
        if args.get_arg(0).is_none() && args.get_named_arg("command").is_none() {
            return Err(
                ToolError::InvalidArgs {
                    message: "run_command requires either a positional 'command' argument or named 'command' parameter".to_owned(),
                },
            );
        }
        Ok(())
    }

    /// The command that the arguments give: the first positional argument,
    /// or else the one under the name `command`.
    pub fn command<'a>(&self, args: &'a ToolArgs) -> (r: Option<&'a String>)
        ensures
            match r {
                Some(c) => if args.args.len() > 0 {
                    *c == args.args[0]
                } else {
                    args.named("command"@) == Some(c@)
                },
                None => !command_given(*args),
            },
    {
        match args.get_arg(0) {
            Some(c) => Some(c),
            None => args.get_named_arg("command"),
        }
    }

    /// The record of a command in the history.
    pub fn history_record(&self, command: &str) -> (r: String)
        ensures
            r@ == "run_command: "@ + command@,
    {
        let mut out: Vec<char> = Vec::new();
        push_str(&mut out, "run_command: ");
        push_str(&mut out, command);
        from_chars(out.as_slice())
    }

    /// The report of a command that ran.
    pub fn format_output(
        &self,
        stdout: &str,
        stderr: &str,
        success: bool,
        exit_code: Option<i32>,
    ) -> (r: String)
        ensures
            r@ == command_report(stdout@, stderr@, success, exit_code),
    {
        let out_chars = to_chars(stdout);
        let err_chars = to_chars(stderr);
        let mut out: Vec<char> = Vec::new();
        if success {
            if out_chars.len() == 0 && err_chars.len() == 0 {
                push_str(&mut out, "Command executed successfully with no output (exit code: 0)");
            } else {
                push_str(&mut out, "Command executed successfully:\n");
                if out_chars.len() > 0 {
                    push_str(&mut out, "stdout:\n");
                    push_str(&mut out, stdout);
                }
                if out_chars.len() > 0 && err_chars.len() > 0 {
                    push_str(&mut out, "\n");
                }
                if err_chars.len() > 0 {
                    push_str(&mut out, "stderr:\n");
                    push_str(&mut out, stderr);
                }
            }
        } else {
            push_str(&mut out, "Command failed with exit code ");
            let code: i64 = match exit_code {
                Some(c) => c as i64,
                None => -1,
            };
            if code < 0 {
                out.push('-');
                push_decimal_wide(&mut out, (-code) as u128);
            } else {
                push_decimal_wide(&mut out, code as u128);
            }
            push_str(&mut out, ":\nstdout: ");
            push_str(&mut out, stdout);
            push_str(&mut out, "\nstderr: ");
            push_str(&mut out, stderr);
        }
        from_chars(out.as_slice())
    }
}

} // verus!
