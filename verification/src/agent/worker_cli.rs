//! The worker's configuration and command line.
use vstd::prelude::*;
use crate::text::{decimal, push_decimal, push_str, str_eq, string_of};

verus! {

/// The value of a run of decimal digits.
pub open spec fn digits_value(d: Seq<char>) -> int
    decreases d.len(),
{
    if d.len() == 0 {
        0
    } else {
        digits_value(d.drop_last()) * 10 + (d.last() as int - '0' as int)
    }
}

/// Whether every character is an ASCII digit.
pub open spec fn all_digits(d: Seq<char>) -> bool {
    forall|i: int| 0 <= i < d.len() ==> '0' <= #[trigger] d[i] <= '9'
}

/// The unsigned number a text writes: an optional `+`, then at least one decimal digit,
/// with a value that fits in 64 bits.
pub open spec fn parsed_u64(s: Seq<char>) -> Option<u64> {
    let d = if s.len() > 0 && s[0] == '+' {
        s.drop_first()
    } else {
        s
    };
    if d.len() == 0 || !all_digits(d) || digits_value(d) > u64::MAX {
        None
    } else {
        Some(digits_value(d) as u64)
    }
}

/// The value of the digits of `s` from position `start`, when they are all digits and
/// the value fits in 64 bits.
fn digits_from(s: &str, start: usize) -> (r: Option<u64>)
    requires
        start <= s@.len(),
    ensures
        ({
            let d = s@.subrange(start as int, s@.len() as int);
            r == (if !all_digits(d) || digits_value(d) > u64::MAX {
                None
            } else {
                Some(digits_value(d) as u64)
            })
        }),
{
    let n = s.unicode_len();
    let ghost d = s@.subrange(start as int, n as int);
    let mut value: u64 = 0;
    let mut overflow = false;
    let mut i: usize = start;
    while i < n
        invariant
            n == s@.len(),
            start <= i <= n,
            d == s@.subrange(start as int, n as int),
            all_digits(d.subrange(0, (i - start) as int)),
            !overflow ==> value == digits_value(d.subrange(0, (i - start) as int)),
            overflow ==> digits_value(d.subrange(0, (i - start) as int)) > u64::MAX,
        decreases n - i,
    {
        let c = s.get_char(i);
        let ghost pre = d.subrange(0, (i - start) as int);
        let ghost post = d.subrange(0, (i + 1 - start) as int);
        proof {
            assert(post.drop_last() =~= pre);
            assert(post.last() == c);
        }
        if c < '0' || c > '9' {
            proof {
                assert(d[i - start] == c);
            }
            return None;
        }
        let digit = (c as u32 - '0' as u32) as u64;
        proof {
            assert(all_digits(post));
            lemma_step(pre, post, digit as int);
        }
        if !overflow {
            if value > (u64::MAX - digit) / 10 {
                overflow = true;
                proof {
                    lemma_over(value as int, digit as int);
                }
            } else {
                proof {
                    lemma_under(value as int, digit as int);
                }
                value = value * 10 + digit;
            }
        } else {
            proof {
                lemma_stays_over(digits_value(pre), digit as int);
            }
        }
        i = i + 1;
    }
    proof {
        assert(d.subrange(0, (n - start) as int) =~= d);
    }
    if overflow {
        None
    } else {
        Some(value)
    }
}

proof fn lemma_step(pre: Seq<char>, post: Seq<char>, digit: int)
    requires
        post.len() > 0,
        post.drop_last() == pre,
        digit == post.last() as int - '0' as int,
    ensures
        digits_value(post) == digits_value(pre) * 10 + digit,
{
}

proof fn lemma_over(value: int, digit: int)
    requires
        0 <= digit <= 9,
        value > (u64::MAX - digit) / 10,
    ensures
        value * 10 + digit > u64::MAX,
{
    assert(value * 10 + digit > u64::MAX) by (nonlinear_arith)
        requires
            value > (u64::MAX - digit) / 10,
            0 <= digit <= 9;
}

proof fn lemma_under(value: int, digit: int)
    requires
        0 <= digit <= 9,
        0 <= value <= (u64::MAX - digit) / 10,
    ensures
        value * 10 + digit <= u64::MAX,
{
    assert(value * 10 + digit <= u64::MAX) by (nonlinear_arith)
        requires
            0 <= value <= (u64::MAX - digit) / 10,
            0 <= digit <= 9;
}

proof fn lemma_stays_over(value: int, digit: int)
    requires
        0 <= digit <= 9,
        value > u64::MAX,
    ensures
        value * 10 + digit > u64::MAX,
{
    assert(value * 10 + digit > u64::MAX) by (nonlinear_arith)
        requires
            value > u64::MAX,
            0 <= digit <= 9;
}

/// Reads an unsigned 64-bit number, as `u64::from_str` of std does.
pub fn parse_u64(s: &str) -> (r: Option<u64>)
    ensures
        r == parsed_u64(s@),
{
    let n = s.unicode_len();
    let start: usize = if n > 0 && s.get_char(0) == '+' {
        1
    } else {
        0
    };
    proof {
        let d = if s@.len() > 0 && s@[0] == '+' {
            s@.drop_first()
        } else {
            s@
        };
        assert(d =~= s@.subrange(start as int, n as int));
    }
    if start == n {
        return None;
    }
    digits_from(s, start)
}

/// Worker configuration.
#[derive(Debug, Clone)]
pub struct WorkerConfig {
    pub spacetime_uri: String,
    pub module_name: String,
    pub agent_id: u64,
    pub mode: String,
    pub worker_name: String,
}

/// A configured value, or its default when unset.
fn or_default(value: Option<String>, default: &str) -> (r: String)
    ensures
        r@ == (match value {
            Some(v) => v@,
            None => default@,
        }),
{
    match value {
        Some(v) => v,
        None => string_of(default),
    }
}

impl WorkerConfig {
    /// The configuration from the environment's values (`None` where a variable is
    /// unset): SpacetimeDB at `ws://localhost:3000`, module `zeroclaw`, agent 1, `cli`
    /// mode and the host's name unless configured. The agent ID must be a number.
    pub fn from_values(
        spacetime_uri: Option<String>,
        module_name: Option<String>,
        agent_id: Option<String>,
        mode: Option<String>,
        worker_name: Option<String>,
        host_name: String,
    ) -> (r: Result<Self, String>)
        ensures
            r is Ok <==> (match agent_id {
                Some(a) => parsed_u64(a@) is Some,
                None => true,
            }),
            r matches Err(e) ==> e@ == "ZEROCLAW_AGENT_ID must be a number"@,
            r matches Ok(c) ==> {
                &&& c.spacetime_uri@ == (match spacetime_uri {
                    Some(v) => v@,
                    None => "ws://localhost:3000"@,
                })
                &&& c.module_name@ == (match module_name {
                    Some(v) => v@,
                    None => "zeroclaw"@,
                })
                &&& c.agent_id == (match agent_id {
                    Some(a) => parsed_u64(a@).unwrap(),
                    None => 1,
                })
                &&& c.mode@ == (match mode {
                    Some(v) => v@,
                    None => "cli"@,
                })
                &&& c.worker_name@ == (match worker_name {
                    Some(v) => v@,
                    None => host_name@,
                })
            },
    {
        let id = match agent_id {
            Some(a) => match parse_u64(a.as_str()) {
                Some(v) => v,
                None => {
                    return Err(string_of("ZEROCLAW_AGENT_ID must be a number"));
                },
            },
            None => 1,
        };
        Ok(
            WorkerConfig {
                spacetime_uri: or_default(spacetime_uri, "ws://localhost:3000"),
                module_name: or_default(module_name, "zeroclaw"),
                agent_id: id,
                mode: or_default(mode, "cli"),
                worker_name: match worker_name {
                    Some(v) => v,
                    None => host_name,
                },
            },
        )
    }
}

/// How the worker runs.
#[derive(Debug, Clone, Copy, PartialEq, Eq, Structural)]
pub enum WorkerMode {
    /// Interactive local chat.
    Cli,
    /// Background worker for local tools and channel polling.
    Daemon,
}

/// The worker mode a configured mode names; any other name is refused.
pub fn worker_mode(mode: &str) -> (r: Result<WorkerMode, String>)
    ensures
        mode@ == "cli"@ ==> r == Ok::<WorkerMode, String>(WorkerMode::Cli),
        mode@ == "daemon"@ ==> r == Ok::<WorkerMode, String>(WorkerMode::Daemon),
        mode@ != "cli"@ && mode@ != "daemon"@ ==> (r matches Err(e) && e@ == "Unknown mode: "@
            + mode@ + ". Use 'cli' or 'daemon'."@),
{
    proof {
        reveal_strlit("cli");
        reveal_strlit("daemon");
        assert("daemon"@.len() != "cli"@.len());
    }
    if str_eq(mode, "cli") {
        Ok(WorkerMode::Cli)
    } else if str_eq(mode, "daemon") {
        Ok(WorkerMode::Daemon)
    } else {
        let mut e = string_of("Unknown mode: ");
        push_str(&mut e, mode);
        push_str(&mut e, ". Use 'cli' or 'daemon'.");
        Err(e)
    }
}

/// A line the user typed in CLI mode, already trimmed.
#[derive(Debug, Clone, PartialEq, Eq)]
pub enum CliInput {
    /// Nothing was typed: prompt again.
    Empty,
    /// `/quit` or `/exit`: leave the CLI.
    Quit,
    /// Another line starting with `/`: a CLI command.
    Command,
    /// Anything else: a message for the agent.
    Message,
}

/// Classifies a trimmed input line.
pub fn classify_input(input: &str) -> (r: CliInput)
    ensures
        r == (if input@.len() == 0 {
            CliInput::Empty
        } else if input@ == "/quit"@ || input@ == "/exit"@ {
            CliInput::Quit
        } else if input@[0] == '/' {
            CliInput::Command
        } else {
            CliInput::Message
        }),
{
    if input.is_empty() {
        CliInput::Empty
    } else if str_eq(input, "/quit") || str_eq(input, "/exit") {
        CliInput::Quit
    } else if input.get_char(0) == '/' {
        CliInput::Command
    } else {
        CliInput::Message
    }
}

/// The lines a CLI command prints.
pub open spec fn command_output(input: Seq<char>, config: WorkerConfig) -> Seq<Seq<char>> {
    if input == "/help"@ {
        seq![
            "Commands:"@,
            "  /help       — Show this help"@,
            "  /status     — Show connection status"@,
            "  /memory     — List stored memories"@,
            "  /tools      — List available tools"@,
            "  /quit       — Exit"@,
        ]
    } else if input == "/status"@ {
        seq![
            "SpacetimeDB: "@ + config.spacetime_uri@ + "/"@ + config.module_name@,
            "Agent ID: "@ + decimal(config.agent_id as nat),
            "Worker: "@ + config.worker_name@,
        ]
    } else if input == "/memory"@ || input == "/tools"@ {
        seq!["[Would query SpacetimeDB tables]"@]
    } else {
        seq!["Unknown command: "@ + input]
    }
}

/// Handles a CLI command, returning the lines to print.
pub fn handle_cli_command(input: &str, config: &WorkerConfig) -> (r: Vec<String>)
    ensures
        r.deep_view() == command_output(input@, *config),
{
    let mut out: Vec<String> = Vec::new();
    if str_eq(input, "/help") {
        out.push(string_of("Commands:"));
        out.push(string_of("  /help       — Show this help"));
        out.push(string_of("  /status     — Show connection status"));
        out.push(string_of("  /memory     — List stored memories"));
        out.push(string_of("  /tools      — List available tools"));
        out.push(string_of("  /quit       — Exit"));
    } else if str_eq(input, "/status") {
        let mut a = string_of("SpacetimeDB: ");
        push_str(&mut a, config.spacetime_uri.as_str());
        push_str(&mut a, "/");
        push_str(&mut a, config.module_name.as_str());
        out.push(a);
        let mut b = string_of("Agent ID: ");
        push_decimal(&mut b, config.agent_id);
        out.push(b);
        let mut c = string_of("Worker: ");
        push_str(&mut c, config.worker_name.as_str());
        out.push(c);
    } else if str_eq(input, "/memory") || str_eq(input, "/tools") {
        out.push(string_of("[Would query SpacetimeDB tables]"));
    } else {
        let mut u = string_of("Unknown command: ");
        push_str(&mut u, input);
        out.push(u);
    }
    proof {
        assert(out.deep_view() =~= command_output(input@, *config));
    }
    out
}

/// The banner printed when the CLI starts.
pub fn cli_banner(config: &WorkerConfig) -> (r: Vec<String>)
    ensures
        r.deep_view() == seq![
            "ZeroClaw CLI (SpacetimeDB: "@ + config.spacetime_uri@ + "/"@ + config.module_name@ + ")"@,
            "Agent ID: "@ + decimal(config.agent_id as nat),
            "Type your message, or /quit to exit.\n"@,
        ],
{
    let mut out: Vec<String> = Vec::new();
    let mut a = string_of("ZeroClaw CLI (SpacetimeDB: ");
    push_str(&mut a, config.spacetime_uri.as_str());
    push_str(&mut a, "/");
    push_str(&mut a, config.module_name.as_str());
    push_str(&mut a, ")");
    out.push(a);
    let mut b = string_of("Agent ID: ");
    push_decimal(&mut b, config.agent_id);
    out.push(b);
    out.push(string_of("Type your message, or /quit to exit.\n"));
    proof {
        assert(out.deep_view() =~= seq![
            "ZeroClaw CLI (SpacetimeDB: "@ + config.spacetime_uri@ + "/"@ + config.module_name@ + ")"@,
            "Agent ID: "@ + decimal(config.agent_id as nat),
            "Type your message, or /quit to exit.\n"@,
        ]);
    }
    out
}

} // verus!
