//! The local worker: its tools, how their output is shaped, and its command line.
use vstd::prelude::*;
use vstd::string::StringSliceAdditionalSpecFns;
use vstd::utf8::encode_utf8;
use crate::agent::llm::{can_clip, clip, clipped};
use crate::agent::memory::{chars_of, join_lines, joined};
use crate::agent::tools::triple_views;
use crate::text::{decimal, push_char, push_decimal, push_str, str_eq, string_of};

verus! {

/// The local tools a worker registers: name, description and JSON parameter schema.
pub open spec fn local_tool_table() -> Seq<(Seq<char>, Seq<char>, Seq<char>)> {
    seq![
        (
            "shell"@,
            "Execute a shell command on the local system"@,
            "{\"type\":\"object\",\"properties\":{\"command\":{\"type\":\"string\",\"description\":\"Shell command to execute\"},\"timeout_secs\":{\"type\":\"integer\",\"description\":\"Timeout in seconds\",\"default\":30}},\"required\":[\"command\"]}"@,
        ),
        (
            "file_read"@,
            "Read a file from the local filesystem"@,
            "{\"type\":\"object\",\"properties\":{\"path\":{\"type\":\"string\",\"description\":\"Absolute path to file\"},\"offset\":{\"type\":\"integer\",\"description\":\"Line offset (0-based)\",\"default\":0},\"limit\":{\"type\":\"integer\",\"description\":\"Max lines to read\",\"default\":2000}},\"required\":[\"path\"]}"@,
        ),
        (
            "file_write"@,
            "Write content to a file on the local filesystem"@,
            "{\"type\":\"object\",\"properties\":{\"path\":{\"type\":\"string\",\"description\":\"Absolute path to file\"},\"content\":{\"type\":\"string\",\"description\":\"Content to write\"}},\"required\":[\"path\",\"content\"]}"@,
        ),
    ]
}

/// Tool definitions for the local tools registered by a worker.
pub fn local_tools() -> (r: Vec<(&'static str, &'static str, &'static str)>)
    ensures
        triple_views(r@) == local_tool_table(),
{
    let mut v: Vec<(&'static str, &'static str, &'static str)> = Vec::new();
    v.push(
        (
            "shell",
            "Execute a shell command on the local system",
            "{\"type\":\"object\",\"properties\":{\"command\":{\"type\":\"string\",\"description\":\"Shell command to execute\"},\"timeout_secs\":{\"type\":\"integer\",\"description\":\"Timeout in seconds\",\"default\":30}},\"required\":[\"command\"]}",
        ),
    );
    v.push(
        (
            "file_read",
            "Read a file from the local filesystem",
            "{\"type\":\"object\",\"properties\":{\"path\":{\"type\":\"string\",\"description\":\"Absolute path to file\"},\"offset\":{\"type\":\"integer\",\"description\":\"Line offset (0-based)\",\"default\":0},\"limit\":{\"type\":\"integer\",\"description\":\"Max lines to read\",\"default\":2000}},\"required\":[\"path\"]}",
        ),
    );
    v.push(
        (
            "file_write",
            "Write content to a file on the local filesystem",
            "{\"type\":\"object\",\"properties\":{\"path\":{\"type\":\"string\",\"description\":\"Absolute path to file\"},\"content\":{\"type\":\"string\",\"description\":\"Content to write\"}},\"required\":[\"path\",\"content\"]}",
        ),
    );
    proof {
        assert(triple_views(v@) =~= local_tool_table());
    }
    v
}

/// The local tools a worker executes.
#[derive(Debug, Clone, Copy, PartialEq, Eq, Structural)]
pub enum LocalTool {
    Shell,
    FileRead,
    FileWrite,
}

/// The local tool a name refers to, if any.
pub open spec fn local_tool_named(name: Seq<char>) -> Option<LocalTool> {
    if name == "shell"@ {
        Some(LocalTool::Shell)
    } else if name == "file_read"@ {
        Some(LocalTool::FileRead)
    } else if name == "file_write"@ {
        Some(LocalTool::FileWrite)
    } else {
        None
    }
}

/// Picks the local tool for a tool name.
pub fn local_tool(name: &str) -> (r: Option<LocalTool>)
    ensures
        r == local_tool_named(name@),
{
    if str_eq(name, "shell") {
        Some(LocalTool::Shell)
    } else if str_eq(name, "file_read") {
        Some(LocalTool::FileRead)
    } else if str_eq(name, "file_write") {
        Some(LocalTool::FileWrite)
    } else {
        None
    }
}

/// The result of a local tool request naming an unknown tool.
pub fn unknown_local_tool(name: &str) -> (r: String)
    ensures
        r@ == "Unknown local tool: "@ + name@,
{
    let mut s = string_of("Unknown local tool: ");
    push_str(&mut s, name);
    s
}

/// The result of a local tool request whose parameters could not be read.
pub fn invalid_params(error: &str) -> (r: String)
    ensures
        r@ == "Invalid params: "@ + error@,
{
    let mut s = string_of("Invalid params: ");
    push_str(&mut s, error);
    s
}

/// The decimal notation of a signed number.
pub open spec fn signed_decimal(n: int) -> Seq<char> {
    if n < 0 {
        seq!['-'] + decimal((-n) as nat)
    } else {
        decimal(n as nat)
    }
}

/// The output of a shell command before any truncation: standard output, then standard
/// error after a `stderr: ` marker (on a new line when there was output), or the exit code
/// (`-1` when there is none) when both are empty.
pub open spec fn shell_text(stdout: Seq<char>, stderr: Seq<char>, exit_code: Option<i32>) -> Seq<char> {
    let with_err = if stderr.len() == 0 {
        stdout
    } else if stdout.len() == 0 {
        "stderr: "@ + stderr
    } else {
        stdout + "\n"@ + "stderr: "@ + stderr
    };
    if with_err.len() == 0 {
        "Exit code: "@ + signed_decimal(
            match exit_code {
                Some(c) => c as int,
                None => -1,
            },
        )
    } else {
        with_err
    }
}

/// Appends the decimal notation of a signed 32-bit number.
fn push_signed(s: &mut String, n: i32)
    ensures
        final(s)@ == old(s)@ + signed_decimal(n as int),
{
    let ghost start = s@;
    if n < 0 {
        push_char(s, '-');
        let m: u64 = (0i64 - n as i64) as u64;
        push_decimal(s, m);
        proof {
            assert(s@ =~= start + signed_decimal(n as int));
        }
    } else {
        push_decimal(s, n as u64);
    }
}

/// Assembles the output of a shell command, before truncation.
pub fn shell_output(stdout: &str, stderr: &str, exit_code: Option<i32>) -> (r: String)
    ensures
        r@ == shell_text(stdout@, stderr@, exit_code),
{
    let mut result = string_of(stdout);
    if !stderr.is_empty() {
        if !stdout.is_empty() {
            push_str(&mut result, "\n");
        }
        push_str(&mut result, "stderr: ");
        push_str(&mut result, stderr);
    }
    if result.as_str().is_empty() {
        let mut code_text = string_of("Exit code: ");
        let code: i32 = match exit_code {
            Some(c) => c,
            None => -1,
        };
        push_signed(&mut code_text, code);
        return code_text;
    }
    result
}

/// Cuts a tool output longer than 8000 bytes to its first 8000 bytes and marks it as
/// truncated.
pub fn truncate_output(output: &str) -> (r: String)
    requires
        can_clip(output, 8000),
    ensures
        output.spec_bytes().len() <= 8000 ==> r@ == output@,
        output.spec_bytes().len() > 8000 ==> exists|head: Seq<char>|
            encode_utf8(head) == clipped(output@, 8000) && r@ == head + "\n... (truncated)"@,
{
    if output.as_bytes().len() > 8000 {
        let mut head = clip(output, 8000);
        let ghost h = head@;
        push_str(&mut head, "\n... (truncated)");
        proof {
            assert(head@ == h + "\n... (truncated)"@);
        }
        head
    } else {
        string_of(output)
    }
}

/// A line without the carriage return that ends it, if any.
pub open spec fn without_cr(line: Seq<char>) -> Seq<char> {
    if line.len() > 0 && line.last() == '\r' {
        line.drop_last()
    } else {
        line
    }
}

/// The lines finished, and the line in progress, after reading `text` from the start: a
/// line ends at `\n`, and a `\r` just before that `\n` is dropped.
pub open spec fn lines_so_far(text: Seq<char>) -> (Seq<Seq<char>>, Seq<char>)
    decreases text.len(),
{
    if text.len() == 0 {
        (Seq::empty(), Seq::empty())
    } else {
        let (done, cur) = lines_so_far(text.drop_last());
        if text.last() == '\n' {
            (done.push(without_cr(cur)), Seq::empty())
        } else {
            (done, cur.push(text.last()))
        }
    }
}

/// The lines of a text, as `str::lines` gives them: split at `\n` or `\r\n`, with the
/// final line ending optional (a text ending in one has no empty last line) and a bare
/// `\r` at the very end kept.
pub open spec fn text_lines(text: Seq<char>) -> Seq<Seq<char>> {
    let (done, cur) = lines_so_far(text);
    if cur.len() > 0 {
        done.push(cur)
    } else {
        done
    }
}

/// The string of `chars[start..end]`.
fn string_from(chars: &Vec<char>, start: usize, end: usize) -> (r: String)
    requires
        start <= end <= chars@.len(),
    ensures
        r@ == chars@.subrange(start as int, end as int),
{
    let mut out = String::new();
    let mut k: usize = start;
    while k < end
        invariant
            start <= k <= end <= chars@.len(),
            out@ == chars@.subrange(start as int, k as int),
        decreases end - k,
    {
        push_char(&mut out, chars[k]);
        k = k + 1;
        proof {
            assert(out@ =~= chars@.subrange(start as int, k as int));
        }
    }
    out
}

/// Splits a text into lines.
fn split_lines(text: &str) -> (r: Vec<String>)
    ensures
        r.deep_view() == text_lines(text@),
{
    let chars = chars_of(text);
    let mut done: Vec<String> = Vec::new();
    let mut start: usize = 0;
    let mut i: usize = 0;
    while i < chars.len()
        invariant
            chars@ == text@,
            0 <= start <= i <= chars@.len(),
            (done.deep_view(), chars@.subrange(start as int, i as int)) == lines_so_far(
                text@.subrange(0, i as int),
            ),
        decreases chars@.len() - i,
    {
        proof {
            assert(text@.subrange(0, i + 1).drop_last() =~= text@.subrange(0, i as int));
        }
        if chars[i] == '\n' {
            let end = if i > start && chars[i - 1] == '\r' {
                i - 1
            } else {
                i
            };
            let line = string_from(&chars, start, end);
            proof {
                assert(line@ =~= without_cr(chars@.subrange(start as int, i as int)));
            }
            let ghost before = done.deep_view();
            done.push(line);
            proof {
                assert(done.deep_view() =~= before.push(line@));
                assert(chars@.subrange(i + 1, i + 1) =~= Seq::<char>::empty());
            }
            start = i + 1;
        } else {
            proof {
                assert(chars@.subrange(start as int, i + 1) =~= chars@.subrange(start as int, i as int).push(chars@[i as int]));
            }
        }
        i = i + 1;
    }
    proof {
        assert(text@.subrange(0, chars@.len() as int) =~= text@);
    }
    if start < chars.len() {
        let line = string_from(&chars, start, chars.len());
        let ghost before = done.deep_view();
        done.push(line);
        proof {
            assert(done.deep_view() =~= before.push(line@));
        }
    }
    done
}

/// A line number right-aligned in a field four characters wide.
pub open spec fn line_number(n: nat) -> Seq<char> {
    let d = decimal(n);
    if d.len() >= 4 {
        d
    } else {
        Seq::new((4 - d.len()) as nat, |i: int| ' ') + d
    }
}

/// The window of lines the file tool returns: from `offset` (capped at the number of
/// lines) for at most `limit` lines.
pub open spec fn window_bounds(n: nat, offset: nat, limit: nat) -> (nat, nat) {
    let start = if offset <= n {
        offset
    } else {
        n
    };
    let end = if start + limit <= n {
        start + limit
    } else {
        n
    };
    (start, end)
}

/// The numbered lines of the window: `number line`, numbered from 1.
pub open spec fn numbered_window(lines: Seq<Seq<char>>, offset: nat, limit: nat) -> Seq<Seq<char>> {
    let (start, end) = window_bounds(lines.len(), offset, limit);
    Seq::new(
        (end - start) as nat,
        |i: int| line_number((start + i + 1) as nat) + " "@ + lines[start + i],
    )
}

/// Appends a line number right-aligned in four characters.
fn push_line_number(s: &mut String, n: u64)
    ensures
        final(s)@ == old(s)@ + line_number(n as nat),
{
    let mut digits = String::new();
    push_decimal(&mut digits, n);
    let len = digits.as_str().unicode_len();
    let ghost start = s@;
    let mut pad: usize = 0;
    while len + pad < 4
        invariant
            len == digits@.len(),
            digits@ == decimal(n as nat),
            s@ == start + Seq::new(pad as nat, |i: int| ' '),
            len + pad <= 4 || pad == 0,
        decreases 4 - len - pad,
    {
        push_char(s, ' ');
        pad = pad + 1;
        proof {
            assert(s@ =~= start + Seq::new(pad as nat, |i: int| ' '));
        }
    }
    push_str(s, digits.as_str());
    proof {
        if len >= 4 {
            assert(pad == 0);
            assert(s@ =~= start + decimal(n as nat));
        } else {
            assert(pad == 4 - len);
            assert(s@ =~= start + (Seq::new((4 - len) as nat, |i: int| ' ') + decimal(n as nat)));
        }
    }
}

/// Renders the file tool's window of lines, numbered, one per line.
pub fn numbered_lines(lines: &Vec<String>, offset: usize, limit: usize) -> (r: String)
    requires
        (if offset <= lines@.len() {
            offset as int
        } else {
            lines@.len() as int
        }) + limit <= usize::MAX,
    ensures
        r@ == joined(numbered_window(lines.deep_view(), offset as nat, limit as nat), "\n"@),
{
    let n = lines.len();
    let start = if offset <= n {
        offset
    } else {
        n
    };
    let end = if start + limit <= n {
        start + limit
    } else {
        n
    };
    let ghost want = numbered_window(lines.deep_view(), offset as nat, limit as nat);
    let mut out: Vec<String> = Vec::new();
    let mut i: usize = start;
    while i < end
        invariant
            start <= i <= end <= n,
            n == lines@.len(),
            (start as nat, end as nat) == window_bounds(n as nat, offset as nat, limit as nat),
            want == numbered_window(lines.deep_view(), offset as nat, limit as nat),
            out.deep_view() =~= want.subrange(0, (i - start) as int),
        decreases end - i,
    {
        let mut line = String::new();
        push_line_number(&mut line, (i + 1) as u64);
        push_str(&mut line, " ");
        push_str(&mut line, lines[i].as_str());
        proof {
            assert(line@ == want[(i - start) as int]);
        }
        let ghost prev = out.deep_view();
        out.push(line);
        proof {
            assert(out.deep_view() =~= prev.push(want[(i - start) as int]));
            assert(want.subrange(0, (i + 1 - start) as int) =~= want.subrange(0, (i - start) as int).push(want[(i - start) as int]));
        }
        i = i + 1;
    }
    proof {
        assert(out.deep_view() =~= want);
    }
    join_lines(&out, "\n")
}

/// The file read tool's answer for a file's content: the numbered window of its lines from
/// `offset` for at most `limit` lines, or `None` when the window's end is not
/// representable (the start, capped at the number of lines, plus `limit` overflows).
pub fn file_window(content: &str, offset: usize, limit: usize) -> (r: Option<String>)
    ensures
        ({
            let lines = text_lines(content@);
            let start = if offset <= lines.len() {
                offset as int
            } else {
                lines.len() as int
            };
            &&& r is None <==> start + limit > usize::MAX
            &&& r matches Some(s) ==> s@ == joined(
                numbered_window(lines, offset as nat, limit as nat),
                "\n"@,
            )
        }),
{
    let lines = split_lines(content);
    let start = if offset <= lines.len() {
        offset
    } else {
        lines.len()
    };
    if limit > usize::MAX - start {
        None
    } else {
        Some(numbered_lines(&lines, offset, limit))
    }
}

/// The result of the file write tool.
pub fn written_message(content: &str, path: &str) -> (r: String)
    ensures
        r@ == "Written "@ + decimal(content.spec_bytes().len()) + " bytes to "@ + path@,
{
    let mut s = string_of("Written ");
    push_decimal(&mut s, content.as_bytes().len() as u64);
    push_str(&mut s, " bytes to ");
    push_str(&mut s, path);
    s
}

} // verus!
