//! The `bash` tool: its definition, and how a finished command is reported.

use vstd::prelude::*;

use crate::text::string_from_chars;
use crate::tools::{defines_sig, property_sig, Property, ToolDefinition, ToolSignature};

verus! {

/// The decimal digit of a value below ten.
pub open spec fn digit_char(d: nat) -> char {
    ((d + 0x30) as u8) as char
}

/// The decimal digits of `n`, most significant first, without leading zeros.
pub open spec fn decimal_digits(n: nat) -> Seq<char>
    decreases n,
{
    if n < 10 {
        seq![digit_char(n)]
    } else {
        decimal_digits(n / 10).push(digit_char(n % 10))
    }
}

/// `n` in decimal, with a leading `-` when negative, as `i32`'s `Display` writes it.
pub open spec fn decimal(n: int) -> Seq<char> {
    if n < 0 {
        seq!['-'] + decimal_digits((-n) as nat)
    } else {
        decimal_digits(n as nat)
    }
}

/// The exit status as the error message shows it: the code in decimal, or
/// `signal` when the process was ended by a signal.
pub open spec fn exit_code_text(code: Option<i32>) -> Seq<char> {
    match code {
        Some(c) => decimal(c as int),
        None => "signal"@,
    }
}

/// The error reported for a command that failed.
pub open spec fn failure_message(code: Option<i32>, stdout: Seq<char>, stderr: Seq<char>) -> Seq<char> {
    "bash exited with "@ + exit_code_text(code) + "\nstdout:\n"@ + stdout + "\nstderr:\n"@ + stderr
}

fn push_digits(out: &mut Vec<char>, n: u64)
    ensures
        final(out)@ == old(out)@ + decimal_digits(n as nat),
    decreases n,
{
    if n >= 10 {
        push_digits(out, n / 10);
    }
    let d = (n % 10) as u8;
    let c = (d + 0x30) as char;
    out.push(c);
    proof {
        if n >= 10 {
            assert(decimal_digits(n as nat) == decimal_digits((n / 10) as nat).push(digit_char((n % 10) as nat)));
        }
    }
    assert(final(out)@ =~= old(out)@ + decimal_digits(n as nat));
}

/// `n` in decimal.
pub fn decimal_string(n: i32) -> (s: String)
    ensures
        s@ == decimal(n as int),
{
    let mut out: Vec<char> = Vec::new();
    let wide = n as i64;
    if wide < 0 {
        out.push('-');
        push_digits(&mut out, (-wide) as u64);
    } else {
        push_digits(&mut out, wide as u64);
    }
    assert(out@ =~= decimal(n as int));
    string_from_chars(out.as_slice())
}

/// The report of a finished `bash -c` command: its standard output when it
/// succeeded, else an error message with its exit code, output and error output.
pub fn bash_result(success: bool, code: Option<i32>, stdout: String, stderr: String) -> (r: Result<
    String,
    String,
>)
    ensures
        success ==> r == Ok::<String, String>(stdout),
        !success ==> (r matches Err(m) && m@ == failure_message(code, stdout@, stderr@)),
{
    if success {
        return Ok(stdout);
    }
    let code_text = match code {
        Some(c) => decimal_string(c),
        None => String::from_str("signal"),
    };
    let message = String::from_str("bash exited with ").concat(code_text.as_str()).concat(
        "\nstdout:\n",
    ).concat(stdout.as_str()).concat("\nstderr:\n").concat(stderr.as_str());
    Err(message)
}

/// What the `bash` tool's definition says: name, description, parameters
/// and the required ones.
pub open spec fn bash_signature() -> ToolSignature {
    ToolSignature {
        name: "bash"@,
        description: "Run a bash command. Pass a single shell command string; it is executed with bash -c."@,
        props: seq![
            ("command"@, "string"@, "bash command to run (e.g. \"ls -la\" or \"echo hello\")"@, None, None),
        ],
        required: seq!["command"@],
    }
}

/// The definition of the `bash` tool.
pub fn def_bash() -> (d: ToolDefinition)
    ensures
        defines_sig(d, bash_signature()),
{
    let name = String::from_str("bash");
    let description = String::from_str("Run a bash command. Pass a single shell command string; it is executed with bash -c.");
    let p0 = Property {
        kind: String::from_str("string"),
        description: String::from_str("bash command to run (e.g. \"ls -la\" or \"echo hello\")"),
        items: None,
        property_enum: None,
    };
    let properties = vec![(String::from_str("command"), p0)];
    let required = vec![String::from_str("command")];
    proof {
        reveal_strlit("command");
        assert(properties@[0].0@ == "command"@);
    }
    assert(properties@.map_values(|q: (String, Property)| property_sig(q)) =~= seq![
        ("command"@, "string"@, "bash command to run (e.g. \"ls -la\" or \"echo hello\")"@, None, None),
    ]);
    assert(required@.map_values(|s: String| s@) =~= seq!["command"@]);
    ToolDefinition::new(name, description, true, properties, Some(required))
}

} // verus!
