use vstd::prelude::*;
use vstd::string::*;

use crate::text::chars_of;

verus! {

broadcast use vstd::string::group_string_axioms;

/// How commands typed at the prompt are run, as chosen on the command line.
#[derive(Clone, Copy, Debug, PartialEq, Eq, Structural)]
pub enum ExecModeArg {
    /// Through a shell: `/bin/<shell> -c <line>`.
    Shell,
    /// Directly: the line is split into words like a shell would.
    Exec,
}

/// The code of `c`, with an ASCII capital letter taken as its small letter.
pub open spec fn ascii_lower(c: char) -> u32 {
    if 'A' <= c && c <= 'Z' {
        ((c as u32) + 32) as u32
    } else {
        c as u32
    }
}

/// Equal up to the case of ASCII letters (`str::eq_ignore_ascii_case`).
pub open spec fn eq_ignore_ascii_case_seq(a: Seq<char>, b: Seq<char>) -> bool {
    a.len() == b.len() && forall|i: int| 0 <= i < a.len() ==> ascii_lower(a[i]) == ascii_lower(b[i])
}

/// The name of a mode as the command line spells it.
pub open spec fn mode_name(m: ExecModeArg) -> Seq<char> {
    match m {
        ExecModeArg::Shell => "Shell"@,
        ExecModeArg::Exec => "Exec"@,
    }
}

/// The mode a command-line word names, ignoring ASCII case.
pub open spec fn parse_mode(s: Seq<char>) -> Option<ExecModeArg> {
    if eq_ignore_ascii_case_seq(s, "Shell"@) {
        Some(ExecModeArg::Shell)
    } else if eq_ignore_ascii_case_seq(s, "Exec"@) {
        Some(ExecModeArg::Exec)
    } else {
        None
    }
}

fn ascii_lower_char(c: char) -> (r: u32)
    ensures
        r == ascii_lower(c),
{
    if 'A' <= c && c <= 'Z' {
        (c as u32) + 32
    } else {
        c as u32
    }
}

/// Whether two strings are equal up to the case of ASCII letters.
pub fn eq_ignore_ascii_case(a: &str, b: &str) -> (r: bool)
    ensures
        r == eq_ignore_ascii_case_seq(a@, b@),
{
    let ac = chars_of(a);
    let bc = chars_of(b);
    if ac.len() != bc.len() {
        return false;
    }
    let n = ac.len();
    let mut i: usize = 0;
    while i < n
        invariant
            n == ac@.len(),
            n == bc@.len(),
            ac@ == a@,
            bc@ == b@,
            i <= n,
            forall|k: int| 0 <= k < i ==> ascii_lower(ac@[k]) == ascii_lower(bc@[k]),
        decreases n - i,
    {
        if ascii_lower_char(ac[i]) != ascii_lower_char(bc[i]) {
            return false;
        }
        i = i + 1;
    }
    true
}

impl ExecModeArg {
    /// The names of all modes, in the order the command line lists them.
    pub fn variants() -> (v: Vec<String>)
        ensures
            v@.len() == 2,
            v@[0]@ == mode_name(ExecModeArg::Shell),
            v@[1]@ == mode_name(ExecModeArg::Exec),
    {
        let mut v: Vec<String> = Vec::new();
        v.push(String::from_str("Shell"));
        v.push(String::from_str("Exec"));
        v
    }

    /// The mode's name.
    pub fn name(&self) -> (s: String)
        ensures
            s@ == mode_name(*self),
    {
        match self {
            ExecModeArg::Shell => String::from_str("Shell"),
            ExecModeArg::Exec => String::from_str("Exec"),
        }
    }

    /// Reads a mode from its name, ignoring ASCII case; otherwise the error lists the valid
    /// names.
    pub fn parse(s: &str) -> (r: Result<ExecModeArg, String>)
        ensures
            match r {
                Ok(m) => parse_mode(s@) == Some(m),
                Err(e) => parse_mode(s@) is None && e@ == "valid values: Shell, Exec"@,
            },
    {
        if eq_ignore_ascii_case(s, "Shell") {
            Ok(ExecModeArg::Shell)
        } else if eq_ignore_ascii_case(s, "Exec") {
            Ok(ExecModeArg::Exec)
        } else {
            Err(String::from_str("valid values: Shell, Exec"))
        }
    }
}

/// Law: a mode's own name reads back as that mode.
pub proof fn law_parse_name(m: ExecModeArg)
    ensures
        parse_mode(mode_name(m)) == Some(m),
{
    reveal_strlit("Shell");
    reveal_strlit("Exec");
}

/// Law: words that differ only in the case of ASCII letters name the same mode.
pub proof fn law_parse_ignores_case(s: Seq<char>, t: Seq<char>)
    requires
        eq_ignore_ascii_case_seq(s, t),
    ensures
        parse_mode(s) == parse_mode(t),
{
}

/// The mode in which prompt lines are run.
pub enum ExecMode {
    /// Through the named shell.
    Shell(String),
    /// Directly, split into words.
    Exec,
}

/// The mode that command-line options select.
pub open spec fn exec_mode_of(arg: ExecModeArg, shell: String) -> ExecMode {
    match arg {
        ExecModeArg::Shell => ExecMode::Shell(shell),
        ExecModeArg::Exec => ExecMode::Exec,
    }
}

/// How a mode is shown: the shell's name, or `exec`.
pub open spec fn exec_mode_label(m: ExecMode) -> Seq<char> {
    match m {
        ExecMode::Shell(sh) => sh@,
        ExecMode::Exec => "exec"@,
    }
}

impl ExecMode {
    /// The mode that the `--exec-mode` and `--exec-shell` options select.
    pub fn new(mode_arg: ExecModeArg, shell: String) -> (m: Self)
        ensures
            m == exec_mode_of(mode_arg, shell),
    {
        match mode_arg {
            ExecModeArg::Shell => ExecMode::Shell(shell),
            ExecModeArg::Exec => ExecMode::Exec,
        }
    }

    /// The shell's name, or `exec`.
    pub fn to_string(&self) -> (s: String)
        ensures
            s@ == exec_mode_label(*self),
    {
        match self {
            ExecMode::Shell(sh) => sh.clone(),
            ExecMode::Exec => String::from_str("exec"),
        }
    }
}

/// Law: the shell mode is shown by the shell's name, the exec mode as `exec`.
pub proof fn law_mode_label(shell: String)
    ensures
        exec_mode_label(exec_mode_of(ExecModeArg::Shell, shell)) == shell@,
        exec_mode_label(exec_mode_of(ExecModeArg::Exec, shell)) == "exec"@,
{
}

} // verus!
