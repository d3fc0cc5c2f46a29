use vstd::prelude::*;
use vstd::string::*;

use crate::exec_mode::ExecMode;
use crate::paths::{
    file_name, file_name_spec, is_plain_name, join_spec, law_file_name_of_join, parent, parent_spec,
};

verus! {

broadcast use vstd::string::group_string_axioms;

#[verifier::external_type_specification]
#[verifier::external_body]
pub struct ExShellWordsParseError(shell_words::ParseError);

/// The words that `shell_words::split` makes of a line, or `None` where it reports an
/// unclosed quote.
pub uninterp spec fn shell_words_split(line: Seq<char>) -> Option<Seq<Seq<char>>>;

/// A character that the shell-word splitter keeps as it is inside an unquoted word.
pub open spec fn is_word_char(c: char) -> bool {
    c != '\'' && c != '"' && c != '\\' && c != ' ' && c != '\t' && c != '\n'
}

/// A line that is a single word with nothing to unquote or escape.
pub open spec fn is_plain_word(s: Seq<char>) -> bool {
    s.len() > 0 && s[0] != '#' && forall|i: int| 0 <= i < s.len() ==> is_word_char(s[i])
}

/// A line of nothing but spaces, tabs and newlines.
pub open spec fn is_blank_line(s: Seq<char>) -> bool {
    forall|i: int| 0 <= i < s.len() ==> (s[i] == ' ' || s[i] == '\t' || s[i] == '\n')
}

/// Splits a line into words as a shell would (calls `shell_words::split`).
///
/// Trusted: the words, or the failure, are named `shell_words_split(line@)`. Two facts the
/// splitter's state machine shows plainly are stated too: a line of spaces, tabs and newlines
/// gives no words, and a single word without quotes, backslashes or blanks, not starting with
/// `#`, gives itself. Nothing else of the quoting rules is stated.
#[verifier::external_body]
fn split_words(line: &str) -> (r: Result<Vec<String>, shell_words::ParseError>)
    ensures
        r is Ok <==> shell_words_split(line@) is Some,
        r matches Ok(words) ==> shell_words_split(line@) == Some(words.deep_view()),
        is_blank_line(line@) ==> r is Ok,
        r matches Ok(words) ==> (is_blank_line(line@) ==> words@.len() == 0),
        is_plain_word(line@) ==> r is Ok,
        r matches Ok(words) ==> (is_plain_word(line@) ==> words.deep_view() == seq![line@]),
{
    shell_words::split(line)
}

/// The process to start in the runtime: a binary and its arguments, the first of which is the
/// binary's file name.
pub struct RunProcess {
    pub bin: String,
    pub args: Vec<String>,
}

/// Why a prompt line cannot be run.
#[derive(Debug)]
pub enum RunError {
    /// The line has an unclosed quote.
    Parse(shell_words::ParseError),
    /// The command's path has no file name.
    InvalidCommand(String),
}

/// What a prompt line comes to, abstractly.
pub enum Prepared {
    /// No command: nothing to run.
    Nothing,
    /// Run this binary with these arguments.
    Run(Seq<char>, Seq<Seq<char>>),
    /// The line could not be split into words.
    Unparsable,
    /// The command's path has no file name.
    Invalid(Seq<char>),
}

/// The abstract value of what `prepare_run` returns.
pub open spec fn prepared_of(r: Result<Option<RunProcess>, RunError>) -> Prepared {
    match r {
        Ok(None) => Prepared::Nothing,
        Ok(Some(p)) => Prepared::Run(p.bin@, p.args.deep_view()),
        Err(RunError::Parse(_)) => Prepared::Unparsable,
        Err(RunError::InvalidCommand(path)) => Prepared::Invalid(path@),
    }
}

/// The words of a line run through a shell: `/bin/<shell> -c <line>`.
pub open spec fn shell_command_words(shell: Seq<char>, line: Seq<char>) -> Seq<Seq<char>> {
    seq!["/bin/"@ + shell, "-c"@, line]
}

/// The words a line comes to in a mode.
pub open spec fn command_words_spec(line: Seq<char>, mode: ExecMode) -> Option<Seq<Seq<char>>> {
    match mode {
        ExecMode::Shell(sh) => Some(shell_command_words(sh@, line)),
        ExecMode::Exec => shell_words_split(line),
    }
}

/// The process that command words start: the first word is the binary, and its file name
/// takes its place at the head of the arguments.
pub open spec fn process_of_words(words: Seq<Seq<char>>) -> Prepared {
    if words.len() == 0 {
        Prepared::Nothing
    } else {
        match file_name_spec(words[0]) {
            Some(name) => Prepared::Run(words[0], seq![name] + words.drop_first()),
            None => Prepared::Invalid(words[0]),
        }
    }
}

/// What a prompt line comes to in a mode.
pub open spec fn prepare_spec(line: Seq<char>, mode: ExecMode) -> Prepared {
    match command_words_spec(line, mode) {
        Some(words) => process_of_words(words),
        None => Prepared::Unparsable,
    }
}

/// The words a prompt line comes to: in the shell mode the shell command, in the exec mode the
/// line split into words.
pub fn command_words(line: String, mode: &ExecMode) -> (r: Result<Vec<String>, RunError>)
    ensures
        match r {
            Ok(words) => command_words_spec(line@, *mode) == Some(words.deep_view()),
            Err(e) => command_words_spec(line@, *mode) is None && e is Parse,
        },
        *mode is Exec && is_blank_line(line@) ==> (r matches Ok(words) && words@.len() == 0),
        *mode is Exec && is_plain_word(line@) ==> (r matches Ok(words) && words.deep_view()
            == seq![line@]),
{
    match mode {
        ExecMode::Shell(sh) => {
            let mut bin = String::from_str("/bin/");
            bin.append(sh.as_str());
            let mut words: Vec<String> = Vec::new();
            words.push(bin);
            words.push(String::from_str("-c"));
            words.push(line);
            assert(words.deep_view() =~= shell_command_words(sh@, line@));
            Ok(words)
        },
        ExecMode::Exec => match split_words(line.as_str()) {
            Ok(words) => Ok(words),
            Err(e) => Err(RunError::Parse(e)),
        },
    }
}

/// The process that command words start; no words start nothing, and a first word without a
/// file name is an invalid command.
pub fn run_process_from_words(words: Vec<String>) -> (r: Result<Option<RunProcess>, RunError>)
    ensures
        prepared_of(r) == process_of_words(words.deep_view()),
        words@.len() == 0 <==> r matches Ok(None),
        r matches Ok(Some(p)) ==> {
            &&& p.bin@ == words@[0]@
            &&& p.args@.len() == words@.len()
            &&& file_name_spec(words@[0]@) == Some(p.args@[0]@)
            &&& forall|i: int| 1 <= i < words@.len() ==> (#[trigger] p.args@[i])@ == words@[i]@
        },
        words@.len() > 0 ==> (r is Ok <==> file_name_spec(words@[0]@) is Some),
        r matches Err(e) ==> (e matches RunError::InvalidCommand(path) && path@ == words@[0]@),
{
    let n = words.len();
    if n == 0 {
        return Ok(None);
    }
    let ghost wv = words.deep_view();
    let mut rest = words;
    let bin = rest.remove(0);
    assert(rest.deep_view() =~= wv.drop_first());
    match file_name(bin.as_str()) {
        None => Err(RunError::InvalidCommand(bin)),
        Some(name) => {
            let mut args: Vec<String> = Vec::new();
            args.push(name);
            args.append(&mut rest);
            assert(args.deep_view() =~= seq![file_name_spec(wv[0]).unwrap()] + wv.drop_first());
            proof {
                assert(args@.len() == args.deep_view().len());
                assert(args@[0]@ == args.deep_view()[0]);
                assert forall|i: int| 1 <= i < wv.len() implies (#[trigger] args@[i])@ == wv[i] by {
                    assert(args@[i]@ == args.deep_view()[i]);
                }
            }
            Ok(Some(RunProcess { bin, args }))
        },
    }
}

/// Law: no words start nothing; otherwise the first word is the binary, and where it has a file
/// name the arguments are that name followed by every remaining word, in order, so there are
/// as many arguments as words; where it has none the command is invalid.
pub proof fn law_process_keeps_all_words(words: Seq<Seq<char>>)
    ensures
        words.len() == 0 ==> process_of_words(words) == Prepared::Nothing,
        words.len() > 0 && file_name_spec(words[0]) is None ==> process_of_words(words)
            == Prepared::Invalid(words[0]),
        words.len() > 0 && file_name_spec(words[0]) is Some ==> (process_of_words(
            words,
        ) matches Prepared::Run(bin, args) && {
            &&& bin == words[0]
            &&& args.len() == words.len()
            &&& args[0] == file_name_spec(words[0]).unwrap()
            &&& forall|i: int| 1 <= i < words.len() ==> #[trigger] args[i] == words[i]
        }),
{
}

/// The process a prompt line starts in a mode, if any.
pub fn prepare_run(line: String, mode: &ExecMode) -> (r: Result<Option<RunProcess>, RunError>)
    ensures
        prepared_of(r) == prepare_spec(line@, *mode),
        *mode is Exec && is_blank_line(line@) ==> prepared_of(r) == Prepared::Nothing,
        *mode is Exec && is_plain_word(line@) ==> prepared_of(r) == process_of_words(
            seq![line@],
        ),
{
    match command_words(line, mode) {
        Ok(words) => run_process_from_words(words),
        Err(e) => Err(e),
    }
}

/// Law: in the shell mode with a plain shell name, a line runs `/bin/<shell>` with the
/// arguments `<shell> -c <line>`.
pub proof fn law_shell_line(shell: String, line: Seq<char>)
    requires
        is_plain_name(shell@),
    ensures
        prepare_spec(line, ExecMode::Shell(shell)) == Prepared::Run(
            "/bin/"@ + shell@,
            seq![shell@, "-c"@, line],
        ),
{
    reveal_strlit("/bin/");
    reveal_strlit("/bin");
    assert(join_spec("/bin"@, shell@) =~= "/bin/"@ + shell@);
    law_file_name_of_join("/bin"@, shell@);
    let words = shell_command_words(shell@, line);
    assert(seq![shell@] + words.drop_first() =~= seq![shell@, "-c"@, line]);
}

/// The directory the runtime runs in: the parent of its binary's path.
pub fn runtime_dir(runtime: &str) -> (r: Option<String>)
    ensures
        r matches Some(d) ==> parent_spec(runtime@) == Some(d@),
        r is None ==> parent_spec(runtime@) is None,
{
    parent(runtime)
}

} // verus!
