use vstd::prelude::*;
use vstd::string::*;

use crate::paths::{file_name_spec, join, join_spec, law_file_name_of_join};

verus! {

broadcast use vstd::string::group_string_axioms;

/// The organization the project directory is kept under.
pub const ORGANIZATION: &'static str = "GolemFactory";

/// The qualifier of the project directory.
pub const QUALIFIER: &'static str = "";

/// The application's name.
pub const APP_NAME: &'static str = "ya-runtime-dbg";

/// The file the prompt history is kept in, inside the project directory.
pub const HISTORY_FILE: &'static str = ".ya_dbg_history";

/// The project's data directory where the platform has one (calls
/// `directories::ProjectDirs::from`, then `ProjectDirs::data_dir`).
///
/// Trusted: the directory depends on the environment (the home directory), so no clause ties
/// it to the arguments. Only one fact is stated: a directory it returns is not the empty path,
/// since on every platform the source builds it by joining onto a base directory that it
/// found.
#[verifier::external_body]
fn project_data_dir(qualifier: &str, organization: &str, application: &str) -> (r: Option<
    String,
>)
    ensures
        r matches Some(d) ==> d@.len() > 0,
{
    match directories::ProjectDirs::from(qualifier, organization, application) {
        Some(dirs) => Some(dirs.data_dir().to_string_lossy().into_owned()),
        None => None,
    }
}

/// The project directory used where the platform gives none: `GolemFactory/ya-runtime-dbg`.
pub open spec fn fallback_project_dir() -> Seq<char> {
    join_spec(ORGANIZATION@, APP_NAME@)
}

/// The project directory: the platform's data directory for the project where there is one,
/// else the fallback.
pub fn choose_project_dir(found: Option<String>) -> (d: String)
    ensures
        d@ == match found {
            Some(f) => f@,
            None => fallback_project_dir(),
        },
{
    match found {
        Some(f) => f,
        None => join(ORGANIZATION, APP_NAME),
    }
}

/// The project directory of this application: the platform's data directory for it, or the
/// fallback; never the empty path.
pub fn project_dir() -> (d: String)
    ensures
        d@.len() > 0,
{
    let found = project_data_dir(QUALIFIER, ORGANIZATION, APP_NAME);
    proof {
        reveal_strlit("GolemFactory");
    }
    choose_project_dir(found)
}

/// The file the prompt history is kept in, inside a project directory.
pub fn history_path(dir: &str) -> (p: String)
    ensures
        p@ == join_spec(dir@, HISTORY_FILE@),
{
    join(dir, HISTORY_FILE)
}

/// Law: whatever the project directory, the history file's name is `.ya_dbg_history`.
pub proof fn law_history_file_name(dir: Seq<char>)
    ensures
        file_name_spec(join_spec(dir, HISTORY_FILE@)) == Some(HISTORY_FILE@),
{
    reveal_strlit(".ya_dbg_history");
    assert(HISTORY_FILE@ != seq!['.']) by {
        assert(HISTORY_FILE@.len() != seq!['.'].len());
    }
    assert(HISTORY_FILE@ != seq!['.', '.']) by {
        assert(HISTORY_FILE@.len() != seq!['.', '.'].len());
    }
    law_file_name_of_join(dir, HISTORY_FILE@);
}

} // verus!
