use vstd::prelude::*;
use vstd::string::*;

use crate::exec_mode::ExecModeArg;

verus! {

broadcast use vstd::string::group_string_axioms;

/// The options the debugger was started with.
pub struct Args {
    /// Mode to execute commands in.
    pub exec_mode: ExecModeArg,
    /// Execution shell (for the shell mode).
    pub exec_shell: String,
    /// Runtime binary.
    pub runtime: String,
    /// Working directory.
    pub workdir: String,
    /// Task package to deploy.
    pub task_package: Option<String>,
    /// Service protocol version.
    pub protocol: String,
    /// Whether the deployment phase runs.
    pub deploy: bool,
    /// Additional DEPLOY command arguments.
    pub deploy_arg: Vec<String>,
    /// Additional START command arguments.
    pub start_arg: Vec<String>,
    /// Additional runtime arguments.
    pub varargs: Vec<String>,
}

/// A path given on the command line that does not resolve; it carries the path as given.
#[derive(Debug)]
pub enum CanonicalizeError {
    RuntimeNotFound(String),
    WorkdirNotFound(String),
    TaskPackageNotFound(String),
}

/// The text of an optional string.
pub open spec fn opt_view(o: Option<String>) -> Option<Seq<char>> {
    match o {
        Some(s) => Some(s@),
        None => None,
    }
}

/// The arguments handed to the runtime before its command: the working directory, the task
/// package if one is given, then the additional runtime arguments.
pub open spec fn runtime_args_spec(
    workdir: Seq<char>,
    task_package: Option<Seq<char>>,
    varargs: Seq<Seq<char>>,
) -> Seq<Seq<char>> {
    seq!["--workdir"@, workdir] + match task_package {
        Some(tp) => seq!["--task-package"@, tp],
        None => Seq::empty(),
    } + varargs
}

/// The runtime arguments of `a`.
pub open spec fn runtime_args_of(a: Args) -> Seq<Seq<char>> {
    runtime_args_spec(a.workdir@, opt_view(a.task_package), a.varargs.deep_view())
}

/// `words` with `sep` between each two of them (`join`).
pub open spec fn join_words(words: Seq<Seq<char>>, sep: Seq<char>) -> Seq<char>
    decreases words.len(),
{
    if words.len() == 0 {
        Seq::empty()
    } else if words.len() == 1 {
        words[0]
    } else {
        join_words(words.drop_last(), sep) + sep + words.last()
    }
}

/// What resolving the paths of `a` leaves, given what each path resolved to (`None` where it
/// does not resolve): the runtime, then the working directory, then the task package, with the
/// first that fails reported and the ones before it already replaced.
pub open spec fn canonicalize_outcome(
    a: Args,
    runtime: Option<String>,
    workdir: Option<String>,
    task_package: Option<String>,
) -> (Args, Result<(), CanonicalizeError>) {
    match runtime {
        None => (a, Err(CanonicalizeError::RuntimeNotFound(a.runtime))),
        Some(rt) => match workdir {
            None => (Args { runtime: rt, ..a }, Err(CanonicalizeError::WorkdirNotFound(a.workdir))),
            Some(wd) => match a.task_package {
                None => (Args { runtime: rt, workdir: wd, ..a }, Ok(())),
                Some(tp) => match task_package {
                    None => (
                        Args { runtime: rt, workdir: wd, ..a },
                        Err(CanonicalizeError::TaskPackageNotFound(tp)),
                    ),
                    Some(ctp) => (
                        Args { runtime: rt, workdir: wd, task_package: Some(ctp), ..a },
                        Ok(()),
                    ),
                },
            },
        },
    }
}

/// Law: the runtime arguments are `--workdir <workdir>`, then `--task-package <package>` when a
/// package is given, then every additional runtime argument in order, ending the list.
pub proof fn law_runtime_args_shape(
    workdir: Seq<char>,
    task_package: Option<Seq<char>>,
    varargs: Seq<Seq<char>>,
)
    ensures
        ({
            let r = runtime_args_spec(workdir, task_package, varargs);
            let k = if task_package is Some {
                4int
            } else {
                2int
            };
            &&& r.len() == k + varargs.len()
            &&& r[0] == "--workdir"@
            &&& r[1] == workdir
            &&& task_package matches Some(tp) ==> r[2] == "--task-package"@ && r[3] == tp
            &&& forall|i: int| 0 <= i < varargs.len() ==> #[trigger] r[k + i] == varargs[i]
            &&& r.subrange(k, r.len() as int) == varargs
        }),
{
    let r = runtime_args_spec(workdir, task_package, varargs);
    let k = if task_package is Some {
        4int
    } else {
        2int
    };
    assert(r.subrange(k, r.len() as int) =~= varargs);
}

/// Copies of `words`, appended to `out`.
fn push_all(out: &mut Vec<String>, words: &Vec<String>)
    ensures
        final(out).deep_view() == old(out).deep_view() + words.deep_view(),
{
    let n = words.len();
    let ghost start = out.deep_view();
    let mut i: usize = 0;
    while i < n
        invariant
            n == words@.len(),
            i <= n,
            out.deep_view() == start + words.deep_view().take(i as int),
        decreases n - i,
    {
        let ghost prev = out.deep_view();
        let w = words[i].clone();
        out.push(w);
        assert(out.deep_view() =~= prev.push(words@[i as int]@));
        assert(words.deep_view().take(i + 1) =~= words.deep_view().take(i as int).push(
            words@[i as int]@,
        ));
        i = i + 1;
    }
    assert(words.deep_view().take(n as int) =~= words.deep_view());
}

impl Args {
    /// Replaces the runtime, working-directory and task-package paths with what they resolve
    /// to. `runtime`, `workdir` and `task_package` are what each resolves to, `None` where it
    /// does not; the first that does not is reported with the path as given.
    pub fn canonicalize(
        &mut self,
        runtime: Option<String>,
        workdir: Option<String>,
        task_package: Option<String>,
    ) -> (r: Result<(), CanonicalizeError>)
        ensures
            (*final(self), r) == canonicalize_outcome(*old(self), runtime, workdir, task_package),
            r is Ok <==> (runtime is Some && workdir is Some && (old(self).task_package is Some
                ==> task_package is Some)),
    {
        let rt = match runtime {
            Some(rt) => rt,
            None => {
                return Err(CanonicalizeError::RuntimeNotFound(self.runtime.clone()));
            },
        };
        self.runtime = rt;
        let wd = match workdir {
            Some(wd) => wd,
            None => {
                return Err(CanonicalizeError::WorkdirNotFound(self.workdir.clone()));
            },
        };
        self.workdir = wd;
        match &self.task_package {
            None => Ok(()),
            Some(tp) => match task_package {
                None => Err(CanonicalizeError::TaskPackageNotFound(tp.clone())),
                Some(ctp) => {
                    self.task_package = Some(ctp);
                    Ok(())
                },
            },
        }
    }

    /// The arguments handed to the runtime before its command.
    pub fn to_runtime_args(&self) -> (v: Vec<String>)
        ensures
            v.deep_view() == runtime_args_of(*self),
            v@.len() == (if self.task_package is Some {
                4int
            } else {
                2int
            }) + self.varargs@.len(),
            v@[0]@ == "--workdir"@,
            v@[1]@ == self.workdir@,
            self.task_package matches Some(tp) ==> v@[2]@ == "--task-package"@ && v@[3]@ == tp@,
            forall|i: int|
                0 <= i < self.varargs@.len() ==> (#[trigger] v@[v@.len() - self.varargs@.len()
                    + i])@ == self.varargs@[i]@,
    {
        let mut v: Vec<String> = Vec::new();
        v.push(String::from_str("--workdir"));
        v.push(self.workdir.clone());
        match &self.task_package {
            Some(tp) => {
                v.push(String::from_str("--task-package"));
                v.push(tp.clone());
            },
            None => {},
        }
        push_all(&mut v, &self.varargs);
        assert(v.deep_view() =~= runtime_args_of(*self));
        proof {
            law_runtime_args_shape(self.workdir@, opt_view(self.task_package), self.varargs.deep_view());
            assert(v@.len() == v.deep_view().len());
            assert(v@[0]@ == v.deep_view()[0]);
            assert(v@[1]@ == v.deep_view()[1]);
            if self.task_package is Some {
                assert(v@[2]@ == v.deep_view()[2]);
                assert(v@[3]@ == v.deep_view()[3]);
            }
            let k = v@.len() - self.varargs@.len();
            assert forall|i: int| 0 <= i < self.varargs@.len() implies (#[trigger] v@[k + i])@
                == self.varargs@[i]@ by {
                assert(v@[k + i]@ == v.deep_view()[k + i]);
                assert(self.varargs.deep_view()[i] == self.varargs@[i]@);
            }
        }
        v
    }

    /// The arguments of the runtime's deploy command: the runtime arguments, `deploy`, then the
    /// additional deploy arguments.
    pub fn deploy_args(&self) -> (v: Vec<String>)
        ensures
            v.deep_view() == runtime_args_of(*self) + seq!["deploy"@] + self.deploy_arg.deep_view(),
    {
        let mut v = self.to_runtime_args();
        v.push(String::from_str("deploy"));
        push_all(&mut v, &self.deploy_arg);
        v
    }

    /// The arguments of the runtime's start command: the runtime arguments, `start`, then the
    /// additional start arguments.
    pub fn start_args(&self) -> (v: Vec<String>)
        ensures
            v.deep_view() == runtime_args_of(*self) + seq!["start"@] + self.start_arg.deep_view(),
    {
        let mut v = self.to_runtime_args();
        v.push(String::from_str("start"));
        push_all(&mut v, &self.start_arg);
        v
    }

    /// The line announcing how the runtime is invoked: `Arguments: <runtime> <runtime args>`.
    pub fn arguments_message(&self) -> (s: String)
        ensures
            s@ == "Arguments: "@ + self.runtime@ + " "@ + join_words(runtime_args_of(*self), " "@),
    {
        let rt_args = self.to_runtime_args();
        let mut s = String::from_str("Arguments: ");
        s.append(self.runtime.as_str());
        s.append(" ");
        let joined = join_strings(&rt_args, " ");
        s.append(joined.as_str());
        s
    }
}

/// `words` with `sep` between each two of them.
pub fn join_strings(words: &Vec<String>, sep: &str) -> (s: String)
    ensures
        s@ == join_words(words.deep_view(), sep@),
{
    let n = words.len();
    let mut s = String::new();
    let mut i: usize = 0;
    while i < n
        invariant
            n == words@.len(),
            i <= n,
            s@ == join_words(words.deep_view().take(i as int), sep@),
        decreases n - i,
    {
        let ghost before = words.deep_view().take(i as int);
        let ghost after = words.deep_view().take(i + 1);
        assert(after.drop_last() =~= before);
        if i > 0 {
            s.append(sep);
        } else {
            assert(s@ =~= Seq::<char>::empty());
        }
        s.append(words[i].as_str());
        i = i + 1;
    }
    assert(words.deep_view().take(n as int) =~= words.deep_view());
    s
}

} // verus!
