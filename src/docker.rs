//! What the lifecycle manager says to the container runtime: the arguments
//! of each `docker` command, and how each outcome is classified.

use vstd::prelude::*;
use crate::environment::{Environment, opt_view};
use crate::text::same_text;

verus! {

/// The words a POSIX shell would split a string into, if it can be split.
pub uninterp spec fn shell_split(s: Seq<char>) -> Option<Seq<Seq<char>>>;

/// The words quoted for a POSIX shell and joined by spaces.
pub uninterp spec fn shell_joined(words: Seq<Seq<char>>) -> Seq<char>;

/// Relies on `shell_words::split`: splits as a POSIX shell does, and fails
/// on a quote that is not closed.
#[verifier::external_body]
fn split_words(s: &str) -> (r: Option<Vec<String>>)
    ensures
        (r is Some) == (shell_split(s@) is Some),
        r matches Some(v) ==> shell_split(s@) == Some(v.deep_view()),
{
    shell_words::split(s).ok()
}

/// Relies on `shell_words::join`: quotes each word as needed and joins them
/// with spaces.
#[verifier::external_body]
fn join_words(words: &Vec<String>) -> (r: String)
    ensures
        r@ == shell_joined(words.deep_view()),
{
    shell_words::join(words)
}

/// Why a runtime operation failed.
#[derive(Clone, Debug)]
pub enum DockerError {
    ConnectingToDaemon(String),
    ContainerInfo(String),
    ImageInfo(String),
    RemovingContainer(String),
    StartingContainer(String),
    StoppingContainer(String),
    EnteringContainer(String),
    CommandExitCode { cmd: String, stderr: String },
    CommandKilled(String),
    CommandFailed(String),
    /// An option or command could not be split into words.
    ShellWords(String),
}

/// The words of every string in turn, if each can be split.
pub open spec fn split_all(l: Seq<Seq<char>>) -> Option<Seq<Seq<char>>>
    decreases l.len(),
{
    if l.len() == 0 {
        Some(Seq::empty())
    } else {
        match (split_all(l.drop_last()), shell_split(l.last())) {
            (Some(a), Some(b)) => Some(a + b),
            _ => None,
        }
    }
}

/// The arguments that create the container: its name, the create options,
/// the image, and a command that keeps it alive.
pub open spec fn create_args(e: Environment) -> Option<Seq<Seq<char>>> {
    match split_all(e.create_options.deep_view()) {
        Some(o) => Some(
            seq!["create"@, "--name"@, e.name@] + o + seq![e.image@, "tail"@, "-f"@, "/dev/null"@],
        ),
        None => None,
    }
}

/// The arguments that run `cmd` in the container with the exec options.
pub open spec fn exec_args(e: Environment, cmd: Seq<char>) -> Option<Seq<Seq<char>>> {
    match (split_all(e.exec_options.deep_view()), shell_split(cmd)) {
        (Some(o), Some(w)) => Some(seq!["exec"@] + o + seq![e.name@] + w),
        _ => None,
    }
}

/// The arguments that run the entry command in the container with the
/// entry options.
pub open spec fn enter_args(e: Environment) -> Option<Seq<Seq<char>>> {
    match (split_all(e.entry_options.deep_view()), shell_split(e.entry_cmd@)) {
        (Some(o), Some(w)) => Some(seq!["exec"@] + o + seq![e.name@] + w),
        _ => None,
    }
}

/// The arguments that build the image from the Dockerfile in the build
/// context.
pub open spec fn build_args(e: Environment) -> Option<Seq<Seq<char>>> {
    match (opt_view(e.dockerfile), opt_view(e.build_context)) {
        (Some(d), Some(c)) => Some(seq!["build"@, "-t"@, e.image@, "-f"@, d, c]),
        _ => None,
    }
}

/// The arguments that list the container's pseudo-terminals.
pub open spec fn sessions_args(e: Environment) -> Seq<Seq<char>> {
    seq!["exec"@, e.name@, "ls"@, "/dev/pts"@]
}

/// The number of newlines in `b`.
pub open spec fn newlines(b: Seq<u8>) -> nat
    decreases b.len(),
{
    if b.len() == 0 {
        0
    } else {
        newlines(b.drop_last()) + if b.last() == 10u8 {
            1nat
        } else {
            0nat
        }
    }
}

/// The number of lines of an output: each newline ends one, and text after
/// the last newline is one more.
pub open spec fn line_count(b: Seq<u8>) -> nat {
    if b.len() > 0 && b.last() != 10u8 {
        newlines(b) + 1
    } else {
        newlines(b)
    }
}

/// The words of a string, or the error that names it.
fn split_one(s: &String) -> (r: Result<Vec<String>, DockerError>)
    ensures
        shell_split(s@) matches Some(w) ==> (r matches Ok(v) && v.deep_view() == w),
        shell_split(s@) is None ==> r is Err,
{
    match split_words(s.as_str()) {
        Some(v) => Ok(v),
        None => Err(DockerError::ShellWords(s.clone())),
    }
}

fn push_word(v: &mut Vec<String>, w: &str)
    ensures
        final(v).deep_view() == old(v).deep_view().push(w@),
{
    let ghost before = v.deep_view();
    v.push(w.to_owned());
    proof {
        assert(v.deep_view() =~= before.push(w@));
    }
}

fn push_words(v: &mut Vec<String>, w: Vec<String>)
    ensures
        final(v).deep_view() == old(v).deep_view() + w.deep_view(),
{
    let ghost before = v.deep_view();
    let mut w = w;
    let ghost ws = w.deep_view();
    v.append(&mut w);
    proof {
        assert(v.deep_view() =~= before + ws);
    }
}

/// The lifecycle manager's view of one resolved environment.
#[derive(Debug)]
pub struct DockerHandler {
    pub env: Environment,
}

impl DockerHandler {
    pub fn new(env: Environment) -> (r: DockerHandler)
        ensures
            r.env == env,
    {
        DockerHandler { env }
    }

    /// The words of all the strings in turn, as `split_all` gives them.
    pub fn to_shell(strings: &Vec<String>) -> (r: Result<Vec<String>, DockerError>)
        ensures
            split_all(strings.deep_view()) matches Some(w) ==> (r matches Ok(v) && v.deep_view() == w),
            split_all(strings.deep_view()) is None ==> r is Err,
    {
        let ghost l = strings.deep_view();
        let mut out: Vec<String> = Vec::new();
        let mut i: usize = 0;
        proof {
            assert(l.subrange(0, 0) =~= Seq::<Seq<char>>::empty());
        }
        while i < strings.len()
            invariant
                0 <= i <= strings@.len(),
                l == strings.deep_view(),
                split_all(l.subrange(0, i as int)) == Some(out.deep_view()),
            decreases strings@.len() - i,
        {
            proof {
                assert(l.subrange(0, i + 1).drop_last() =~= l.subrange(0, i as int));
                assert(l.subrange(0, i + 1).last() == strings@[i as int]@);
            }
            let words = match split_one(&strings[i]) {
                Ok(w) => w,
                Err(e) => {
                    proof {
                        lemma_split_all_none(l, i as int + 1);
                    }
                    return Err(e);
                },
            };
            push_words(&mut out, words);
            i = i + 1;
        }
        proof {
            assert(l.subrange(0, strings@.len() as int) =~= l);
        }
        Ok(out)
    }

    /// The arguments `create_args` describes.
    pub fn create_args(&self) -> (r: Result<Vec<String>, DockerError>)
        ensures
            create_args(self.env) matches Some(a) ==> (r matches Ok(v) && v.deep_view() == a),
            create_args(self.env) is None ==> r is Err,
    {
        let options = Self::to_shell(&self.env.create_options)?;
        let mut args: Vec<String> = Vec::new();
        push_word(&mut args, "create");
        push_word(&mut args, "--name");
        push_word(&mut args, self.env.name.as_str());
        push_words(&mut args, options);
        push_word(&mut args, self.env.image.as_str());
        push_word(&mut args, "tail");
        push_word(&mut args, "-f");
        push_word(&mut args, "/dev/null");
        proof {
            let o = split_all(self.env.create_options.deep_view())->Some_0;
            assert(args.deep_view() =~= seq!["create"@, "--name"@, self.env.name@] + o + seq![
                self.env.image@,
                "tail"@,
                "-f"@,
                "/dev/null"@,
            ]);
        }
        Ok(args)
    }

    /// The arguments `exec_args` describes for `cmd`.
    pub fn exec_args(&self, cmd: &String) -> (r: Result<Vec<String>, DockerError>)
        ensures
            exec_args(self.env, cmd@) matches Some(a) ==> (r matches Ok(v) && v.deep_view() == a),
            exec_args(self.env, cmd@) is None ==> r is Err,
    {
        let options = Self::to_shell(&self.env.exec_options)?;
        let words = split_one(cmd)?;
        let mut args: Vec<String> = Vec::new();
        push_word(&mut args, "exec");
        push_words(&mut args, options);
        push_word(&mut args, self.env.name.as_str());
        push_words(&mut args, words);
        proof {
            let o = split_all(self.env.exec_options.deep_view())->Some_0;
            let w = shell_split(cmd@)->Some_0;
            assert(args.deep_view() =~= seq!["exec"@] + o + seq![self.env.name@] + w);
        }
        Ok(args)
    }

    /// The arguments of the `k`th setup command.
    pub fn setup_args(&self, k: usize) -> (r: Result<Vec<String>, DockerError>)
        requires
            k < self.env.exec_cmds@.len(),
        ensures
            exec_args(self.env, self.env.exec_cmds@[k as int]@) matches Some(a) ==> (r matches Ok(v)
                && v.deep_view() == a),
            exec_args(self.env, self.env.exec_cmds@[k as int]@) is None ==> r is Err,
    {
        self.exec_args(&self.env.exec_cmds[k])
    }

    /// The arguments `enter_args` describes.
    pub fn enter_args(&self) -> (r: Result<Vec<String>, DockerError>)
        ensures
            enter_args(self.env) matches Some(a) ==> (r matches Ok(v) && v.deep_view() == a),
            enter_args(self.env) is None ==> r is Err,
    {
        let options = Self::to_shell(&self.env.entry_options)?;
        let words = split_one(&self.env.entry_cmd)?;
        let mut args: Vec<String> = Vec::new();
        push_word(&mut args, "exec");
        push_words(&mut args, options);
        push_word(&mut args, self.env.name.as_str());
        push_words(&mut args, words);
        proof {
            let o = split_all(self.env.entry_options.deep_view())->Some_0;
            let w = shell_split(self.env.entry_cmd@)->Some_0;
            assert(args.deep_view() =~= seq!["exec"@] + o + seq![self.env.name@] + w);
        }
        Ok(args)
    }

    /// The arguments `build_args` describes: none without a Dockerfile.
    pub fn build_args(&self) -> (r: Option<Vec<String>>)
        ensures
            build_args(self.env) matches Some(a) ==> (r matches Some(v) && v.deep_view() == a),
            build_args(self.env) is None ==> r is None,
    {
        match (&self.env.dockerfile, &self.env.build_context) {
            (Some(d), Some(c)) => {
                let mut args: Vec<String> = Vec::new();
                push_word(&mut args, "build");
                push_word(&mut args, "-t");
                push_word(&mut args, self.env.image.as_str());
                push_word(&mut args, "-f");
                push_word(&mut args, d.as_str());
                push_word(&mut args, c.as_str());
                proof {
                    assert(args.deep_view() =~= seq!["build"@, "-t"@, self.env.image@, "-f"@, d@, c@]);
                }
                Some(args)
            },
            _ => None,
        }
    }

    /// The arguments `sessions_args` describes.
    pub fn sessions_args(&self) -> (r: Vec<String>)
        ensures
            r.deep_view() == sessions_args(self.env),
    {
        let mut args: Vec<String> = Vec::new();
        push_word(&mut args, "exec");
        push_word(&mut args, self.env.name.as_str());
        push_word(&mut args, "ls");
        push_word(&mut args, "/dev/pts");
        proof {
            assert(args.deep_view() =~= sessions_args(self.env));
        }
        args
    }

    /// How a command is shown: `docker` and its quoted arguments.
    pub fn command_text(args: &Vec<String>) -> (r: String)
        ensures
            r@ == "docker "@ + shell_joined(args.deep_view()),
    {
        String::from_str("docker ").concat(join_words(args).as_str())
    }

    /// Whether someone is still attached: the listing of the container's
    /// pseudo-terminals has more lines than the two that are always there.
    pub fn is_anyone_connected(listing: &[u8]) -> (r: bool)
        ensures
            r == (line_count(listing@) > idle_terminals()),
    {
        count_lines(listing) > 2
    }

    /// Whether a container the runtime lists in the state `state` is running.
    pub fn is_container_running(state: &str) -> (r: bool)
        ensures
            r == (state@ == "running"@),
    {
        same_text(state, "running")
    }

    /// An image needs building only where a Dockerfile is declared and the
    /// runtime has no image of the resolved name.
    pub fn does_image_need_building(&self, matching_images: usize) -> (r: bool)
        ensures
            r == (self.env.dockerfile is Some && matching_images == 0),
    {
        self.env.dockerfile.is_some() && matching_images == 0
    }
}

proof fn lemma_split_all_none(l: Seq<Seq<char>>, n: int)
    requires
        0 < n <= l.len(),
        shell_split(l[n - 1]) is None,
    ensures
        split_all(l) is None,
    decreases l.len(),
{
    if n < l.len() {
        lemma_split_all_none(l.drop_last(), n);
    } else {
        assert(l.last() == l[n - 1]);
    }
}

/// What the exit of an entered session means: `125`, `126` and `127` are
/// failures of `docker exec` itself; `0`, `130` (an interrupt), any other
/// code and a signal all end the session normally.
pub open spec fn enter_failure(code: Option<i32>) -> Option<Seq<char>> {
    match code {
        Some(c) => if c == 125 {
            Some("Docker exec failed to run"@)
        } else if c == 126 {
            Some("Command cannot execute"@)
        } else if c == 127 {
            Some("Command not found"@)
        } else {
            None
        },
        None => None,
    }
}

/// The outcome of an entered session, as `enter_failure` classifies it.
pub fn enter_outcome(code: Option<i32>) -> (r: Result<(), DockerError>)
    ensures
        enter_failure(code) is None <==> r is Ok,
        enter_failure(code) matches Some(m) ==> (r matches Err(DockerError::EnteringContainer(s)) && s@ == m),
{
    match code {
        Some(c) => if c == 125 {
            Err(DockerError::EnteringContainer(String::from_str("Docker exec failed to run")))
        } else if c == 126 {
            Err(DockerError::EnteringContainer(String::from_str("Command cannot execute")))
        } else if c == 127 {
            Err(DockerError::EnteringContainer(String::from_str("Command not found")))
        } else {
            Ok(())
        },
        None => Ok(()),
    }
}

/// The outcome of a command that ran to its end: success on exit code `0`,
/// the command and its error output on another code, and the command alone
/// when a signal ended it.
pub fn command_outcome(cmd: String, code: Option<i32>, stderr: String) -> (r: Result<(), DockerError>)
    ensures
        code == Some(0i32) <==> r is Ok,
        code is None ==> (r matches Err(DockerError::CommandKilled(c)) && c@ == cmd@),
        code matches Some(c) && c != 0 ==> (r matches Err(DockerError::CommandExitCode { cmd: c, stderr: s })
            && c@ == cmd@ && s@ == stderr@),
{
    match code {
        None => Err(DockerError::CommandKilled(cmd)),
        Some(c) => if c == 0 {
            Ok(())
        } else {
            Err(DockerError::CommandExitCode { cmd, stderr })
        },
    }
}

/// There are no more newlines than bytes.
proof fn lemma_newlines_bound(b: Seq<u8>)
    ensures
        newlines(b) <= b.len(),
    decreases b.len(),
{
    if b.len() > 0 {
        lemma_newlines_bound(b.drop_last());
    }
}

/// The number of lines in an output, as `line_count` counts them.
pub fn count_lines(b: &[u8]) -> (r: usize)
    ensures
        r as nat == line_count(b@),
{
    let mut n: usize = 0;
    let mut i: usize = 0;
    proof {
        assert(b@.subrange(0, 0) =~= Seq::<u8>::empty());
    }
    while i < b.len()
        invariant
            0 <= i <= b@.len(),
            n as nat == newlines(b@.subrange(0, i as int)),
            n <= i,
        decreases b@.len() - i,
    {
        proof {
            assert(b@.subrange(0, i + 1).drop_last() =~= b@.subrange(0, i as int));
        }
        if b[i] == 10u8 {
            n = n + 1;
        }
        i = i + 1;
    }
    proof {
        assert(b@.subrange(0, b@.len() as int) =~= b@);
    }
    if b.len() > 0 && b[b.len() - 1] != 10u8 {
        proof {
            lemma_newlines_bound(b@.drop_last());
            assert(newlines(b@) == newlines(b@.drop_last()));
        }
        n + 1
    } else {
        n
    }
}

/// The pseudo-terminals that every container has, with no session attached.
pub open spec fn idle_terminals() -> nat {
    2
}

} // verus!
