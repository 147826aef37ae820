//! Running a command in a sandbox. In each sandbox one command runs at a time.

use crate::cli::worker_manager::boot_args::{glue, glued};
use crate::ids::{parse_uuid, uuid_hyphenated, uuid_parsed};
use crate::sandbox_daemon::errors::{fails, SandboxError, SandboxErrorCode};
use crate::sandbox_daemon::registry::{exec_begun, exec_ended, SandboxRegistry};
use crate::str_map::{lemma_listing, listing, StrMap};
use crate::text::{
    ascii_alphanumeric, chars_of, concat, concat3, debug_list, debug_listed, debug_quoted,
    debug_text, has_whitespace, is_space, join_with, pair_texts, texts,
};
use vstd::prelude::*;

verus! {

/// Environment variables, as callers give them.
#[derive(Debug)]
pub enum EnvShape {
    /// `["FOO=bar", "PATH=/usr/bin"]`
    Vec(Vec<String>),
    /// `{ "FOO": "bar", "PATH": "/usr/bin" }`
    Keyed(StrMap),
}

impl Default for EnvShape {
    fn default() -> (r: EnvShape)
        ensures
            r is Vec,
            r->Vec_0@ == Seq::<String>::empty(),
    {
        EnvShape::Vec(Vec::new())
    }
}

impl Clone for EnvShape {
    fn clone(&self) -> (r: EnvShape)
        ensures
            r.kv_spec() == self.kv_spec(),
            r is Vec == self is Vec,
    {
        match self {
            EnvShape::Vec(v) => {
                let w = v.clone();
                assert(texts(w@) == texts(v@));
                EnvShape::Vec(w)
            },
            EnvShape::Keyed(m) => EnvShape::Keyed(m.clone()),
        }
    }
}

/// A character that may stand in a variable's name, other than a digit first.
pub open spec fn env_name_char(c: char) -> bool {
    ascii_alphanumeric(c) || c == '_'
}

/// `name` matches `[A-Za-z_][A-Za-z0-9_]*`.
pub open spec fn valid_env_name(name: Seq<char>) -> bool {
    &&& name.len() > 0
    &&& !('0' <= name[0] <= '9')
    &&& forall|i: int| 0 <= i < name.len() ==> env_name_char(#[trigger] name[i])
}

/// Whether `name` matches `[A-Za-z_][A-Za-z0-9_]*`.
pub fn is_valid_env_name(name: &str) -> (r: bool)
    ensures
        r == valid_env_name(name@),
{
    let v = chars_of(name);
    if v.len() == 0 || ('0' <= v[0] && v[0] <= '9') {
        return false;
    }
    let mut i: usize = 0;
    while i < v.len()
        invariant
            i <= v@.len(),
            v@ == name@,
            forall|j: int| 0 <= j < i ==> env_name_char(#[trigger] name@[j]),
        decreases v@.len() - i,
    {
        let c = v[i];
        let ok = ('a' <= c && c <= 'z') || ('A' <= c && c <= 'Z') || ('0' <= c && c <= '9') || c
            == '_';
        if !ok {
            assert(!env_name_char(name@[i as int]));
            return false;
        }
        i += 1;
    }
    true
}

/// The keys of `pairs` that are no variable names.
pub open spec fn bad_names(pairs: Seq<(Seq<char>, Seq<char>)>) -> Seq<Seq<char>>
    decreases pairs.len(),
{
    if pairs.len() == 0 {
        Seq::empty()
    } else if valid_env_name(pairs.last().0) {
        bad_names(pairs.drop_last())
    } else {
        bad_names(pairs.drop_last()).push(pairs.last().0)
    }
}

/// The message for keys that are no variable names.
pub open spec fn bad_names_message(bad: Seq<Seq<char>>) -> Seq<char> {
    "env contains invalid variable name(s): "@ + debug_listed(bad)
        + ". Names must match `[A-Za-z_][A-Za-z0-9_]*`."@
}

impl EnvShape {
    /// The variables as `KEY=VALUE` entries, a map's in key order; the
    /// complaint where a map's key is no variable name.
    pub open spec fn kv_spec(self) -> Result<Seq<Seq<char>>, Seq<char>> {
        match self {
            EnvShape::Vec(v) => Ok(texts(v@)),
            EnvShape::Keyed(m) => {
                let pairs = listing(m@);
                if bad_names(pairs).len() == 0 {
                    Ok(glued(pairs, "="@))
                } else {
                    Err(bad_names_message(bad_names(pairs)))
                }
            },
        }
    }

    /// The variables as `KEY=VALUE` entries. A list is taken as it is; a map's
    /// keys must be variable names.
    pub fn into_kv_vec(self) -> (r: Result<Vec<String>, SandboxError>)
        ensures
            match r {
                Ok(v) => self.kv_spec() == Ok::<Seq<Seq<char>>, Seq<char>>(texts(v@)),
                Err(_) => self.kv_spec() is Err && fails(
                    r,
                    SandboxErrorCode::S001,
                    self.kv_spec()->Err_0,
                ),
            },
    {
        match self {
            EnvShape::Vec(v) => Ok(v),
            EnvShape::Keyed(m) => {
                let entries = m.entries();
                let ghost pairs = pair_texts(entries@);
                proof {
                    lemma_listing(pairs, m@);
                }
                let mut bad: Vec<String> = Vec::new();
                let mut i: usize = 0;
                assert(pairs.take(0) == Seq::<(Seq<char>, Seq<char>)>::empty());
                assert(texts(bad@) == Seq::<Seq<char>>::empty());
                while i < entries.len()
                    invariant
                        i <= entries@.len(),
                        pairs == pair_texts(entries@),
                        texts(bad@) == bad_names(pairs.take(i as int)),
                    decreases entries@.len() - i,
                {
                    assert(pairs.take(i + 1).drop_last() == pairs.take(i as int));
                    let ghost before = texts(bad@);
                    if !is_valid_env_name(entries[i].0.as_str()) {
                        bad.push(entries[i].0.clone());
                        assert(texts(bad@) == before.push(entries@[i as int].0@));
                    }
                    i += 1;
                }
                assert(pairs.take(i as int) == pairs);
                assert(texts(bad@).len() == bad@.len());
                if bad.len() > 0 {
                    return Err(
                        SandboxError::InvalidRequest(
                            concat3(
                                "env contains invalid variable name(s): ",
                                debug_list(bad.as_slice()).as_str(),
                                ". Names must match `[A-Za-z_][A-Za-z0-9_]*`.",
                            ),
                        ),
                    );
                }
                Ok(glue(entries.as_slice(), "="))
            },
        }
    }
}

/// A command to run in a sandbox.
#[derive(Debug)]
pub struct ExecRequest {
    pub sandbox_id: String,
    /// The program, or a line of a program and its arguments.
    pub cmd: String,
    /// The arguments of `cmd`.
    pub args: Vec<String>,
    /// The program and its arguments in one list.
    pub argv: Vec<String>,
    /// The program's input in Base64.
    pub stdin: Option<String>,
    pub env: EnvShape,
    /// How long the command may run.
    pub timeout_ms: Option<u64>,
    /// The directory that the command runs in.
    pub workdir: Option<String>,
}

/// What a command came to.
#[derive(Debug, Clone, PartialEq, Eq)]
pub struct ExecResponse {
    pub stdout: String,
    pub stderr: String,
    pub exit_code: Option<i32>,
    pub timed_out: bool,
    pub duration_ms: u64,
    pub success: bool,
}

/// What runs a command in the sandbox behind a shell socket.
pub trait ShellRunner {
    fn run(&self, shell_sock: String, req: &ExecRequest) -> Result<ExecResponse, SandboxError>;
}

/// The words of a command line, as `shlex::split` finds them; `None` where a
/// quote or an escape is left open.
pub uninterp spec fn shlex_words(line: Seq<char>) -> Option<Seq<Seq<char>>>;

/// A word that means itself on a command line: it holds no separator, quote or
/// escape, and does not begin a comment.
pub open spec fn plain_word(w: Seq<char>) -> bool {
    &&& w.len() > 0
    &&& w[0] != '#'
    &&& forall|i: int|
        0 <= i < w.len() ==> {
            let c = #[trigger] w[i];
            c != ' ' && c != '\t' && c != '\n' && c != '"' && c != '\'' && c != '\\'
        }
}

/// Every one of `words` means itself on a command line.
pub open spec fn plain_words(words: Seq<Seq<char>>) -> bool {
    forall|i: int| 0 <= i < words.len() ==> plain_word(#[trigger] words[i])
}

/// `shlex::split`: the words, or that there are none to find, depend on the
/// line alone, and a line of plain words with a space between neighbours is
/// split into them.
#[verifier::external_body]
pub(crate) fn split_words(line: &str) -> (r: Option<Vec<String>>)
    ensures
        match r {
            Some(words) => shlex_words(line@) == Some(texts(words@)),
            None => shlex_words(line@) is None,
        },
        forall|words: Seq<Seq<char>>|
            plain_words(words) && line@ == #[trigger] join_with(words, " "@) ==> r is Some
                && texts(r->0@) == words,
{
    shlex::split(line)
}

/// A program and its arguments, or the complaint about a request for one.
pub type CmdShape = Result<(Seq<char>, Seq<Seq<char>>), Seq<char>>;

/// The program and its arguments in a command line with these words.
pub open spec fn split_shape(cmd: Seq<char>, words: Option<Seq<Seq<char>>>) -> CmdShape {
    match words {
        None => Err(
            "cmd has unbalanced quotes and cannot be shlex-split: "@ + debug_quoted(cmd)
                + ". Use `argv: [...]` for argv arrays with embedded quotes."@,
        ),
        Some(w) => if w.len() == 0 {
            Err("cmd is empty after shlex split: "@ + debug_quoted(cmd))
        } else {
            Ok((w[0], w.skip(1)))
        },
    }
}

/// `s` holds whitespace.
pub open spec fn spaced(s: Seq<char>) -> bool {
    exists|i: int| 0 <= i < s.len() && is_space(#[trigger] s[i])
}

/// The program and its arguments that a request asks for: a non-empty `argv`,
/// which stands alone; or a `cmd` with whitespace, which stands alone and is
/// split into words; or `cmd` and `args` as they are.
pub open spec fn cmd_shape(
    cmd: Seq<char>,
    args: Seq<Seq<char>>,
    argv: Seq<Seq<char>>,
) -> CmdShape {
    if argv.len() > 0 {
        if cmd.len() > 0 || args.len() > 0 {
            Err(
                "`argv` cannot be combined with `cmd` or `args`. Pick one shape. Got argv="@
                    + debug_listed(argv) + ", cmd="@ + debug_quoted(cmd) + ", args="@
                    + debug_listed(args),
            )
        } else {
            Ok((argv[0], argv.skip(1)))
        }
    } else if spaced(cmd) {
        if args.len() > 0 {
            Err(
                "cmd contains whitespace (shell-line shape) AND `args` is set; that is ambiguous. Either remove whitespace from cmd and pass arguments via `args`, or leave `args` empty so cmd is shlex-split. Got cmd="@
                    + debug_quoted(cmd) + ", args="@ + debug_listed(args),
            )
        } else {
            split_shape(cmd, shlex_words(cmd))
        }
    } else {
        Ok((cmd, args))
    }
}

/// `r` is what `shape` says, with a complaint as a malformed request.
pub open spec fn gives_shape(
    r: Result<(String, Vec<String>), SandboxError>,
    shape: CmdShape,
) -> bool {
    match r {
        Ok(p) => shape == Ok::<(Seq<char>, Seq<Seq<char>>), Seq<char>>((p.0@, texts(p.1@))),
        Err(_) => shape is Err && fails(r, SandboxErrorCode::S001, shape->Err_0),
    }
}

/// The first of `words`, and the rest.
fn head_and_tail(words: &[String]) -> (r: (String, Vec<String>))
    requires
        words@.len() > 0,
    ensures
        r.0@ == texts(words@)[0],
        texts(r.1@) == texts(words@).skip(1),
{
    let mut rest: Vec<String> = Vec::new();
    let mut i: usize = 1;
    while i < words.len()
        invariant
            1 <= i <= words@.len(),
            rest@.len() == i - 1,
            forall|j: int| 0 <= j < i - 1 ==> (#[trigger] rest@[j])@ == words@[j + 1]@,
        decreases words@.len() - i,
    {
        rest.push(words[i].clone());
        i += 1;
    }
    assert(texts(rest@) == texts(words@).skip(1));
    (words[0].clone(), rest)
}

/// The program and its arguments in a command line whose words were found.
pub fn resolve_split(cmd: &str, words: Option<Vec<String>>) -> (r: Result<
    (String, Vec<String>),
    SandboxError,
>)
    ensures
        gives_shape(
            r,
            split_shape(
                cmd@,
                match words {
                    Some(w) => Some(texts(w@)),
                    None => None,
                },
            ),
        ),
{
    match words {
        None => Err(
            SandboxError::InvalidRequest(
                concat3(
                    "cmd has unbalanced quotes and cannot be shlex-split: ",
                    debug_text(cmd).as_str(),
                    ". Use `argv: [...]` for argv arrays with embedded quotes.",
                ),
            ),
        ),
        Some(w) => {
            assert(texts(w@).len() == w@.len());
            if w.len() == 0 {
                Err(
                    SandboxError::InvalidRequest(
                        concat("cmd is empty after shlex split: ", debug_text(cmd).as_str()),
                    ),
                )
            } else {
                Ok(head_and_tail(w.as_slice()))
            }
        },
    }
}

proof fn lemma_joined_words_are_spaced(words: Seq<Seq<char>>)
    requires
        words.len() > 1,
    ensures
        spaced(join_with(words, " "@)),
{
    reveal_strlit(" ");
    let head = join_with(words.drop_last(), " "@);
    let line = join_with(words, " "@);
    assert(line == head + " "@ + words.last());
    assert(line[head.len() as int] == ' ');
    assert(is_space(line[head.len() as int]));
}

/// The program and its arguments that a request asks for. A line of plain words
/// asks for the same as the list of them.
pub fn resolve_cmd_shape(cmd: &str, args: &[String], argv: &[String]) -> (r: Result<
    (String, Vec<String>),
    SandboxError,
>)
    ensures
        gives_shape(r, cmd_shape(cmd@, texts(args@), texts(argv@))),
        forall|words: Seq<Seq<char>>|
            words.len() > 0 && plain_words(words) && args@.len() == 0 && argv@.len() == 0 && cmd@
                == #[trigger] join_with(words, " "@) ==> gives_shape(
                r,
                cmd_shape(Seq::empty(), Seq::empty(), words),
            ),
{
    assert(texts(args@).len() == args@.len());
    assert(texts(argv@).len() == argv@.len());
    if argv.len() > 0 {
        if !cmd.is_empty() || args.len() > 0 {
            let mut m = concat3(
                "`argv` cannot be combined with `cmd` or `args`. Pick one shape. Got argv=",
                debug_list(argv).as_str(),
                ", cmd=",
            );
            m.append(debug_text(cmd).as_str());
            m.append(", args=");
            m.append(debug_list(args).as_str());
            return Err(SandboxError::InvalidRequest(m));
        }
        return Ok(head_and_tail(argv));
    }
    if has_whitespace(cmd) {
        if args.len() > 0 {
            let mut m = concat3(
                "cmd contains whitespace (shell-line shape) AND `args` is set; that is ambiguous. Either remove whitespace from cmd and pass arguments via `args`, or leave `args` empty so cmd is shlex-split. Got cmd=",
                debug_text(cmd).as_str(),
                ", args=",
            );
            m.append(debug_list(args).as_str());
            return Err(SandboxError::InvalidRequest(m));
        }
        return resolve_split(cmd, split_words(cmd));
    }
    let mut all: Vec<String> = Vec::new();
    let mut i: usize = 0;
    while i < args.len()
        invariant
            i <= args@.len(),
            all@.len() == i,
            forall|j: int| 0 <= j < i ==> (#[trigger] all@[j])@ == args@[j]@,
        decreases args@.len() - i,
    {
        all.push(args[i].clone());
        i += 1;
    }
    assert(texts(all@) == texts(args@));
    assert forall|words: Seq<Seq<char>>|
        words.len() > 0 && args@.len() == 0 && cmd@ == #[trigger] join_with(
            words,
            " "@,
        ) implies words[0] == cmd@ && words.skip(1) == texts(args@) by {
        if words.len() > 1 {
            lemma_joined_words_are_spaced(words);
        }
        assert(words.skip(1) == texts(args@));
    }
    Ok((cmd.to_owned(), all))
}

/// The message for an id that is no UUID.
pub open spec fn bad_id_message(sandbox_id: Seq<char>) -> Seq<char> {
    "sandbox_id is not a valid UUID: "@ + sandbox_id
}

/// The sandbox id that `s` names.
pub fn parse_sandbox_id(s: &str) -> (r: Result<u128, SandboxError>)
    ensures
        match r {
            Ok(id) => uuid_parsed(s@) == Some(id),
            Err(_) => uuid_parsed(s@) is None && fails(
                r,
                SandboxErrorCode::S001,
                bad_id_message(s@),
            ),
        },
{
    match parse_uuid(s) {
        Some(id) => Ok(id),
        None => Err(SandboxError::InvalidRequest(concat("sandbox_id is not a valid UUID: ", s))),
    }
}

/// What is wrong with a request, if anything: its id, then its command, then
/// its variables.
pub open spec fn exec_complaint(req: ExecRequest) -> Option<Seq<char>> {
    if uuid_parsed(req.sandbox_id@) is None {
        Some(bad_id_message(req.sandbox_id@))
    } else {
        match cmd_shape(req.cmd@, texts(req.args@), texts(req.argv@)) {
            Err(m) => Some(m),
            Ok(p) => if p.0.len() == 0 {
                Some(
                    "cmd is required and must be non-empty (or pass `argv` with at least one element)"@,
                )
            } else {
                match req.env.kv_spec() {
                    Err(m) => Some(m),
                    Ok(_) => None,
                }
            },
        }
    }
}

/// `n` is `req` in the one shape that runners take: the program and its
/// arguments apart, the variables as a list.
pub open spec fn normalised(n: ExecRequest, req: ExecRequest) -> bool {
    &&& n.sandbox_id == req.sandbox_id
    &&& cmd_shape(req.cmd@, texts(req.args@), texts(req.argv@)) == Ok::<
        (Seq<char>, Seq<Seq<char>>),
        Seq<char>,
    >((n.cmd@, texts(n.args@)))
    &&& n.argv@ == Seq::<String>::empty()
    &&& n.stdin == req.stdin
    &&& n.env is Vec
    &&& req.env.kv_spec() == Ok::<Seq<Seq<char>>, Seq<char>>(texts(n.env->Vec_0@))
    &&& n.timeout_ms == req.timeout_ms
    &&& n.workdir == req.workdir
}

/// Check a request and bring it into the shape that runners take. Returns the
/// sandbox's id with it.
pub fn prepare_exec(req: ExecRequest) -> (r: Result<(u128, ExecRequest), SandboxError>)
    ensures
        match r {
            Ok(p) => {
                &&& exec_complaint(req) is None
                &&& uuid_parsed(req.sandbox_id@) == Some(p.0)
                &&& normalised(p.1, req)
            },
            Err(_) => exec_complaint(req) is Some && fails(
                r,
                SandboxErrorCode::S001,
                exec_complaint(req)->0,
            ),
        },
{
    let id = match parse_sandbox_id(req.sandbox_id.as_str()) {
        Ok(id) => id,
        Err(e) => return Err(e),
    };
    let (cmd, args) = match resolve_cmd_shape(
        req.cmd.as_str(),
        req.args.as_slice(),
        req.argv.as_slice(),
    ) {
        Ok(p) => p,
        Err(e) => return Err(e),
    };
    if cmd.as_str().is_empty() {
        return Err(
            SandboxError::InvalidRequest(
                "cmd is required and must be non-empty (or pass `argv` with at least one element)".to_owned(),
            ),
        );
    }
    let env = match req.env.into_kv_vec() {
        Ok(v) => v,
        Err(e) => return Err(e),
    };
    Ok(
        (
            id,
            ExecRequest {
                sandbox_id: req.sandbox_id,
                cmd,
                args,
                argv: Vec::new(),
                stdin: req.stdin,
                env: EnvShape::Vec(env),
                timeout_ms: req.timeout_ms,
                workdir: req.workdir,
            },
        ),
    )
}

/// Run a command in a sandbox. A request that is malformed, or whose sandbox
/// is missing, stopped or busy, changes nothing. Otherwise the runner gets the
/// sandbox's socket and the request in its one shape, what it returns is
/// returned, and the sandbox is free again whatever that is.
pub fn handle_exec<R: ShellRunner>(
    req: ExecRequest,
    registry: &mut SandboxRegistry,
    runner: &R,
    now: u64,
) -> (r: Result<ExecResponse, SandboxError>)
    ensures
        match exec_complaint(req) {
            Some(m) => fails(r, SandboxErrorCode::S001, m) && final(registry)@ == old(registry)@,
            None => {
                let id = uuid_parsed(req.sandbox_id@)->0;
                if !old(registry)@.contains_key(id) {
                    &&& fails(r, SandboxErrorCode::S002, uuid_hyphenated(id))
                    &&& final(registry)@ == old(registry)@
                } else if old(registry)@[id].stopped {
                    &&& fails(r, SandboxErrorCode::S004, uuid_hyphenated(id))
                    &&& final(registry)@ == old(registry)@
                } else if old(registry)@[id].exec_in_progress {
                    &&& fails(r, SandboxErrorCode::S003, uuid_hyphenated(id))
                    &&& final(registry)@ == old(registry)@
                } else {
                    &&& final(registry)@ == old(registry)@.insert(
                        id,
                        exec_ended(exec_begun(old(registry)@[id], now)),
                    )
                    &&& exists|n: ExecRequest| #[trigger]
                        normalised(n, req) && call_ensures(
                            R::run,
                            (runner, old(registry)@[id].shell_sock, &n),
                            r,
                        )
                }
            },
        },
{
    let (id, n) = match prepare_exec(req) {
        Ok(p) => p,
        Err(e) => return Err(e),
    };
    let state = match registry.begin_exec(id, now) {
        Ok(s) => s,
        Err(e) => return Err(e),
    };
    let result = runner.run(state.shell_sock, &n);
    registry.end_exec(id);
    assert(normalised(n, req));
    result
}

/// A program without whitespace in its name and its arguments ask for the same,
/// whether they come apart or in one list.
pub proof fn shapes_agree(cmd: Seq<char>, args: Seq<Seq<char>>)
    requires
        !spaced(cmd),
    ensures
        cmd_shape(cmd, args, Seq::empty()) == cmd_shape(
            Seq::empty(),
            Seq::empty(),
            seq![cmd] + args,
        ),
{
    assert((seq![cmd] + args).skip(1) == args);
}

/// Variables given as a map come in one order, however the map was filled.
pub proof fn map_order_is_fixed(a: StrMap, b: StrMap)
    requires
        a@ == b@,
    ensures
        EnvShape::Keyed(a).kv_spec() == EnvShape::Keyed(b).kv_spec(),
{
}

/// A request in the shape that runners take carries the caller's variables as a
/// list, so that no runner finds fault with them.
pub proof fn normalised_env_is_sound(n: ExecRequest, req: ExecRequest)
    requires
        normalised(n, req),
    ensures
        n.env.kv_spec() is Ok,
        n.env.kv_spec() == req.env.kv_spec(),
{
}

} // verus!
