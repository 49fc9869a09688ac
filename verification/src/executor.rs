//! The job executor's decision logic. Everything here is computed from plain
//! values: which submissions are rejected before any process is spawned, the
//! exact paths and working directory a spawned toolchain is given, and how an
//! exit code, the captured diagnostic text and the produced artifact become
//! the job's response. The spawning itself, the clock and the file reads
//! live outside the library and hand their results in as arguments.

use crate::bytes::{bytes_eq, copy_bytes, copy_range, push_all, replace_all, replace_seq};
use crate::text::{
    cairo_ext, cairo_ext_bytes, msg_bad_diagnostics, msg_bad_diagnostics_bytes,
    msg_ext_not_supported, msg_ext_not_supported_bytes, msg_path_not_found,
    msg_path_not_found_bytes, msg_spawn_failed, msg_spawn_failed_bytes, msg_toolchain_post,
    msg_toolchain_post_bytes, msg_toolchain_pre, msg_toolchain_pre_bytes, path_sep,
    path_sep_bytes, sierra_ext, sierra_ext_bytes,
};
use crate::types::{Command, CompileResponse, Status};
use vstd::prelude::*;

verus! {

/// The byte value of the extension separator, `'.'`.
pub open spec fn dot() -> u8 {
    46u8
}

/// The bytes after the last `'.'` of `p`; the whole of `p` when it holds no
/// `'.'`; empty when `p` ends in `'.'`.
pub open spec fn tail_after_dot(p: Seq<u8>) -> Seq<u8>
    decreases p.len(),
{
    if p.len() == 0 {
        Seq::empty()
    } else if p.last() == dot() {
        Seq::empty()
    } else {
        tail_after_dot(p.drop_last()) + seq![p.last()]
    }
}

/// The extension suffix is never longer than the path itself.
proof fn lemma_tail_after_dot_len(p: Seq<u8>)
    ensures
        tail_after_dot(p).len() <= p.len(),
    decreases p.len(),
{
    if p.len() > 0 && p.last() != dot() {
        lemma_tail_after_dot_len(p.drop_last());
    }
}

/// When `p[d]` is the last `'.'` of `p`, the extension is what follows it.
proof fn lemma_tail_after_dot_skip(p: Seq<u8>, d: int)
    requires
        0 <= d < p.len(),
        p[d] == dot(),
        forall|k: int| d < k < p.len() ==> p[k] != dot(),
    ensures
        tail_after_dot(p) == p.skip(d + 1),
    decreases p.len(),
{
    if d == p.len() - 1 {
        assert(tail_after_dot(p) =~= p.skip(d + 1));
    } else {
        assert(p.last() != dot());
        lemma_tail_after_dot_skip(p.drop_last(), d);
        assert(tail_after_dot(p) =~= p.skip(d + 1));
    }
}

/// When `p` holds no `'.'`, the extension is the whole of `p`.
proof fn lemma_tail_after_dot_whole(p: Seq<u8>)
    requires
        forall|k: int| 0 <= k < p.len() ==> p[k] != dot(),
    ensures
        tail_after_dot(p) == p,
    decreases p.len(),
{
    if p.len() == 0 {
        assert(tail_after_dot(p) =~= p);
    } else {
        lemma_tail_after_dot_whole(p.drop_last());
        assert(tail_after_dot(p) =~= p);
    }
}

/// The index where the extension of `p` starts: right after the last `'.'`,
/// or zero when `p` holds no `'.'`.
fn ext_boundary(p: &Vec<u8>) -> (i: usize)
    ensures
        i + tail_after_dot(p@).len() == p@.len(),
        p@.skip(i as int) == tail_after_dot(p@),
{
    let mut i: usize = p.len();
    while i > 0 && p[i - 1] != 46u8
        invariant
            i <= p@.len(),
            forall|k: int| i <= k < p@.len() ==> p@[k] != dot(),
        decreases i,
    {
        i = i - 1;
    }
    proof {
        if i == 0 {
            lemma_tail_after_dot_whole(p@);
            assert(p@.skip(0) =~= p@);
        } else {
            lemma_tail_after_dot_skip(p@, i - 1);
        }
    }
    i
}

/// The extension of the byte path `p`: the bytes after its last `'.'`.
pub fn file_ext(p: &Vec<u8>) -> (e: Vec<u8>)
    ensures
        e@ == tail_after_dot(p@),
{
    let i = ext_boundary(p);
    let e = copy_range(p, i, p.len());
    proof {
        assert(p@.subrange(i as int, p@.len() as int) =~= p@.skip(i as int));
    }
    e
}

/// `p` with its extension replaced by `e`: everything up to and including
/// the last `'.'` of `p`, then `e`.
pub open spec fn with_ext(p: Seq<u8>, e: Seq<u8>) -> Seq<u8> {
    p.take(p.len() - tail_after_dot(p).len()) + e
}

/// `p` with its extension replaced by `e`.
pub fn replace_extension(p: &Vec<u8>, e: &Vec<u8>) -> (v: Vec<u8>)
    ensures
        v@ == with_ext(p@, e@),
{
    let i = ext_boundary(p);
    let mut v = copy_range(p, 0, i);
    push_all(&mut v, e);
    proof {
        assert(p@.subrange(0, i as int) =~= p@.take(p@.len() - tail_after_dot(p@).len()));
    }
    v
}

/// `a` and `b` joined as path segments: `a`, the separator, then `b`.
pub open spec fn joined(a: Seq<u8>, b: Seq<u8>) -> Seq<u8> {
    a + path_sep() + b
}

/// Join two path segments with the separator.
pub fn join_path(a: &Vec<u8>, b: &Vec<u8>) -> (v: Vec<u8>)
    ensures
        v@ == joined(a@, b@),
{
    let mut v = copy_bytes(a);
    let s = path_sep_bytes();
    push_all(&mut v, &s);
    push_all(&mut v, b);
    v
}

/// Where the engine's collaborators live on disk: the directory that holds
/// one subdirectory per toolchain version, the root the produced artifacts
/// are written under, and the root the submitted source files live under.
/// Constructed once by the process entry point and passed in, never a
/// hidden global.
pub struct Config {
    pub compilers_dir: Vec<u8>,
    pub sierra_root: Vec<u8>,
    pub files_root: Vec<u8>,
}

/// Everything a worker needs to run one toolchain process: the directory to
/// run it in, the absolute input and output paths handed to it, and the
/// caller-relative forms of both, kept so that diagnostic text can be
/// rewritten before it leaves the server.
pub struct SpawnSpec {
    pub work_dir: Vec<u8>,
    pub input_abs: Vec<u8>,
    pub input_rel: Vec<u8>,
    pub output_abs: Vec<u8>,
    pub output_rel: Vec<u8>,
    pub version: Vec<u8>,
}

/// The executor's decision on one command: answer at once without starting
/// any process, or start exactly one toolchain process as described.
pub enum Plan {
    Reject(CompileResponse),
    Spawn(SpawnSpec),
}

/// Build a command from the raw submission values. A path that could not be
/// read as text arrives as `None` and is rejected at once as `FileNotFound`,
/// before any work is scheduled.
pub fn command_from_raw(version: Vec<u8>, path: Option<Vec<u8>>) -> (r: Result<
    Command,
    CompileResponse,
>)
    ensures
        path is Some ==> (r matches Ok(c) && c matches Command::SierraCompile {
            version: v,
            path: p,
        } && v@ == version@ && p@ == path->0@),
        path is None ==> (r matches Err(resp) && resp.status == Status::FileNotFound
            && resp.message@ == msg_path_not_found() && resp.file_content@ == Seq::<u8>::empty()
            && resp.cairo_version@ == version@),
{
    match path {
        Some(p) => Ok(Command::SierraCompile { version, path: p }),
        None => Err(
            CompileResponse {
                status: Status::FileNotFound,
                file_content: Vec::new(),
                message: msg_path_not_found_bytes(),
                cairo_version: version,
            },
        ),
    }
}

/// The message of a rejected submission whose toolchain version is absent.
pub open spec fn toolchain_missing_msg(version: Seq<u8>) -> Seq<u8> {
    msg_toolchain_pre() + version + msg_toolchain_post()
}

/// Decide what to do with one command. `toolchain_exists` says whether the
/// version's toolchain directory is present on disk; the caller checks that
/// before asking, and a rejection here means no process is ever spawned for
/// the command. The decision, in order:
/// - a path whose extension is not the accepted source extension is rejected
///   as `FileExtensionNotSupported`;
/// - a version without a toolchain context is rejected as
///   `ToolchainNotFound`, carrying the version in its message;
/// - otherwise the command is mapped to the one process invocation that
///   compiles it: run in the version's toolchain directory, reading the
///   submitted file under the files root and writing the artifact under the
///   artifact root at the submitted path with its extension replaced.
pub fn plan_compile(cmd: &Command, toolchain_exists: bool, cfg: &Config) -> (plan: Plan)
    ensures
        cmd matches Command::SierraCompile { version, path } ==> {
            &&& tail_after_dot(path@) != cairo_ext() ==> (plan matches Plan::Reject(resp)
                && resp.status == Status::FileExtensionNotSupported && resp.message@
                == msg_ext_not_supported() && resp.file_content@ == Seq::<u8>::empty()
                && resp.cairo_version@ == version@)
            &&& (tail_after_dot(path@) == cairo_ext() && !toolchain_exists) ==> (
            plan matches Plan::Reject(resp) && resp.status == Status::ToolchainNotFound
                && resp.message@ == toolchain_missing_msg(version@) && resp.file_content@
                == Seq::<u8>::empty() && resp.cairo_version@ == version@)
            &&& (tail_after_dot(path@) == cairo_ext() && toolchain_exists) ==> (
            plan matches Plan::Spawn(s) && s.work_dir@ == joined(cfg.compilers_dir@, version@)
                && s.input_abs@ == joined(cfg.files_root@, path@) && s.input_rel@ == path@
                && s.output_rel@ == with_ext(path@, sierra_ext()) && s.output_abs@ == joined(
                cfg.sierra_root@,
                with_ext(path@, sierra_ext()),
            ) && s.version@ == version@)
        },
{
    match cmd {
        Command::SierraCompile { version, path } => {
            let ext = file_ext(path);
            let cairo = cairo_ext_bytes();
            if !bytes_eq(&ext, &cairo) {
                return Plan::Reject(
                    CompileResponse {
                        status: Status::FileExtensionNotSupported,
                        file_content: Vec::new(),
                        message: msg_ext_not_supported_bytes(),
                        cairo_version: copy_bytes(version),
                    },
                );
            }
            if !toolchain_exists {
                let mut m = msg_toolchain_pre_bytes();
                push_all(&mut m, version);
                let post = msg_toolchain_post_bytes();
                push_all(&mut m, &post);
                return Plan::Reject(
                    CompileResponse {
                        status: Status::ToolchainNotFound,
                        file_content: Vec::new(),
                        message: m,
                        cairo_version: copy_bytes(version),
                    },
                );
            }
            let sierra = sierra_ext_bytes();
            let output_rel = replace_extension(path, &sierra);
            Plan::Spawn(
                SpawnSpec {
                    work_dir: join_path(&cfg.compilers_dir, version),
                    input_abs: join_path(&cfg.files_root, path),
                    input_rel: copy_bytes(path),
                    output_abs: join_path(&cfg.sierra_root, &output_rel),
                    output_rel,
                    version: copy_bytes(version),
                },
            )
        },
    }
}

/// The status a finished process maps to: exit code zero is success, any
/// other exit code is a failed compile, and an exit without a code (the
/// process was terminated) is the unknown error.
pub open spec fn status_of_exit(exit_code: Option<i32>) -> Status {
    match exit_code {
        Some(0) => Status::Success,
        Some(_) => Status::CompilationFailed,
        None => Status::UnknownError,
    }
}

/// The diagnostic text a response carries: the captured standard-error text
/// with every occurrence of the server's absolute input and output paths
/// rewritten to their caller-relative forms, or a fixed note when the
/// captured text was not valid UTF-8.
pub open spec fn rewritten_message(s: SpawnSpec, stderr: Option<Seq<u8>>) -> Seq<u8> {
    match stderr {
        Some(e) => replace_seq(
            replace_seq(e, s.input_abs@, s.input_rel@),
            s.output_abs@,
            s.output_rel@,
        ),
        None => msg_bad_diagnostics(),
    }
}

/// Diagnostic text in which neither server-internal path occurs passes
/// through the rewriting untouched: the rewrite only ever removes
/// server-internal paths, it never invents changes to clean diagnostics.
pub proof fn lemma_clean_diagnostics_pass_through(s: SpawnSpec, e: Seq<u8>)
    requires
        !crate::bytes::occurs(e, s.input_abs@),
        !crate::bytes::occurs(e, s.output_abs@),
    ensures
        rewritten_message(s, Some(e)) == e,
{
    crate::bytes::lemma_replace_absent(e, s.input_abs@, s.input_rel@);
    crate::bytes::lemma_replace_absent(e, s.output_abs@, s.output_rel@);
}

/// Fold what one finished toolchain process produced into the job's
/// response. `exit_code` is the process's exit code (`None` when it was
/// terminated without one), `stderr` its captured diagnostic text (`None`
/// when that text was not valid UTF-8), and `artifact` the produced output
/// file's content (`None` when no artifact could be read back; that is an
/// empty result, not a fault). Diagnostics are data: a non-zero exit still
/// returns the compiler's text, rewritten so no server-internal path leaks.
pub fn interpret_outcome(
    s: &SpawnSpec,
    exit_code: Option<i32>,
    stderr: Option<Vec<u8>>,
    artifact: Option<Vec<u8>>,
) -> (resp: CompileResponse)
    ensures
        resp.status == status_of_exit(exit_code),
        resp.message@ == rewritten_message(*s, match stderr {
            Some(e) => Some(e@),
            None => None,
        }),
        resp.file_content@ == match artifact {
            Some(a) => a@,
            None => Seq::<u8>::empty(),
        },
        resp.cairo_version@ == s.version@,
{
    let status = match exit_code {
        Some(0) => Status::Success,
        Some(_) => Status::CompilationFailed,
        None => Status::UnknownError,
    };
    let message = match stderr {
        Some(e) => {
            let once = replace_all(&e, &s.input_abs, &s.input_rel);
            replace_all(&once, &s.output_abs, &s.output_rel)
        },
        None => msg_bad_diagnostics_bytes(),
    };
    let file_content = match artifact {
        Some(a) => a,
        None => Vec::new(),
    };
    CompileResponse { status, file_content, message, cairo_version: copy_bytes(&s.version) }
}

/// The response of a job whose toolchain process could not be started at
/// all: a distinct status, the fixed message head followed by the
/// spawn error's text, and no artifact. The process never ran, so nothing
/// is read back.
pub fn spawn_failure_response(version: &Vec<u8>, detail: &Vec<u8>) -> (resp: CompileResponse)
    ensures
        resp.status == Status::SpawnFailed,
        resp.message@ == msg_spawn_failed() + detail@,
        resp.file_content@ == Seq::<u8>::empty(),
        resp.cairo_version@ == version@,
{
    let mut m = msg_spawn_failed_bytes();
    push_all(&mut m, detail);
    CompileResponse {
        status: Status::SpawnFailed,
        file_content: Vec::new(),
        message: m,
        cairo_version: copy_bytes(version),
    }
}

} // verus!
