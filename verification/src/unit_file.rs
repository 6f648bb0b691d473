//! Unit Definition Synthesizer: builds the declarative unit-file text for a
//! service from its descriptor. Pure and deterministic; the caller writes
//! the result to disk.
use crate::text::{push_char, spec_starts_with, spec_tokens, split_whitespace_tokens, str_eq};
use crate::ServiceError;
use vstd::prelude::*;
use vstd::string::*;

verus! {

broadcast use vstd::string::group_string_axioms;

/// Whether the manager restarts the service when it exits.
#[derive(Debug, Clone, Copy, PartialEq, Eq)]
pub enum RestartPolicy {
    Never,
    Always,
}

/// Identity and launch configuration of one managed service. The
/// `exec_start` line and the environment tokens are already resolved to
/// plain text; `user` is the unprivileged invoking identity the service
/// process runs as.
#[derive(Debug, Clone)]
pub struct ServiceDescriptor {
    pub short_name: String,
    pub user: String,
    pub working_directory: String,
    pub exec_start: String,
    pub restart_policy: RestartPolicy,
    pub env_vars: Vec<String>,
}

/// The executable line: the interpreter path when one is used, the file
/// name, then each argument, separated by single spaces.
pub open spec fn spec_exec_base(interpreter: Option<Seq<char>>, file_name: Seq<char>) -> Seq<
    char,
> {
    match interpreter {
        Some(p) => p + seq![' '] + file_name,
        None => file_name,
    }
}

/// `base` followed by each argument, space-separated.
pub open spec fn spec_with_args(base: Seq<char>, args: Seq<Seq<char>>) -> Seq<char>
    decreases args.len(),
{
    if args.len() == 0 {
        base
    } else {
        spec_with_args(base, args.drop_last()) + seq![' '] + args.last()
    }
}

/// The whole `ExecStart` value of a descriptor.
pub open spec fn spec_exec_start(
    interpreter: Option<Seq<char>>,
    file_name: Seq<char>,
    args: Seq<Seq<char>>,
) -> Seq<char> {
    spec_with_args(spec_exec_base(interpreter, file_name), args)
}

/// Builds the `ExecStart` value from the resolved interpreter path, the
/// file name and the arguments passed through to the file.
pub fn build_exec_start(interpreter_path: Option<&str>, file_name: &str, args: &Vec<String>) -> (r:
    String)
    ensures
        r@ == spec_exec_start(
            match interpreter_path {
                Some(p) => Some(p@),
                None => None,
            },
            file_name@,
            args.deep_view(),
        ),
{
    let mut out: String = match interpreter_path {
        Some(p) => {
            let mut s = String::from_str(p);
            push_char(&mut s, ' ');
            s.append(file_name);
            proof {
                assert(s@ =~= p@ + seq![' '] + file_name@);
            }
            s
        },
        None => String::from_str(file_name),
    };
    let ghost base = out@;
    let mut i: usize = 0;
    proof {
        assert(args.deep_view().take(0) =~= Seq::<Seq<char>>::empty());
    }
    while i < args.len()
        invariant
            i <= args.len(),
            args.deep_view().len() == args.len(),
            out@ == spec_with_args(base, args.deep_view().take(i as int)),
        decreases args.len() - i,
    {
        let ghost before = out@;
        push_char(&mut out, ' ');
        out.append(args[i].as_str());
        proof {
            assert(args.deep_view().take(i + 1).drop_last() =~= args.deep_view().take(i as int));
            assert(out@ =~= before + seq![' '] + args.deep_view().take(i + 1).last());
        }
        i = i + 1;
    }
    proof {
        assert(args.deep_view().take(args.len() as int) =~= args.deep_view());
    }
    out
}

/// The environment tokens named on the command line: the whitespace-
/// separated `KEY=VALUE` tokens of the given string, in input order, or
/// nothing when no string was given.
pub open spec fn spec_env_tokens(env_vars: Option<Seq<char>>) -> Seq<Seq<char>> {
    match env_vars {
        Some(s) => spec_tokens(s),
        None => Seq::empty(),
    }
}

/// Splits the optional environment string into its tokens.
pub fn parse_env_vars(env_vars: Option<&str>) -> (r: Vec<String>)
    ensures
        r.deep_view() == spec_env_tokens(
            match env_vars {
                Some(s) => Some(s@),
                None => None,
            },
        ),
{
    match env_vars {
        Some(s) => split_whitespace_tokens(s),
        None => Vec::new(),
    }
}

/// The position of the last `.` of `s`, or `-1` when there is none.
pub open spec fn spec_last_dot(s: Seq<char>) -> int
    decreases s.len(),
{
    if s.len() == 0 {
        -1
    } else if s.last() == '.' {
        s.len() - 1
    } else {
        spec_last_dot(s.drop_last())
    }
}

/// The extension of a file name: what follows the last `.`, provided that
/// dot is neither absent nor the leading character (a leading dot marks a
/// hidden name, not an extension).
pub fn file_extension(file_name: &str) -> (r: Option<String>)
    ensures
        r is Some <==> spec_last_dot(file_name@) > 0,
        r matches Some(e) ==> e@ == file_name@.subrange(
            spec_last_dot(file_name@) + 1,
            file_name@.len() as int,
        ),
{
    let len = file_name.unicode_len();
    let mut last_dot: usize = 0;
    let mut found = false;
    let mut i: usize = 0;
    proof {
        assert(file_name@.take(0) =~= Seq::<char>::empty());
    }
    while i < len
        invariant
            len == file_name@.len(),
            i <= len,
            found ==> (last_dot < i && last_dot == spec_last_dot(file_name@.take(i as int))),
            !found ==> spec_last_dot(file_name@.take(i as int)) == -1,
        decreases len - i,
    {
        let c = file_name.get_char(i);
        proof {
            assert(file_name@.take(i + 1).drop_last() =~= file_name@.take(i as int));
            assert(file_name@.take(i + 1).last() == c);
        }
        if c == '.' {
            last_dot = i;
            found = true;
        }
        i = i + 1;
    }
    proof {
        assert(file_name@.take(len as int) =~= file_name@);
    }
    if found && last_dot > 0 {
        Some(String::from_str(file_name.substring_char(last_dot + 1, len)))
    } else {
        None
    }
}

/// The service name of a create command: the custom name when one was
/// given, the target's file name otherwise.
pub fn resolve_service_name(file_name: &str, custom_name: Option<String>) -> (r: String)
    ensures
        custom_name matches Some(n) ==> r == n,
        custom_name is None ==> r@ == file_name@,
{
    match custom_name {
        Some(n) => n,
        None => String::from_str(file_name),
    }
}

/// Resolves the interpreter from a file extension via the fixed table:
/// `js` runs under `node`, `py` under `python3`. A file without an
/// extension runs by itself; any other extension is a hard error.
pub fn interpreter_for_extension(extension: Option<&str>) -> (r: Result<
    Option<String>,
    ServiceError,
>)
    ensures
        extension is None ==> (r matches Ok(o) && o is None),
        (extension matches Some(e) && e@ == "js"@) ==> (r matches Ok(o) && o matches Some(p) && p@
            == "node"@),
        (extension matches Some(e) && e@ == "py"@) ==> (r matches Ok(o) && o matches Some(p) && p@
            == "python3"@),
        extension matches Some(e) && e@ != "js"@ && e@ != "py"@ ==> r == Err::<
            Option<String>,
            ServiceError,
        >(ServiceError::InterpreterNotFound),
{
    proof {
        reveal_strlit("js");
        reveal_strlit("py");
        assert("js"@[0] == 'j' && "py"@[0] == 'p');
        assert("js"@ != "py"@);
    }
    match extension {
        None => Ok(None),
        Some(e) => {
            if str_eq(e, "js") {
                Ok(Some(String::from_str("node")))
            } else if str_eq(e, "py") {
                Ok(Some(String::from_str("python3")))
            } else {
                Err(ServiceError::InterpreterNotFound)
            }
        },
    }
}

/// Recovers the unprivileged invoking identity from the value of the
/// elevation variable. Its absence is a fatal configuration error, never a
/// silent fallback to the elevated identity.
pub fn resolve_service_user(sudo_user: Option<String>) -> (r: Result<String, ServiceError>)
    ensures
        sudo_user matches Some(u) ==> r matches Ok(v) && v == u,
        sudo_user is None ==> r == Err::<String, ServiceError>(ServiceError::PrivilegeError),
{
    match sudo_user {
        Some(u) => Ok(u),
        None => Err(ServiceError::PrivilegeError),
    }
}

/// The fixed lines that precede the restart directive and the environment
/// entries.
pub open spec fn spec_head_lines(
    name: Seq<char>,
    user: Seq<char>,
    working_directory: Seq<char>,
    exec_start: Seq<char>,
) -> Seq<Seq<char>> {
    seq![
        "# Created by ser. Do not edit unless you know what you are doing."@,
        "[Unit]"@,
        "Description=ser: "@ + name,
        "After=network.target"@,
        ""@,
        "[Service]"@,
        "Type=simple"@,
        "User="@ + user,
        ""@,
        "WorkingDirectory="@ + working_directory,
        "ExecStart="@ + exec_start,
    ]
}

/// The restart directive: present exactly when the policy asks for it.
pub open spec fn spec_restart_lines(policy: RestartPolicy) -> Seq<Seq<char>> {
    match policy {
        RestartPolicy::Never => Seq::empty(),
        RestartPolicy::Always => seq!["Restart=always"@],
    }
}

/// One `Environment=` line.
pub open spec fn spec_env_line(token: Seq<char>) -> Seq<char> {
    "Environment="@ + token
}

/// One `Environment=` line per environment token, in input order.
pub open spec fn spec_env_lines(env: Seq<Seq<char>>) -> Seq<Seq<char>>
    decreases env.len(),
{
    if env.len() == 0 {
        Seq::empty()
    } else {
        spec_env_lines(env.drop_last()).push(spec_env_line(env.last()))
    }
}

/// The fixed closing lines.
pub open spec fn spec_tail_lines() -> Seq<Seq<char>> {
    seq![""@, "[Install]"@, "WantedBy=multi-user.target"@]
}

/// Every line of the unit file, in order.
pub open spec fn spec_unit_lines(
    name: Seq<char>,
    user: Seq<char>,
    working_directory: Seq<char>,
    exec_start: Seq<char>,
    policy: RestartPolicy,
    env: Seq<Seq<char>>,
) -> Seq<Seq<char>> {
    spec_head_lines(name, user, working_directory, exec_start) + spec_restart_lines(policy)
        + spec_env_lines(env) + spec_tail_lines()
}

fn push_line(out: &mut Vec<String>, line: &str)
    ensures
        final(out).deep_view() == old(out).deep_view().push(line@),
{
    let ghost before = out.deep_view();
    out.push(String::from_str(line));
    proof {
        assert(out.deep_view() =~= before.push(line@));
    }
}

fn push_joined(out: &mut Vec<String>, prefix: &str, rest: &str)
    ensures
        final(out).deep_view() == old(out).deep_view().push(prefix@ + rest@),
{
    let ghost before = out.deep_view();
    let line = String::from_str(prefix).concat(rest);
    out.push(line);
    proof {
        assert(out.deep_view() =~= before.push(prefix@ + rest@));
    }
}

/// Builds every line of the unit file for a descriptor: the marker
/// comment, description and ordering stanza, the service stanza with the
/// operating user, working directory and executable line, a restart
/// directive only when the policy asks for it, one `Environment=` line per
/// token in input order, and the install stanza.
pub fn synthesize_unit_lines(d: &ServiceDescriptor) -> (r: Vec<String>)
    ensures
        r.deep_view() == spec_unit_lines(
            d.short_name@,
            d.user@,
            d.working_directory@,
            d.exec_start@,
            d.restart_policy,
            d.env_vars.deep_view(),
        ),
{
    let ghost env = d.env_vars.deep_view();
    let ghost head = spec_head_lines(d.short_name@, d.user@, d.working_directory@, d.exec_start@);
    let mut out: Vec<String> = Vec::new();
    push_line(&mut out, "# Created by ser. Do not edit unless you know what you are doing.");
    push_line(&mut out, "[Unit]");
    push_joined(&mut out, "Description=ser: ", d.short_name.as_str());
    push_line(&mut out, "After=network.target");
    push_line(&mut out, "");
    push_line(&mut out, "[Service]");
    push_line(&mut out, "Type=simple");
    push_joined(&mut out, "User=", d.user.as_str());
    push_line(&mut out, "");
    push_joined(&mut out, "WorkingDirectory=", d.working_directory.as_str());
    push_joined(&mut out, "ExecStart=", d.exec_start.as_str());
    proof {
        assert(out.deep_view() =~= head);
    }
    match d.restart_policy {
        RestartPolicy::Always => {
            push_line(&mut out, "Restart=always");
        },
        RestartPolicy::Never => {},
    }
    proof {
        assert(out.deep_view() =~= head + spec_restart_lines(d.restart_policy));
    }
    let ghost mid = out.deep_view();
    let mut i: usize = 0;
    proof {
        assert(env.take(0) =~= Seq::<Seq<char>>::empty());
        assert(out.deep_view() =~= mid + spec_env_lines(env.take(0)));
    }
    while i < d.env_vars.len()
        invariant
            i <= d.env_vars.len(),
            env == d.env_vars.deep_view(),
            env.len() == d.env_vars.len(),
            out.deep_view() == mid + spec_env_lines(env.take(i as int)),
        decreases d.env_vars.len() - i,
    {
        let ghost before = out.deep_view();
        push_joined(&mut out, "Environment=", d.env_vars[i].as_str());
        proof {
            assert(env.take(i + 1).drop_last() =~= env.take(i as int));
            assert(out.deep_view() =~= mid + spec_env_lines(env.take(i + 1)));
        }
        i = i + 1;
    }
    proof {
        assert(env.take(env.len() as int) =~= env);
    }
    push_line(&mut out, "");
    push_line(&mut out, "[Install]");
    push_line(&mut out, "WantedBy=multi-user.target");
    proof {
        assert(out.deep_view() =~= head + spec_restart_lines(d.restart_policy) + spec_env_lines(env)
            + spec_tail_lines());
    }
    out
}

/// The lines joined into one text, each followed by a newline.
pub open spec fn spec_join_lines(lines: Seq<Seq<char>>) -> Seq<char>
    decreases lines.len(),
{
    if lines.len() == 0 {
        Seq::empty()
    } else {
        spec_join_lines(lines.drop_last()) + lines.last() + seq!['\n']
    }
}

/// Joins unit-file lines into the file's text.
pub fn join_unit_lines(lines: &Vec<String>) -> (r: String)
    ensures
        r@ == spec_join_lines(lines.deep_view()),
{
    let mut out = String::new();
    let mut i: usize = 0;
    proof {
        assert(lines.deep_view().take(0) =~= Seq::<Seq<char>>::empty());
        assert(out@ =~= spec_join_lines(lines.deep_view().take(0)));
    }
    while i < lines.len()
        invariant
            i <= lines.len(),
            lines.deep_view().len() == lines.len(),
            out@ == spec_join_lines(lines.deep_view().take(i as int)),
        decreases lines.len() - i,
    {
        let ghost before = out@;
        out.append(lines[i].as_str());
        push_char(&mut out, '\n');
        proof {
            assert(lines.deep_view().take(i + 1).drop_last() =~= lines.deep_view().take(i as int));
            assert(out@ =~= before + lines.deep_view().take(i + 1).last() + seq!['\n']);
        }
        i = i + 1;
    }
    proof {
        assert(lines.deep_view().take(lines.len() as int) =~= lines.deep_view());
    }
    out
}

/// The whole unit-file text of a descriptor.
pub fn synthesize_unit_file(d: &ServiceDescriptor) -> (r: String)
    ensures
        r@ == spec_join_lines(
            spec_unit_lines(
                d.short_name@,
                d.user@,
                d.working_directory@,
                d.exec_start@,
                d.restart_policy,
                d.env_vars.deep_view(),
            ),
        ),
{
    let lines = synthesize_unit_lines(d);
    join_unit_lines(&lines)
}

/// `s` does not start with `p` because they differ at position `k` (or `s`
/// is too short to reach `k`).
proof fn lemma_differs_at(s: Seq<char>, p: Seq<char>, k: int)
    requires
        0 <= k < p.len(),
        s.len() <= k || s[k] != p[k],
    ensures
        !spec_starts_with(s, p),
{
    if s.len() >= p.len() && spec_starts_with(s, p) {
        assert(s.subrange(0, p.len() as int)[k] == s[k]);
    }
}

/// The shape of the synthesized lines: the restart directive appears
/// exactly when the policy asks for it, and the `Environment=` lines are
/// exactly the environment tokens, one line each, in input order — no
/// other line carries either directive.
pub proof fn lemma_unit_lines_shape(
    name: Seq<char>,
    user: Seq<char>,
    working_directory: Seq<char>,
    exec_start: Seq<char>,
    policy: RestartPolicy,
    env: Seq<Seq<char>>,
)
    ensures
        ({
            let lines = spec_unit_lines(name, user, working_directory, exec_start, policy, env);
            let nr = spec_restart_lines(policy).len();
            &&& lines.len() == 14 + nr + env.len()
            &&& (policy is Always <==> nr == 1)
            &&& (policy is Always ==> lines[11] == "Restart=always"@)
            &&& (policy is Never ==> forall|i: int|
                0 <= i < lines.len() ==> !spec_starts_with(#[trigger] lines[i], "Restart="@))
            &&& forall|k: int|
                0 <= k < env.len() ==> #[trigger] lines[11 + nr + k] == spec_env_line(env[k])
            &&& forall|i: int|
                0 <= i < lines.len() && !(11 + nr <= i < 11 + nr + env.len())
                    ==> !spec_starts_with(#[trigger] lines[i], "Environment="@)
        }),
{
    let lines = spec_unit_lines(name, user, working_directory, exec_start, policy, env);
    let head = spec_head_lines(name, user, working_directory, exec_start);
    let nr = spec_restart_lines(policy).len();
    reveal_strlit("# Created by ser. Do not edit unless you know what you are doing.");
    reveal_strlit("[Unit]");
    reveal_strlit("Description=ser: ");
    reveal_strlit("After=network.target");
    reveal_strlit("");
    reveal_strlit("[Service]");
    reveal_strlit("Type=simple");
    reveal_strlit("User=");
    reveal_strlit("WorkingDirectory=");
    reveal_strlit("ExecStart=");
    reveal_strlit("Restart=always");
    reveal_strlit("Restart=");
    reveal_strlit("Environment=");
    reveal_strlit("[Install]");
    reveal_strlit("WantedBy=multi-user.target");
    lemma_env_lines_len(env);
    assert forall|k: int| 0 <= k < env.len() implies #[trigger] lines[11 + nr + k]
        == spec_env_line(env[k]) by {
        lemma_env_lines_index(env, k);
    }
    let rp = "Restart="@;
    let ep = "Environment="@;
    assert forall|i: int|
        0 <= i < lines.len() && !(11 + nr <= i < 11 + nr + env.len())
        implies !spec_starts_with(#[trigger] lines[i], ep) by {
        if i < 11 {
            lemma_head_line_not_directive(name, user, working_directory, exec_start, i, ep);
        } else if i < 11 + nr {
            lemma_differs_at(lines[i], ep, 0);
        } else {
            let t = i - (11 + nr + env.len());
            assert(lines[i] == spec_tail_lines()[t]);
            if t == 0 {
                lemma_differs_at(lines[i], ep, 0);
            } else if t == 1 {
                lemma_differs_at(lines[i], ep, 0);
            } else {
                lemma_differs_at(lines[i], ep, 0);
            }
        }
    }
    if policy is Never {
        assert forall|i: int| 0 <= i < lines.len() implies !spec_starts_with(
            #[trigger] lines[i],
            rp,
        ) by {
            if i < 11 {
                lemma_head_line_not_directive(name, user, working_directory, exec_start, i, rp);
            } else if i < 11 + env.len() {
                lemma_env_lines_index(env, i - 11);
                lemma_differs_at(lines[i], rp, 0);
            } else {
                lemma_differs_at(lines[i], rp, 0);
            }
        }
    }
}

/// The number of environment lines equals the number of tokens.
proof fn lemma_env_lines_len(env: Seq<Seq<char>>)
    ensures
        spec_env_lines(env).len() == env.len(),
    decreases env.len(),
{
    if env.len() > 0 {
        lemma_env_lines_len(env.drop_last());
    }
}

/// Each environment line is the line of its token.
proof fn lemma_env_lines_index(env: Seq<Seq<char>>, k: int)
    requires
        0 <= k < env.len(),
    ensures
        spec_env_lines(env)[k] == spec_env_line(env[k]),
    decreases env.len(),
{
    lemma_env_lines_len(env);
    if k < env.len() - 1 {
        lemma_env_lines_len(env.drop_last());
        lemma_env_lines_index(env.drop_last(), k);
    }
}

/// No fixed head line, nor a constructed one, starts with `Restart=` or
/// `Environment=`: its first characters already differ.
proof fn lemma_head_line_not_directive(
    name: Seq<char>,
    user: Seq<char>,
    working_directory: Seq<char>,
    exec_start: Seq<char>,
    i: int,
    p: Seq<char>,
)
    requires
        0 <= i < 11,
        p == "Restart="@ || p == "Environment="@,
    ensures
        !spec_starts_with(spec_head_lines(name, user, working_directory, exec_start)[i], p),
{
    reveal_strlit("# Created by ser. Do not edit unless you know what you are doing.");
    reveal_strlit("[Unit]");
    reveal_strlit("Description=ser: ");
    reveal_strlit("After=network.target");
    reveal_strlit("");
    reveal_strlit("[Service]");
    reveal_strlit("Type=simple");
    reveal_strlit("User=");
    reveal_strlit("WorkingDirectory=");
    reveal_strlit("ExecStart=");
    reveal_strlit("Restart=");
    reveal_strlit("Environment=");
    let line = spec_head_lines(name, user, working_directory, exec_start)[i];
    if i == 10 && p == "Environment="@ {
        // "ExecStart=" and "Environment=" share the first character and
        // differ at the second.
        assert(line[1] == 'x');
        lemma_differs_at(line, p, 1);
    } else {
        lemma_differs_at(line, p, 0);
    }
}

} // verus!
