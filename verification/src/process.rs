use vstd::prelude::*;

use crate::points::find_char;
use crate::render::join_strings;
use crate::strutil::{dec_rep, join, push_char, u64_to_string};

verus! {

/// What a child process reads on its standard input: literal text, or the
/// contents of a file named by its path.
#[derive(Debug, Clone)]
pub enum StdinPipe {
    Text(String),
    FromPath(String),
}

/// How one character is written inside a quoted argument.
pub open spec fn esc_char(c: char) -> Seq<char> {
    if c == '\\' {
        seq!['\\', '\\']
    } else if c == '"' {
        seq!['\\', '"']
    } else if c == '\n' {
        seq!['\\', 'n']
    } else if c == '\t' {
        seq!['\\', 't']
    } else if c == '\r' {
        seq!['\\', 'r']
    } else {
        seq![c]
    }
}

/// The escaped form of a string, character by character.
pub open spec fn escaped(s: Seq<char>) -> Seq<char>
    decreases s.len(),
{
    if s.len() == 0 {
        Seq::empty()
    } else {
        escaped(s.drop_last()) + esc_char(s.last())
    }
}

/// A string wrapped in double quotes with its contents escaped.
pub open spec fn quoted(s: Seq<char>) -> Seq<char> {
    seq!['"'] + escaped(s) + seq!['"']
}

/// How one argument is written on a rendered command line: quoted when it
/// holds a space, bare otherwise.
pub open spec fn arg_rendered(a: Seq<char>) -> Seq<char> {
    if find_char(a, ' ') >= 0 {
        quoted(a)
    } else {
        a
    }
}

/// How a stdin source is written after `<` on a rendered command line.
pub open spec fn stdin_rendered(p: StdinPipe) -> Seq<char> {
    match p {
        StdinPipe::Text(s) => quoted(s@),
        StdinPipe::FromPath(s) => s@,
    }
}

/// Escapes the contents of a quoted argument.
fn escape_str(s: &str) -> (r: String)
    ensures
        r@ == escaped(s@),
{
    let n = s.unicode_len();
    let mut acc = String::new();
    let mut i: usize = 0;
    while i < n
        invariant
            n == s@.len(),
            0 <= i <= n,
            acc@ == escaped(s@.take(i as int)),
        decreases n - i,
    {
        let c = s.get_char(i);
        if c == '\\' {
            acc.append("\\\\");
        } else if c == '"' {
            acc.append("\\\"");
        } else if c == '\n' {
            acc.append("\\n");
        } else if c == '\t' {
            acc.append("\\t");
        } else if c == '\r' {
            acc.append("\\r");
        } else {
            push_char(&mut acc, c);
        }
        proof {
            reveal_strlit("\\\\");
            reveal_strlit("\\\"");
            reveal_strlit("\\n");
            reveal_strlit("\\t");
            reveal_strlit("\\r");
            assert(s@.take(i + 1).drop_last() =~= s@.take(i as int));
            assert(s@.take(i + 1).last() == s@[i as int]);
            assert(acc@ =~= escaped(s@.take(i + 1)));
        }
        i = i + 1;
    }
    proof {
        assert(s@.take(n as int) =~= s@);
    }
    acc
}

/// Wraps a string in double quotes, escaping its contents.
fn quote_str(s: &str) -> (r: String)
    ensures
        r@ == quoted(s@),
{
    let mut acc = String::new();
    push_char(&mut acc, '"');
    let esc = escape_str(s);
    acc.append(esc.as_str());
    push_char(&mut acc, '"');
    proof {
        assert(acc@ =~= quoted(s@));
    }
    acc
}

/// Renders one argument, quoting it when it holds a space.
fn render_arg(a: &str) -> (r: String)
    ensures
        r@ == arg_rendered(a@),
{
    let n = a.unicode_len();
    let mut has_space = false;
    let mut i: usize = 0;
    while i < n
        invariant
            n == a@.len(),
            0 <= i <= n,
            !has_space ==> forall|k: int| 0 <= k < i ==> a@[k] != ' ',
            has_space ==> find_char(a@, ' ') >= 0,
        decreases n - i,
    {
        if !has_space && a.get_char(i) == ' ' {
            proof {
                crate::points::lemma_find_char_found(a@, ' ', i as int);
            }
            has_space = true;
        }
        i = i + 1;
    }
    if has_space {
        quote_str(a)
    } else {
        proof {
            crate::points::lemma_find_char_absent(a@, ' ');
        }
        String::from_str(a)
    }
}

/// A signal that ended a child process.
#[derive(Debug, Clone, Copy, PartialEq, Eq, Structural)]
pub enum SignalType {
    SegFault,
    Abort,
}

impl SignalType {
    /// The POSIX signal number: eleven for a segmentation fault, six for
    /// an abort.
    pub fn code(&self) -> (r: i32)
        ensures
            r == signal_code(*self),
    {
        match self {
            SignalType::SegFault => 11,
            SignalType::Abort => 6,
        }
    }

    /// The signal for a POSIX signal number; only the segmentation-fault
    /// and abort signals are known.
    pub fn from_code(code: i32) -> (r: Option<SignalType>)
        ensures
            code == 11 ==> r == Some(SignalType::SegFault),
            code == 6 ==> r == Some(SignalType::Abort),
            code != 11 && code != 6 ==> r is None,
    {
        if code == 11 {
            Some(SignalType::SegFault)
        } else if code == 6 {
            Some(SignalType::Abort)
        } else {
            None
        }
    }
}

pub open spec fn signal_code(s: SignalType) -> int {
    match s {
        SignalType::SegFault => 11,
        SignalType::Abort => 6,
    }
}

/// How a supervised child process ended: a zero exit, a nonzero exit code,
/// the timeout deadline (in milliseconds), or a fatal signal.
#[derive(Debug, Clone, Copy, PartialEq, Eq, Structural)]
pub enum ExitStatus {
    Success,
    Failure(i32),
    Timeout(u64),
    Signal(SignalType),
}

impl ExitStatus {
    /// Whether the process exited with a zero code.
    pub fn is_ok(&self) -> (r: bool)
        ensures
            r == (*self is Success),
    {
        match self {
            ExitStatus::Success => true,
            _ => false,
        }
    }

    /// Whether the process ran to completion, with any exit code.
    pub fn completed(&self) -> (r: bool)
        ensures
            r == (*self is Success || *self is Failure),
    {
        match self {
            ExitStatus::Success => true,
            ExitStatus::Failure(_) => true,
            _ => false,
        }
    }

    /// The exit code: zero for success, the code of a failure, the signal
    /// number for a signal, and nothing for a timeout.
    pub fn exit_code(&self) -> (r: Option<i32>)
        ensures
            r == match *self {
                ExitStatus::Success => Some(0 as i32),
                ExitStatus::Failure(rc) => Some(rc),
                ExitStatus::Timeout(_) => None::<i32>,
                ExitStatus::Signal(sig) => Some(signal_code(sig) as i32),
            },
    {
        match self {
            ExitStatus::Success => Some(0),
            ExitStatus::Failure(rc) => Some(*rc),
            ExitStatus::Timeout(_) => None,
            ExitStatus::Signal(sig) => Some(sig.code()),
        }
    }

    /// Classifies how a child ended from what the operating system
    /// reports: a success flag, an exit code when the process completed,
    /// and a signal number when a signal ended it. Unknown signals are not
    /// classified.
    pub fn from_parts(success: bool, code: Option<i32>, signal: Option<i32>) -> (r: Option<
        ExitStatus,
    >)
        ensures
            success ==> r == Some(ExitStatus::Success),
            !success ==> r == match code {
                Some(rc) => Some(ExitStatus::Failure(rc)),
                None => match signal {
                    Some(sn) => if sn == 11 {
                        Some(ExitStatus::Signal(SignalType::SegFault))
                    } else if sn == 6 {
                        Some(ExitStatus::Signal(SignalType::Abort))
                    } else {
                        None
                    },
                    None => None,
                },
            },
    {
        if success {
            Some(ExitStatus::Success)
        } else if let Some(rc) = code {
            Some(ExitStatus::Failure(rc))
        } else if let Some(sn) = signal {
            match SignalType::from_code(sn) {
                Some(sig) => Some(ExitStatus::Signal(sig)),
                None => None,
            }
        } else {
            None
        }
    }
}

/// The rendering of a millisecond duration: whole milliseconds below one
/// second, otherwise seconds with any fraction trimmed of trailing zeros.
pub open spec fn duration_rendered(ms: nat) -> Seq<char> {
    if ms < 1000 {
        dec_rep(ms) + "ms"@
    } else if ms % 1000 == 0 {
        dec_rep(ms / 1000) + "s"@
    } else {
        dec_rep(ms / 1000) + "."@ + trim_zeros(frac3(ms % 1000)) + "s"@
    }
}

/// Three fraction digits for a value below one thousand.
pub open spec fn frac3(f: nat) -> Seq<char> {
    seq![
        crate::strutil::digit(f / 100),
        crate::strutil::digit(f / 10 % 10),
        crate::strutil::digit(f % 10),
    ]
}

/// The string with its trailing zero characters removed.
pub open spec fn trim_zeros(s: Seq<char>) -> Seq<char>
    decreases s.len(),
{
    if s.len() > 0 && s.last() == '0' {
        trim_zeros(s.drop_last())
    } else {
        s
    }
}

/// Renders a millisecond duration as a human reads it.
pub fn render_duration(ms: u64) -> (r: String)
    ensures
        r@ == duration_rendered(ms as nat),
{
    if ms < 1000 {
        let mut s = u64_to_string(ms);
        s.append("ms");
        s
    } else if ms % 1000 == 0 {
        let mut s = u64_to_string(ms / 1000);
        s.append("s");
        s
    } else {
        let mut s = u64_to_string(ms / 1000);
        s.append(".");
        let f = ms % 1000;
        let d0 = crate::strutil::digit_char(f / 100);
        let d1 = crate::strutil::digit_char(f / 10 % 10);
        let d2 = crate::strutil::digit_char(f % 10);
        // write the fraction digits, leaving off trailing zeros
        if d2 != '0' {
            push_char(&mut s, d0);
            push_char(&mut s, d1);
            push_char(&mut s, d2);
        } else if d1 != '0' {
            push_char(&mut s, d0);
            push_char(&mut s, d1);
        } else {
            push_char(&mut s, d0);
        }
        proof {
            let fr = frac3((ms % 1000) as nat);
            assert(fr.drop_last() =~= seq![
                crate::strutil::digit((f / 100) as nat),
                crate::strutil::digit((f / 10 % 10) as nat),
            ]);
            assert(fr.drop_last().drop_last() =~= seq![crate::strutil::digit((f / 100) as nat)]);
            assert(fr.last() == crate::strutil::digit((f % 10) as nat));
            assert(fr.drop_last().last() == crate::strutil::digit((f / 10 % 10) as nat));
            if f % 10 != 0 {
                assert(fr.last() != '0');
                assert(trim_zeros(fr) == fr);
            } else if f / 10 % 10 != 0 {
                assert(fr.last() == '0');
                assert(trim_zeros(fr) == trim_zeros(fr.drop_last()));
                assert(fr.drop_last().last() != '0');
                assert(trim_zeros(fr.drop_last()) == fr.drop_last());
            } else {
                // the leading digit is nonzero because the fraction is not
                assert(f / 100 == 0 ==> f < 100) by (nonlinear_arith);
                assert(f < 100 ==> f / 10 < 10) by (nonlinear_arith);
                assert(f / 10 < 10 ==> f / 10 % 10 == f / 10) by (nonlinear_arith);
                assert(f / 10 == 0 ==> f < 10) by (nonlinear_arith);
                assert(f < 10 ==> f % 10 == f) by (nonlinear_arith);
                assert(f / 100 != 0);
                assert(fr.last() == '0');
                assert(trim_zeros(fr) == trim_zeros(fr.drop_last()));
                assert(fr.drop_last().last() == '0');
                assert(trim_zeros(fr.drop_last()) == trim_zeros(fr.drop_last().drop_last()));
                assert(fr.drop_last().drop_last().last() == crate::strutil::digit((f / 100) as nat));
                assert(fr.drop_last().drop_last().last() != '0');
                assert(trim_zeros(fr.drop_last().drop_last()) == fr.drop_last().drop_last());
                assert(trim_zeros(fr) == fr.drop_last().drop_last());
            }
        }
        s.append("s");
        proof {
            assert(s@ =~= duration_rendered(ms as nat));
        }
        s
    }
}

/// An immutable description of one subprocess invocation: the program, its
/// arguments, an environment that starts empty, and the requested pipes,
/// working directory and timeout.
#[derive(Debug, Clone)]
pub struct Command {
    pub program: String,
    pub args: Vec<String>,
    pub envs: Vec<(String, String)>,
    pub cwd: Option<String>,
    pub stdin: Option<StdinPipe>,
    pub stderr: Option<String>,
    pub stdout: Option<String>,
    pub timeout_ms: Option<u64>,
}

/// The rendered parts of an argument list.
pub open spec fn arg_parts(args: Seq<String>) -> Seq<Seq<char>>
    decreases args.len(),
{
    if args.len() == 0 {
        Seq::empty()
    } else {
        arg_parts(args.drop_last()).push(arg_rendered(args.last()@))
    }
}

/// The rendered parts of an environment: one `key=value` part per entry.
pub open spec fn env_parts(envs: Seq<(String, String)>) -> Seq<Seq<char>>
    decreases envs.len(),
{
    if envs.len() == 0 {
        Seq::empty()
    } else {
        env_parts(envs.drop_last()).push(envs.last().0@ + "="@ + envs.last().1@)
    }
}

/// The parts of a rendered command line, in order: environment entries,
/// the program, the arguments, then any stdin, stdout and stderr
/// redirections.
pub open spec fn command_parts(c: Command) -> Seq<Seq<char>> {
    let base = env_parts(c.envs@) + seq![c.program@] + arg_parts(c.args@);
    let with_stdin = match c.stdin {
        Some(p) => base + seq!["<"@, stdin_rendered(p)],
        None => base,
    };
    let with_stdout = match c.stdout {
        Some(p) => with_stdin + seq![">"@, p@],
        None => with_stdin,
    };
    match c.stderr {
        Some(p) => with_stdout + seq!["2>"@, p@],
        None => with_stdout,
    }
}

/// The rendered command line: its parts separated by single spaces.
pub open spec fn command_rendered(c: Command) -> Seq<char> {
    join(command_parts(c), " "@)
}

impl Command {
    /// A command for the given program: no arguments, an empty
    /// environment, no pipes, no working directory and no timeout.
    pub fn new(program: &str) -> (r: Command)
        ensures
            r.program@ == program@,
            r.args@ =~= Seq::<String>::empty(),
            r.envs@ =~= Seq::<(String, String)>::empty(),
            r.cwd is None,
            r.stdin is None,
            r.stderr is None,
            r.stdout is None,
            r.timeout_ms is None,
    {
        Command {
            program: String::from_str(program),
            args: Vec::new(),
            envs: Vec::new(),
            cwd: None,
            stdin: None,
            stderr: None,
            stdout: None,
            timeout_ms: None,
        }
    }

    /// Appends one argument.
    pub fn add_arg(&mut self, arg: &str)
        ensures
            *final(self) == (Command { args: final(self).args, ..*old(self) }),
            final(self).args@.len() == old(self).args@.len() + 1,
            final(self).args@.last()@ == arg@,
            final(self).args@.drop_last() == old(self).args@,
    {
        self.args.push(String::from_str(arg));
        proof {
            assert(self.args@.drop_last() =~= old(self).args@);
        }
    }

    /// The command with one more argument.
    pub fn arg(self, arg: &str) -> (r: Command)
        ensures
            r == (Command { args: r.args, ..self }),
            r.args@.len() == self.args@.len() + 1,
            r.args@.last()@ == arg@,
            r.args@.drop_last() == self.args@,
    {
        let mut this = self;
        this.add_arg(arg);
        this
    }

    /// Appends each of the given arguments in order.
    pub fn add_args(&mut self, args: &Vec<String>)
        ensures
            *final(self) == (Command { args: final(self).args, ..*old(self) }),
            final(self).args@ == old(self).args@ + args@,
    {
        let n = args.len();
        let mut i: usize = 0;
        while i < n
            invariant
                n == args@.len(),
                0 <= i <= n,
                *self == (Command { args: self.args, ..*old(self) }),
                self.args@ == old(self).args@ + args@.take(i as int),
            decreases n - i,
        {
            self.args.push(args[i].clone());
            proof {
                assert(old(self).args@ + args@.take(i + 1) =~= (old(self).args@ + args@.take(
                    i as int,
                )).push(args@[i as int]));
            }
            i = i + 1;
        }
        proof {
            assert(args@.take(n as int) =~= args@);
        }
    }

    /// The command with the given arguments appended in order.
    pub fn args(self, args: &Vec<String>) -> (r: Command)
        ensures
            r == (Command { args: r.args, ..self }),
            r.args@ == self.args@ + args@,
    {
        let mut this = self;
        this.add_args(args);
        this
    }

    /// Appends one environment entry.
    pub fn add_env(&mut self, key: &str, val: &str)
        ensures
            *final(self) == (Command { envs: final(self).envs, ..*old(self) }),
            final(self).envs@.len() == old(self).envs@.len() + 1,
            final(self).envs@.last().0@ == key@,
            final(self).envs@.last().1@ == val@,
            final(self).envs@.drop_last() == old(self).envs@,
    {
        self.envs.push((String::from_str(key), String::from_str(val)));
        proof {
            assert(self.envs@.drop_last() =~= old(self).envs@);
        }
    }

    /// The command with one more environment entry.
    pub fn env(self, key: &str, val: &str) -> (r: Command)
        ensures
            r == (Command { envs: r.envs, ..self }),
            r.envs@.len() == self.envs@.len() + 1,
            r.envs@.last().0@ == key@,
            r.envs@.last().1@ == val@,
            r.envs@.drop_last() == self.envs@,
    {
        let mut this = self;
        this.add_env(key, val);
        this
    }

    /// Sets the working directory.
    pub fn set_cwd(&mut self, cwd: &str)
        ensures
            *final(self) == (Command { cwd: final(self).cwd, ..*old(self) }),
            final(self).cwd matches Some(p) && p@ == cwd@,
    {
        self.cwd = Some(String::from_str(cwd));
    }

    /// The command with the given working directory.
    pub fn cwd(self, cwd: &str) -> (r: Command)
        ensures
            r == (Command { cwd: r.cwd, ..self }),
            r.cwd matches Some(p) && p@ == cwd@,
    {
        let mut this = self;
        this.set_cwd(cwd);
        this
    }

    /// Sets the stdin source.
    pub fn set_stdin(&mut self, cfg: StdinPipe)
        ensures
            *final(self) == (Command { stdin: final(self).stdin, ..*old(self) }),
            final(self).stdin == Some(cfg),
    {
        self.stdin = Some(cfg);
    }

    /// The command with the given stdin source.
    pub fn stdin(self, cfg: StdinPipe) -> (r: Command)
        ensures
            r == (Command { stdin: r.stdin, ..self }),
            r.stdin == Some(cfg),
    {
        let mut this = self;
        this.set_stdin(cfg);
        this
    }

    /// Sets the path that captured stderr is also written to.
    pub fn set_stderr(&mut self, cfg: &str)
        ensures
            *final(self) == (Command { stderr: final(self).stderr, ..*old(self) }),
            final(self).stderr matches Some(p) && p@ == cfg@,
    {
        self.stderr = Some(String::from_str(cfg));
    }

    /// The command with a stderr capture path.
    pub fn stderr(self, cfg: &str) -> (r: Command)
        ensures
            r == (Command { stderr: r.stderr, ..self }),
            r.stderr matches Some(p) && p@ == cfg@,
    {
        let mut this = self;
        this.set_stderr(cfg);
        this
    }

    /// Sets the path that captured stdout is also written to.
    pub fn set_stdout(&mut self, cfg: &str)
        ensures
            *final(self) == (Command { stdout: final(self).stdout, ..*old(self) }),
            final(self).stdout matches Some(p) && p@ == cfg@,
    {
        self.stdout = Some(String::from_str(cfg));
    }

    /// The command with a stdout capture path.
    pub fn stdout(self, cfg: &str) -> (r: Command)
        ensures
            r == (Command { stdout: r.stdout, ..self }),
            r.stdout matches Some(p) && p@ == cfg@,
    {
        let mut this = self;
        this.set_stdout(cfg);
        this
    }

    /// Sets the timeout, in milliseconds.
    pub fn set_timeout(&mut self, timeout_ms: u64)
        ensures
            *final(self) == (Command { timeout_ms: final(self).timeout_ms, ..*old(self) }),
            final(self).timeout_ms == Some(timeout_ms),
    {
        self.timeout_ms = Some(timeout_ms);
    }

    /// The command with the given timeout, in milliseconds.
    pub fn timeout(self, timeout_ms: u64) -> (r: Command)
        ensures
            r == (Command { timeout_ms: r.timeout_ms, ..self }),
            r.timeout_ms == Some(timeout_ms),
    {
        let mut this = self;
        this.set_timeout(timeout_ms);
        this
    }

    /// Renders the command as a shell-style line: environment entries, the
    /// program, the arguments (quoted when they hold spaces) and the
    /// redirections, separated by spaces.
    pub fn render(&self) -> (r: String)
        ensures
            r@ == command_rendered(*self),
    {
        let mut parts: Vec<String> = Vec::new();
        let n = self.envs.len();
        let mut i: usize = 0;
        while i < n
            invariant
                n == self.envs@.len(),
                0 <= i <= n,
                parts@.map_values(|p: String| p@) == env_parts(self.envs@.take(i as int)),
            decreases n - i,
        {
            let mut e = self.envs[i].0.clone();
            e.append("=");
            e.append(self.envs[i].1.as_str());
            parts.push(e);
            proof {
                assert(self.envs@.take(i + 1).drop_last() =~= self.envs@.take(i as int));
                assert(self.envs@.take(i + 1).last() == self.envs@[i as int]);
                assert(parts@.map_values(|p: String| p@) =~= env_parts(self.envs@.take(i + 1)));
            }
            i = i + 1;
        }
        proof {
            assert(self.envs@.take(n as int) =~= self.envs@);
        }
        parts.push(self.program.clone());
        let ghost base0 = env_parts(self.envs@) + seq![self.program@];
        proof {
            assert(parts@.map_values(|p: String| p@) =~= base0);
        }
        let m = self.args.len();
        let mut j: usize = 0;
        while j < m
            invariant
                m == self.args@.len(),
                0 <= j <= m,
                parts@.map_values(|p: String| p@) == base0 + arg_parts(self.args@.take(j as int)),
            decreases m - j,
        {
            let a = render_arg(self.args[j].as_str());
            proof {
                assert(a@ == arg_rendered(self.args@[j as int]@));
            }
            parts.push(a);
            proof {

                assert(self.args@.take(j + 1).drop_last() =~= self.args@.take(j as int));
                assert(self.args@.take(j + 1).last() == self.args@[j as int]);
                assert(arg_parts(self.args@.take(j + 1)) == arg_parts(
                    self.args@.take(j as int),
                ).push(arg_rendered(self.args@[j as int]@)));
                let ghost lhs = parts@.map_values(|p: String| p@);
                let ghost rhs = base0 + arg_parts(self.args@.take(j + 1));
                assert(lhs.len() == parts@.len());
                assert(parts@.len() == (base0 + arg_parts(self.args@.take(j as int))).len() + 1);
                assert(rhs.len() == base0.len() + arg_parts(self.args@.take(j + 1)).len());
                assert(arg_parts(self.args@.take(j + 1)).len() == arg_parts(self.args@.take(j as int)).len() + 1);
                assert(lhs.len() == rhs.len());
                assert forall|k: int| 0 <= k < lhs.len() implies lhs[k] == rhs[k] by {
                    let prev = base0 + arg_parts(self.args@.take(j as int));
                    if k < lhs.len() - 1 {
                        assert(lhs[k] == prev[k]);
                    } else {
                        assert(lhs[k] == arg_rendered(self.args@[j as int]@));
                    }
                }
                assert(lhs =~= rhs);
            }
            j = j + 1;
        }
        proof {
            assert(self.args@.take(m as int) =~= self.args@);
        }
        match &self.stdin {
            Some(p) => {
                parts.push(String::from_str("<"));
                match p {
                    StdinPipe::Text(s) => {
                        let q = quote_str(s.as_str());
                        parts.push(q);
                    },
                    StdinPipe::FromPath(s) => {
                        parts.push(s.clone());
                    },
                }
            },
            None => {},
        }
        match &self.stdout {
            Some(p) => {
                parts.push(String::from_str(">"));
                parts.push(p.clone());
            },
            None => {},
        }
        match &self.stderr {
            Some(p) => {
                parts.push(String::from_str("2>"));
                parts.push(p.clone());
            },
            None => {},
        }
        proof {
            assert(parts@.map_values(|p: String| p@) =~= command_parts(*self));
        }
        join_strings(&parts, " ")
    }
}

/// What running a command produced: how the child ended, and everything it
/// wrote to its standard output and standard error.
#[derive(Debug, Clone)]
pub struct ProcessOutput {
    pub status: ExitStatus,
    pub stdout: String,
    pub stderr: String,
}

impl ProcessOutput {
    pub fn new(status: ExitStatus, stdout: &str, stderr: &str) -> (r: Self)
        ensures
            r.status == status,
            r.stdout@ == stdout@,
            r.stderr@ == stderr@,
    {
        Self { status, stdout: String::from_str(stdout), stderr: String::from_str(stderr) }
    }

    /// An output with the given status and nothing written.
    pub fn from_exit_status(status: ExitStatus) -> (r: Self)
        ensures
            r.status == status,
            r.stdout@ == Seq::<char>::empty(),
            r.stderr@ == Seq::<char>::empty(),
    {
        Self { status, stdout: String::new(), stderr: String::new() }
    }
}

} // verus!
