use vstd::prelude::*;

use crate::output::{Content, Output, RichText, Section, Status, StatusUpdates, Update};
use crate::points::{find_char, pq_sum, PointQuantity};
use crate::stage::{StageResult, StageStatus};
use crate::strutil::{
    dec_rep_pad, digit, is_digit, lemma_dec_rep_digits, push_char, u64_to_string_pad,
};

verus! {

// ---------------------------------------------------------------------------
// The byte transform used for compare feedback.
// ---------------------------------------------------------------------------

/// The lowercase hexadecimal digit for a value below sixteen.
pub open spec fn hex_digit(d: nat) -> char {
    if d < 10 {
        digit(d)
    } else if d == 10 {
        'a'
    } else if d == 11 {
        'b'
    } else if d == 12 {
        'c'
    } else if d == 13 {
        'd'
    } else if d == 14 {
        'e'
    } else {
        'f'
    }
}

/// The hexadecimal rendering of a byte, without leading zeros.
pub open spec fn hex_rep(n: nat) -> Seq<char> {
    if n < 16 {
        seq![hex_digit(n)]
    } else {
        seq![hex_digit(n / 16), hex_digit(n % 16)]
    }
}

/// The line-number tag written at the start of each transformed line: the
/// number, zero padded to two digits, then a bar and a space.
pub open spec fn line_prefix(n: nat) -> Seq<char> {
    dec_rep_pad(n, 2) + "| "@
}

/// How one byte other than a line feed is written: printable bytes stand
/// for themselves, the common control bytes for their escapes, and any
/// other byte for its hexadecimal code.
pub open spec fn byte_trans(b: u8) -> Seq<char> {
    if b == 0 {
        "(\\x00)"@
    } else if b == 9 {
        "(\\t)"@
    } else if b == 11 {
        "(\\v)"@
    } else if b == 12 {
        "(\\f)"@
    } else if b == 13 {
        "(\\r)"@
    } else if 32 <= b <= 126 {
        seq![b as char]
    } else {
        "(0x"@ + hex_rep(b as nat) + ")"@
    }
}

/// The transform of the bytes after the first line tag; `next` is the
/// number of the next line. A line feed is written as a visible escape, a
/// real line break, and the next line's tag.
pub open spec fn transform_from(bs: Seq<u8>, next: nat) -> Seq<char>
    decreases bs.len(),
{
    if bs.len() == 0 {
        Seq::empty()
    } else if bs[0] == 10 {
        seq!['\\', 'n', '\n'] + line_prefix(next) + transform_from(
            bs.subrange(1, bs.len() as int),
            next + 1,
        )
    } else {
        byte_trans(bs[0]) + transform_from(bs.subrange(1, bs.len() as int), next)
    }
}

/// The whole transform: the first line's tag, then the transformed bytes.
pub open spec fn transformed(bs: Seq<u8>) -> Seq<char> {
    line_prefix(1) + transform_from(bs, 2)
}

/// Drops leading decimal digits.
pub open spec fn drop_digits(s: Seq<char>) -> Seq<char>
    decreases s.len(),
{
    if s.len() > 0 && is_digit(s[0]) {
        drop_digits(s.subrange(1, s.len() as int))
    } else {
        s
    }
}

/// Drops one line tag: leading digits and the bar and space after them.
pub open spec fn drop_prefix(s: Seq<char>) -> Seq<char> {
    let t = drop_digits(s);
    if t.len() >= 2 && t[0] == '|' && t[1] == ' ' {
        t.subrange(2, t.len() as int)
    } else {
        t
    }
}

/// Dropping digits never lengthens a string.
proof fn lemma_drop_digits_len(s: Seq<char>)
    ensures
        drop_digits(s).len() <= s.len(),
    decreases s.len(),
{
    if s.len() > 0 && is_digit(s[0]) {
        lemma_drop_digits_len(s.subrange(1, s.len() as int));
    }
}

/// Dropping a line tag never lengthens a string.
proof fn lemma_drop_prefix_len(s: Seq<char>)
    ensures
        drop_prefix(s).len() <= s.len(),
{
    lemma_drop_digits_len(s);
}

/// Undoes the transform of printable text: each line tag after a line
/// break is dropped and each visible line-feed escape becomes the line
/// feed it stood for.
pub open spec fn strip_transformed_tail(s: Seq<char>) -> Seq<char>
    decreases s.len(),
    via strip_transformed_tail_decreases
{
    if s.len() == 0 {
        Seq::empty()
    } else if s.len() >= 3 && s[0] == '\\' && s[1] == 'n' && s[2] == '\n' {
        seq!['\n'] + strip_transformed_tail(drop_prefix(s.subrange(3, s.len() as int)))
    } else {
        seq![s[0]] + strip_transformed_tail(s.subrange(1, s.len() as int))
    }
}

#[via_fn]
proof fn strip_transformed_tail_decreases(s: Seq<char>) {
    if s.len() >= 3 && s[0] == '\\' && s[1] == 'n' && s[2] == '\n' {
        lemma_drop_prefix_len(s.subrange(3, s.len() as int));
    }
}

/// Undoes the whole transform of printable text: the first line tag is
/// dropped, then the rest is undone.
pub open spec fn strip_transformed(s: Seq<char>) -> Seq<char> {
    strip_transformed_tail(drop_prefix(s))
}

/// The characters that the bytes spell, one character per byte.
pub open spec fn bytes_chars(bs: Seq<u8>) -> Seq<char> {
    bs.map_values(|b: u8| b as char)
}

/// Whether every byte is printable or a line feed.
pub open spec fn printable_or_lf(bs: Seq<u8>) -> bool {
    forall|i: int| 0 <= i < bs.len() ==> (32 <= #[trigger] bs[i] <= 126 || bs[i] == 10)
}

/// A line tag holds only digits before its bar and space, so dropping a
/// tag from tagged text gives back exactly the text after the tag.
proof fn lemma_drop_prefix_of_tagged(n: nat, t: Seq<char>)
    ensures
        drop_prefix(line_prefix(n) + t) == t,
{
    reveal_strlit("| ");
    let p = dec_rep_pad(n, 2);
    lemma_pad_digits(n, 2);
    assert(("| "@ + t)[0] == '|');
    lemma_drop_digits_concat(p, "| "@ + t);
    assert(line_prefix(n) + t =~= p + ("| "@ + t));
    let after = drop_digits(line_prefix(n) + t);
    assert(after == drop_digits("| "@ + t));
    assert(("| "@ + t)[0] == '|');
    assert(after == "| "@ + t);
    assert(after[0] == '|' && after[1] == ' ');
    assert(after.subrange(2, after.len() as int) =~= t);
}

/// A padded decimal rendering holds only digits.
proof fn lemma_pad_digits(n: nat, width: nat)
    ensures
        forall|i: int|
            0 <= i < dec_rep_pad(n, width).len() ==> is_digit(#[trigger] dec_rep_pad(n, width)[i]),
    decreases width,
{
    lemma_dec_rep_digits(n);
    if crate::strutil::dec_rep(n).len() >= width {
    } else {
        lemma_pad_digits(n, (width - 1) as nat);
        let inner = dec_rep_pad(n, (width - 1) as nat);
        assert(dec_rep_pad(n, width) == seq!['0'] + inner);
        assert forall|i: int| 0 <= i < dec_rep_pad(n, width).len() implies is_digit(
            #[trigger] dec_rep_pad(n, width)[i],
        ) by {
            if i == 0 {
                assert(dec_rep_pad(n, width)[i] == '0');
            } else {
                assert(dec_rep_pad(n, width)[i] == inner[i - 1]);
            }
        }
    }
}

/// Dropping digits from digits followed by text that starts with no digit
/// leaves exactly the text.
proof fn lemma_drop_digits_concat(d: Seq<char>, t: Seq<char>)
    requires
        forall|i: int| 0 <= i < d.len() ==> is_digit(#[trigger] d[i]),
        t.len() == 0 || !is_digit(t[0]),
    ensures
        drop_digits(d + t) == t,
    decreases d.len(),
{
    if d.len() == 0 {
        assert(d + t =~= t);
        if t.len() > 0 {
            assert(!is_digit(t[0]));
        }
    } else {
        assert((d + t)[0] == d[0]);
        assert((d + t).subrange(1, (d + t).len() as int) =~= d.subrange(1, d.len() as int) + t);
        assert(forall|i: int|
            0 <= i < d.subrange(1, d.len() as int).len() ==> is_digit(
                #[trigger] d.subrange(1, d.len() as int)[i],
            ));
        lemma_drop_digits_concat(d.subrange(1, d.len() as int), t);
    }
}

/// The transform of printable-or-line-feed bytes never starts with a real
/// line break.
proof fn lemma_transform_no_leading_newline(bs: Seq<u8>, next: nat)
    requires
        printable_or_lf(bs),
    ensures
        transform_from(bs, next).len() == 0 || transform_from(bs, next)[0] != '\n',
{
    if bs.len() > 0 {
        if bs[0] == 10 {
        } else {
            assert(32 <= bs[0] <= 126);
            assert(byte_trans(bs[0]) == seq![bs[0] as char]);
            assert(transform_from(bs, next)[0] == bs[0] as char);
        }
    }
}

/// Undoing the transform of printable-or-line-feed bytes gives back their
/// characters, whatever line number the transform continues from.
proof fn lemma_strip_transform_from(bs: Seq<u8>, next: nat)
    requires
        printable_or_lf(bs),
    ensures
        strip_transformed_tail(transform_from(bs, next)) == bytes_chars(bs),
    decreases bs.len(),
{
    let s = transform_from(bs, next);
    if bs.len() == 0 {
        assert(bytes_chars(bs) =~= Seq::<char>::empty());
    } else {
        let rest = bs.subrange(1, bs.len() as int);
        assert(printable_or_lf(rest)) by {
            assert(forall|i: int| 0 <= i < rest.len() ==> rest[i] == bs[i + 1]);
        }
        if bs[0] == 10 {
            let tail = transform_from(rest, next + 1);
            assert(s =~= seq!['\\', 'n', '\n'] + (line_prefix(next) + tail));
            assert(s.len() >= 3 && s[0] == '\\' && s[1] == 'n' && s[2] == '\n');
            assert(s.subrange(3, s.len() as int) =~= line_prefix(next) + tail);
            lemma_drop_prefix_of_tagged(next, tail);
            lemma_strip_transform_from(rest, next + 1);
            assert(strip_transformed_tail(s) == seq!['\n'] + bytes_chars(rest));
            assert(bytes_chars(bs) =~= seq!['\n'] + bytes_chars(rest)) by {
                assert(bytes_chars(bs)[0] == '\n');
            }
        } else {
            assert(32 <= bs[0] <= 126);
            assert(byte_trans(bs[0]) == seq![bs[0] as char]);
            let tail = transform_from(rest, next);
            assert(s =~= seq![bs[0] as char] + tail);
            // the escape pattern cannot appear here: a real line break
            // only ever follows a visible escape
            if s.len() >= 3 && s[0] == '\\' && s[1] == 'n' && s[2] == '\n' {
                if rest.len() == 0 {
                    assert(false);
                } else if rest[0] == 10 {
                    assert(tail[0] == '\\');
                    assert(s[1] == '\\');
                    assert(false);
                } else {
                    assert(tail[0] == rest[0] as char);
                    let rest2 = rest.subrange(1, rest.len() as int);
                    assert(printable_or_lf(rest2)) by {
                        assert(forall|i: int| 0 <= i < rest2.len() ==> rest2[i] == rest[i + 1]);
                    }
                    let tail2 = transform_from(rest2, next);
                    assert(tail =~= seq![rest[0] as char] + tail2);
                    lemma_transform_no_leading_newline(rest2, next);
                    assert(s[2] == tail[1]);
                    if tail2.len() == 0 {
                        assert(false);
                    } else {
                        assert(tail[1] == tail2[0]);
                        assert(false);
                    }
                }
            }
            assert(strip_transformed_tail(s) == seq![s[0]] + strip_transformed_tail(
                s.subrange(1, s.len() as int),
            ));
            assert(s.subrange(1, s.len() as int) =~= tail);
            lemma_strip_transform_from(rest, next);
            assert(bytes_chars(bs) =~= seq![bs[0] as char] + bytes_chars(rest)) by {
                assert(bytes_chars(bs)[0] == bs[0] as char);
            }
        }
    }
}

/// Stripping the line tags and line-feed escapes from the transform of
/// printable text and line feeds gives the original text back: the
/// transform loses nothing.
pub proof fn lemma_transform_round_trip(bs: Seq<u8>)
    requires
        printable_or_lf(bs),
    ensures
        strip_transformed(transformed(bs)) == bytes_chars(bs),
{
    lemma_drop_prefix_of_tagged(1, transform_from(bs, 2));
    lemma_strip_transform_from(bs, 2);
}

/// The lowercase hexadecimal digit character for a value below sixteen.
fn hex_digit_char(d: u8) -> (c: char)
    requires
        d < 16,
    ensures
        c == hex_digit(d as nat),
{
    if d < 10 {
        crate::strutil::digit_char(d as u64)
    } else if d == 10 {
        'a'
    } else if d == 11 {
        'b'
    } else if d == 12 {
        'c'
    } else if d == 13 {
        'd'
    } else if d == 14 {
        'e'
    } else {
        'f'
    }
}

/// Appends one line tag to the string.
fn push_line_prefix(s: &mut String, n: u64)
    ensures
        final(s)@ == old(s)@ + line_prefix(n as nat),
{
    let tag = u64_to_string_pad(n, 2);
    s.append(tag.as_str());
    s.append("| ");
}

/// Renders bytes as numbered, visible text: each line gets a two-digit
/// tag, printable bytes stand for themselves, and control bytes appear as
/// escapes or hexadecimal codes.
pub fn transform_bytes(bytes: &Vec<u8>) -> (r: String)
    requires
        bytes@.len() + 2 <= usize::MAX,
    ensures
        r@ == transformed(bytes@),
{
    let mut s = String::new();
    push_line_prefix(&mut s, 1);
    let n = bytes.len();
    let mut next: u64 = 2;
    let mut i: usize = 0;
    proof {
        assert(bytes@.subrange(0, n as int) =~= bytes@);
        assert(s@ =~= line_prefix(1));
    }
    while i < n
        invariant
            n == bytes@.len(),
            0 <= i <= n,
            next <= 2 + i,
            n + 2 <= usize::MAX,
            s@ + transform_from(bytes@.subrange(i as int, n as int), next as nat) == transformed(
                bytes@,
            ),
        decreases n - i,
    {
        let ghost rest = bytes@.subrange(i as int, n as int);
        proof {
            assert(rest[0] == bytes@[i as int]);
            assert(rest.subrange(1, rest.len() as int) =~= bytes@.subrange(i + 1, n as int));
        }
        let b = bytes[i];
        if b == 0 {
            s.append("(\\x00)");
        } else if b == 9 {
            s.append("(\\t)");
        } else if b == 10 {
            s.append("\\n\n");
            proof {
                reveal_strlit("\\n\n");
                assert("\\n\n"@ =~= seq!['\\', 'n', '\n']);
            }
            push_line_prefix(&mut s, next);
            next = next + 1;
        } else if b == 11 {
            s.append("(\\v)");
        } else if b == 12 {
            s.append("(\\f)");
        } else if b == 13 {
            s.append("(\\r)");
        } else if 32 <= b && b <= 126 {
            push_char(&mut s, b as char);
            proof {
                assert(byte_trans(b) == seq![b as char]);
            }
        } else {
            s.append("(0x");
            if b < 16 {
                push_char(&mut s, hex_digit_char(b));
            } else {
                push_char(&mut s, hex_digit_char(b / 16));
                push_char(&mut s, hex_digit_char(b % 16));
            }
            s.append(")");
            proof {
                if b < 16 {
                    assert(hex_rep(b as nat) =~= seq![hex_digit(b as nat)]);
                } else {
                    assert(hex_rep(b as nat) =~= seq![
                        hex_digit((b / 16) as nat),
                        hex_digit((b % 16) as nat),
                    ]);
                }
            }
        }
        proof {
            assert(s@ + transform_from(bytes@.subrange(i + 1, n as int), next as nat) =~= transformed(
                bytes@,
            ));
        }
        i = i + 1;
    }
    proof {
        assert(bytes@.subrange(n as int, n as int) =~= Seq::<u8>::empty());
        assert(s@ + Seq::<char>::empty() =~= s@);
    }
    s
}


// ---------------------------------------------------------------------------
// Configuration of the compare stage.
// ---------------------------------------------------------------------------

/// How a student file is held against an expected file.
#[derive(Debug, Clone, Copy, PartialEq, Eq, Structural)]
pub enum CompareType {
    Diff,
    Grep,
    ReverseGrep,
}

/// The name of a compare type as written in feedback.
pub open spec fn compare_type_rendered(t: CompareType) -> Seq<char> {
    match t {
        CompareType::Diff => "diff"@,
        CompareType::Grep => "grep"@,
        CompareType::ReverseGrep => "reverse grep"@,
    }
}

impl CompareType {
    /// Renders the compare type as written in feedback.
    pub fn render(&self) -> (r: String)
        ensures
            r@ == compare_type_rendered(*self),
    {
        match self {
            CompareType::Diff => String::from_str("diff"),
            CompareType::Grep => String::from_str("grep"),
            CompareType::ReverseGrep => String::from_str("reverse grep"),
        }
    }
}

/// One comparison: the student file, the candidate expected files tried in
/// order, how to compare, what a mismatch costs, and whether feedback may
/// show the outputs.
#[derive(Debug, Clone)]
pub struct CompareConfig {
    pub expected: Vec<String>,
    pub student_file: String,
    pub compare_type: CompareType,
    pub points: PointQuantity,
    pub show_output: bool,
}

/// The compare stage's configuration: its list of comparisons.
#[derive(Debug, Clone)]
pub struct ComparesConfig {
    pub compares: Vec<CompareConfig>,
}

/// What one comparison found: the student file was missing from the
/// workspace, some candidate matched, or none did. For a mismatch whose
/// feedback may show the outputs, the two files' contents come along.
#[derive(Debug)]
pub enum CompareOutcome {
    MissingStudentFile,
    Matched,
    Mismatched { expected_bytes: Option<Vec<u8>>, student_bytes: Option<Vec<u8>> },
}

// ---------------------------------------------------------------------------
// File basenames, for feedback titles.
// ---------------------------------------------------------------------------

/// The part of a path after its last slash.
pub open spec fn basename(s: Seq<char>) -> Seq<char>
    decreases s.len(),
    via basename_decreases
{
    let f = find_char(s, '/');
    if f < 0 {
        s
    } else {
        basename(s.subrange(f + 1, s.len() as int))
    }
}

#[via_fn]
proof fn basename_decreases(s: Seq<char>) {
    crate::points::lemma_find_char_bound(s, '/');
}

/// The basename of a path: what follows the last slash, or the whole path
/// when it has none.
pub fn basename_of(path: &str) -> (r: String)
    ensures
        r@ == basename(path@),
{
    let n = path.unicode_len();
    let mut last: usize = n;
    let mut i: usize = 0;
    while i < n
        invariant
            n == path@.len(),
            0 <= i <= n,
            last <= n,
            last == n ==> forall|k: int| 0 <= k < i ==> path@[k] != '/',
            last < n ==> path@[last as int] == '/' && last < i && forall|k: int|
                last < k < i ==> path@[k] != '/',
        decreases n - i,
    {
        if path.get_char(i) == '/' {
            last = i;
        }
        i = i + 1;
    }
    if last == n {
        proof {
            lemma_basename_no_slash(path@);
        }
        String::from_str(path)
    } else {
        let r = path.substring_char(last + 1, n);
        proof {
            lemma_basename_last_slash(path@, last as int);
        }
        String::from_str(r)
    }
}

/// A path without a slash is its own basename.
proof fn lemma_basename_no_slash(s: Seq<char>)
    requires
        forall|k: int| 0 <= k < s.len() ==> s[k] != '/',
    ensures
        basename(s) == s,
{
    crate::points::lemma_find_char_absent(s, '/');
}

/// The basename of a path is what follows its last slash.
proof fn lemma_basename_last_slash(s: Seq<char>, last: int)
    requires
        0 <= last < s.len(),
        s[last] == '/',
        forall|k: int| last < k < s.len() ==> s[k] != '/',
    ensures
        basename(s) == s.subrange(last + 1, s.len() as int),
    decreases s.len(),
{
    crate::points::lemma_find_char_bound(s, '/');
    crate::points::lemma_find_char_found(s, '/', last);
    let f = find_char(s, '/');
    crate::points::lemma_find_char_is_first(s, '/');
    assert(0 <= f <= last);
    let rest = s.subrange(f + 1, s.len() as int);
    if f == last {
        lemma_basename_no_slash(rest);
        assert(basename(s) == rest);
    } else {
        assert(rest[last - f - 1] == '/');
        assert(forall|k: int| last - f - 1 < k < rest.len() ==> rest[k] != '/');
        lemma_basename_last_slash(rest, last - f - 1);
        assert(rest.subrange(last - f, rest.len() as int) =~= s.subrange(
            last + 1,
            s.len() as int,
        ));
    }
}

// ---------------------------------------------------------------------------
// The compare stage's decisions.
// ---------------------------------------------------------------------------

/// Classifies what a byte-compare utility reported: a zero exit means the
/// files are identical, an exit of one means they differ, and anything
/// else is a fault of the comparator itself.
pub fn diff_compare_outcome(status: &crate::process::ExitStatus) -> (r: Result<bool, String>)
    ensures
        *status is Success ==> r == Ok::<bool, String>(true),
        (*status matches crate::process::ExitStatus::Failure(c) && c == 1) ==> r == Ok::<
            bool,
            String,
        >(false),
        (*status matches crate::process::ExitStatus::Failure(c) && c != 1) ==> r is Err,
        (*status is Timeout || *status is Signal) ==> r is Err,
    {
    match status {
        crate::process::ExitStatus::Success => Ok(true),
        crate::process::ExitStatus::Failure(code) => {
            if *code == 1 {
                Ok(false)
            } else {
                Err(String::from_str("the byte compare utility itself failed"))
            }
        },
        _ => Err(String::from_str("the byte compare utility did not run to completion")),
    }
}

/// The command that byte-compares two files.
pub fn diff_command(file1: &str, file2: &str) -> (r: crate::process::Command)
    ensures
        r.program@ == "cmp"@,
        r.args@.len() == 2,
        r.args@[0]@ == file1@,
        r.args@[1]@ == file2@,
        r.envs@.len() == 0,
        r.cwd is None,
        r.stdin is None,
        r.stdout is None,
        r.stderr is None,
        r.timeout_ms is None,
    {
    let cmd = crate::process::Command::new("cmp").arg(file1).arg(file2);
    proof {
        assert(cmd.args@[0] == cmd.args@.drop_last()[0]);
    }
    cmd
}

/// The description of one comparison's status line.
pub open spec fn compare_desc(cfg: CompareConfig) -> Seq<char> {
    "Comparing "@ + cfg.student_file@ + " ("@ + compare_type_rendered(cfg.compare_type) + ")"@
}

/// The note attached when the student file is missing.
pub open spec fn missing_note(cfg: CompareConfig) -> Seq<char> {
    "Could not find file "@ + cfg.student_file@ + " in root of workspace"@
}

/// The note attached when outputs stay hidden.
pub open spec fn hidden_note(cfg: CompareConfig) -> Seq<char> {
    "Actual "@ + basename(cfg.student_file@) + " did not match expected "@ + basename(
        cfg.student_file@,
    ) + "\nThe instructor has chosen to keep this output hidden."@
}

/// Whether a mismatch outcome carries everything its feedback needs: for
/// shown output the compare must be a byte compare and both contents must
/// be present and of renderable size.
pub open spec fn feedback_defined(cfg: CompareConfig, oc: CompareOutcome) -> bool {
    match oc {
        CompareOutcome::Mismatched { expected_bytes, student_bytes } => !cfg.show_output || (
        cfg.compare_type is Diff && (match expected_bytes {
            Some(e) => e@.len() + 2 <= usize::MAX,
            None => false,
        }) && (match student_bytes {
            Some(st) => st@.len() + 2 <= usize::MAX,
            None => false,
        })),
        _ => true,
    }
}

/// Whether one rendered update reports one comparison's outcome as the
/// stage writes it.
pub open spec fn update_matches(u: Update, cfg: CompareConfig, oc: CompareOutcome) -> bool {
    &&& u.description@ == compare_desc(cfg)
    &&& match oc {
        CompareOutcome::Matched => u.status is Pass && u.notes is None,
        CompareOutcome::MissingStudentFile => {
            &&& u.status matches Status::Fail { points_lost } && points_lost == cfg.points
            &&& u.notes matches Some(n) && n matches Content::Block(t) && !t.code && t.text@
                == missing_note(cfg)
        },
        CompareOutcome::Mismatched { expected_bytes, student_bytes } => {
            &&& u.status matches Status::Fail { points_lost } && points_lost == cfg.points
            &&& if !cfg.show_output {
                u.notes matches Some(n) && n matches Content::Block(t) && !t.code && t.text@
                    == hidden_note(cfg)
            } else {
                match (expected_bytes, student_bytes, u.notes) {
                    (Some(e), Some(st), Some(n)) => match n {
                        Content::Multiline(parts) => parts@.len() == 2 && (match parts@[0] {
                            Content::SubSection(es) => es.header@ == "Expected "@ + basename(
                                cfg.student_file@,
                            ) && es.content@.len() == 1 && (match es.content@[0] {
                                Content::Block(et) => et.code && et.text@ == transformed(e@),
                                _ => false,
                            }),
                            _ => false,
                        }) && (match parts@[1] {
                            Content::SubSection(asec) => asec.header@ == "Actual "@ + basename(
                                cfg.student_file@,
                            ) && asec.content@.len() == 1 && (match asec.content@[0] {
                                Content::Block(at) => at.code && at.text@ == transformed(st@),
                                _ => false,
                            }),
                            _ => false,
                        }),
                        _ => false,
                    },
                    _ => false,
                }
            }
        },
    }
}

/// What one comparison's outcome deducts: nothing for a match, the
/// configured points otherwise.
pub open spec fn outcome_deduction(cfg: CompareConfig, oc: CompareOutcome) -> Option<nat> {
    match oc {
        CompareOutcome::Matched => Some(0nat),
        _ => cfg.points@,
    }
}

/// The points the stage deducts, folded left over the comparisons from a
/// starting quantity.
pub open spec fn lost_from(
    acc: Option<nat>,
    cfgs: Seq<CompareConfig>,
    ocs: Seq<CompareOutcome>,
) -> Option<nat>
    decreases cfgs.len(),
{
    if cfgs.len() == 0 || ocs.len() == 0 {
        acc
    } else {
        lost_from(
            pq_sum(acc, outcome_deduction(cfgs[0], ocs[0])),
            cfgs.subrange(1, cfgs.len() as int),
            ocs.subrange(1, ocs.len() as int),
        )
    }
}

/// The sum of every partial deduction the configuration can charge.
pub open spec fn partial_points_total(cfgs: Seq<CompareConfig>) -> nat
    decreases cfgs.len(),
{
    if cfgs.len() == 0 {
        0
    } else {
        partial_points_total(cfgs.drop_last()) + match cfgs.last().points@ {
            Some(p) => p,
            None => 0,
        }
    }
}

/// A prefix of the configuration never charges more than the whole.
proof fn lemma_partial_total_mono(cfgs: Seq<CompareConfig>, k: int)
    requires
        0 <= k <= cfgs.len(),
    ensures
        partial_points_total(cfgs.take(k)) <= partial_points_total(cfgs),
    decreases cfgs.len() - k,
{
    if k < cfgs.len() {
        lemma_partial_total_mono(cfgs, k + 1);
        assert(cfgs.take(k + 1).drop_last() =~= cfgs.take(k));
        assert(cfgs.take(k + 1).last() == cfgs[k]);
    } else {
        assert(cfgs.take(k) =~= cfgs);
    }
}

/// Builds the compare stage's result from each comparison's outcome: one
/// "Compare Output" section holding one status line per comparison, and a
/// continue status that deducts the configured points of every comparison
/// that did not match. A mismatch whose feedback cannot be produced is a
/// fault of the grader.
pub fn compare_stage_result(config: &ComparesConfig, outcomes: &Vec<CompareOutcome>) -> (r:
    Result<StageResult, String>)
    requires
        outcomes@.len() == config.compares@.len(),
        partial_points_total(config.compares@) <= u64::MAX,
    ensures
        ({
            let bad = exists|j: int|
                0 <= j < config.compares@.len() && !feedback_defined(
                    #[trigger] config.compares@[j],
                    outcomes@[j],
                );
            &&& (r is Err) == bad
            &&& r matches Ok(sr) ==> {
                &&& sr.status matches StageStatus::Continue { points_lost } && points_lost@
                    == lost_from(Some(0nat), config.compares@, outcomes@)
                &&& match sr.output {
                    Some(o) => o.sections@.len() == 1 && o.sections@[0].header@
                        == "Compare Output"@ && o.sections@[0].content@.len() == 1 && (
                    match o.sections@[0].content@[0] {
                        Content::StatusList(su) => su.updates@.len() == config.compares@.len()
                            && (forall|j: int|
                            0 <= j < config.compares@.len() ==> update_matches(
                                #[trigger] su.updates@[j],
                                config.compares@[j],
                                outcomes@[j],
                            )),
                        _ => false,
                    }),
                    None => false,
                }
            }
        }),
{
    let ghost cfgs = config.compares@;
    let ghost ocs = outcomes@;
    let n = config.compares.len();
    let mut su = StatusUpdates::new();
    let mut lost = PointQuantity::zero();
    let mut i: usize = 0;
    proof {
        assert(cfgs.subrange(0, n as int) =~= cfgs);
        assert(ocs.subrange(0, n as int) =~= ocs);
        assert(partial_points_total(cfgs.take(0int)) == 0);
    }
    while i < n
        invariant
            n == cfgs.len(),
            n == ocs.len(),
            cfgs == config.compares@,
            ocs == outcomes@,
            partial_points_total(cfgs) <= u64::MAX,
            0 <= i <= n,
            su.updates@.len() == i,
            forall|j: int|
                0 <= j < i ==> update_matches(#[trigger] su.updates@[j], cfgs[j], ocs[j]),
            forall|j: int| 0 <= j < i ==> feedback_defined(#[trigger] cfgs[j], ocs[j]),
            lost@ matches Some(v) ==> v <= partial_points_total(cfgs.take(i as int)),
            lost_from(Some(0nat), cfgs, ocs) == lost_from(
                lost@,
                cfgs.subrange(i as int, n as int),
                ocs.subrange(i as int, n as int),
            ),
        decreases n - i,
    {
        let cfg = &config.compares[i];
        let oc = &outcomes[i];
        let mut desc = String::from_str("Comparing ");
        desc.append(cfg.student_file.as_str());
        desc.append(" (");
        let tr = cfg.compare_type.render();
        desc.append(tr.as_str());
        desc.append(")");
        let ghost crest = cfgs.subrange(i as int, n as int);
        let ghost orest = ocs.subrange(i as int, n as int);
        proof {
            assert(crest[0] == cfgs[i as int]);
            assert(orest[0] == ocs[i as int]);
            assert(crest.subrange(1, crest.len() as int) =~= cfgs.subrange(i + 1, n as int));
            assert(orest.subrange(1, orest.len() as int) =~= ocs.subrange(i + 1, n as int));
            lemma_partial_total_mono(cfgs, i + 1);
            assert(cfgs.take(i + 1).drop_last() =~= cfgs.take(i as int));
            assert(cfgs.take(i + 1).last() == cfgs[i as int]);
        }
        let update: Update;
        match oc {
            CompareOutcome::Matched => {
                update = Update::new_pass(desc.as_str());
                lost = lost.add(PointQuantity::zero());
            },
            CompareOutcome::MissingStudentFile => {
                let mut note = String::from_str("Could not find file ");
                note.append(cfg.student_file.as_str());
                note.append(" in root of workspace");
                update = Update::new_fail(desc.as_str(), cfg.points).notes(
                    Content::Block(RichText::from_string(note)),
                );
                lost = lost.add(cfg.points);
            },
            CompareOutcome::Mismatched { expected_bytes, student_bytes } => {
                let notes: Content;
                if !cfg.show_output {
                    let base = basename_of(cfg.student_file.as_str());
                    let mut note = String::from_str("Actual ");
                    note.append(base.as_str());
                    note.append(" did not match expected ");
                    note.append(base.as_str());
                    note.append("\nThe instructor has chosen to keep this output hidden.");
                    notes = Content::Block(RichText::from_string(note));
                } else {
                    let is_diff = match cfg.compare_type {
                        CompareType::Diff => true,
                        _ => false,
                    };
                    if !is_diff {
                        return Err(
                            String::from_str(
                                "only byte compares can show expected and actual output",
                            ),
                        );
                    }
                    match (expected_bytes, student_bytes) {
                        (Some(e), Some(st)) => {
                            if e.len() > usize::MAX - 2 || st.len() > usize::MAX - 2 {
                                return Err(
                                    String::from_str("compared file too large to render"),
                                );
                            }
                            let base = basename_of(cfg.student_file.as_str());
                            let mut eh = String::from_str("Expected ");
                            eh.append(base.as_str());
                            let mut ah = String::from_str("Actual ");
                            ah.append(base.as_str());
                            let etext = transform_bytes(e);
                            let atext = transform_bytes(st);
                            let esec = Section::new(eh.as_str()).content(
                                Content::Block(RichText::from_string_code(etext)),
                            );
                            let asec = Section::new(ah.as_str()).content(
                                Content::Block(RichText::from_string_code(atext)),
                            );
                            let mut parts: Vec<Content> = Vec::new();
                            parts.push(Content::SubSection(esec));
                            parts.push(Content::SubSection(asec));
                            notes = Content::Multiline(parts);
                        },
                        _ => {
                            return Err(
                                String::from_str("a mismatch to be shown came without contents"),
                            );
                        },
                    }
                }
                update = Update::new_fail(desc.as_str(), cfg.points).notes(notes);
                lost = lost.add(cfg.points);
            },
        }
        su.add_update(update);
        proof {
            assert(forall|j: int|
                0 <= j < i ==> update_matches(#[trigger] su.updates@[j], cfgs[j], ocs[j]));
            assert(update_matches(su.updates@[i as int], cfgs[i as int], ocs[i as int]));
        }
        i = i + 1;
    }
    proof {
        assert(cfgs.subrange(n as int, n as int) =~= Seq::<CompareConfig>::empty());
        assert(ocs.subrange(n as int, n as int) =~= Seq::<CompareOutcome>::empty());
    }
    let section = Section::new("Compare Output").content(Content::StatusList(su));
    let output = Output::new().section(section);
    Ok(StageResult::new_continue(lost).with_output(output))
}

} // verus!
