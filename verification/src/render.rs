use vstd::prelude::*;

use crate::formatter::Formatter;
use crate::output::{Content, Output, RichText, Section, Status, StatusUpdates, Update};
use crate::points::pq_rendered;
use crate::strutil::{join, lemma_join_push, push_char};

verus! {

// ---------------------------------------------------------------------------
// The rendered form of a document, as a specification.
// ---------------------------------------------------------------------------

/// The next heading depth under a section: depths past three all render
/// alike, so the count stops there.
pub open spec fn next_depth(depth: nat) -> nat {
    if depth < 3 {
        depth + 1
    } else {
        3
    }
}

/// The rendering of a text block: wrapped as code when so marked, plain
/// otherwise.
pub open spec fn spec_render_rich(rt: RichText, fmt: Formatter) -> Seq<char> {
    if rt.code {
        fmt.code_pre@ + rt.text@ + fmt.code_post@
    } else {
        rt.text@
    }
}

/// The status column text of an update.
pub open spec fn status_word(st: Status) -> Seq<char> {
    match st {
        Status::Pass => "pass"@,
        Status::Fail { .. } => "fail"@,
    }
}

/// The length of the longest description among the updates.
pub open spec fn max_desc_len(us: Seq<Update>) -> nat
    decreases us.len(),
{
    if us.len() == 0 {
        0
    } else {
        let m = max_desc_len(us.drop_last());
        if us.last().description@.len() > m {
            us.last().description@.len()
        } else {
            m
        }
    }
}

/// One line of a status list: the description, dots padding every status
/// out to one column, and the outcome, with the lost points after a
/// failure.
pub open spec fn spec_update_line(u: Update, maxlen: nat) -> Seq<char> {
    let dots = Seq::<char>::new(4, |i: int| '.') + Seq::<char>::new(
        (maxlen - u.description@.len()) as nat,
        |i: int| '.',
    );
    let base = u.description@ + " "@ + dots + " "@ + status_word(u.status);
    match u.status {
        Status::Pass => base,
        Status::Fail { points_lost } => base + " (-"@ + pq_rendered(points_lost@) + ")"@,
    }
}

/// The lines of a status list, in order.
pub open spec fn update_lines(us: Seq<Update>, maxlen: nat) -> Seq<Seq<char>>
    decreases us.len(),
{
    if us.len() == 0 {
        Seq::empty()
    } else {
        update_lines(us.drop_last(), maxlen).push(spec_update_line(us.last(), maxlen))
    }
}

/// The rendered sections of a document, each a separate part.
pub open spec fn section_parts(ss: Seq<Section>, fmt: Formatter, depth: nat) -> Seq<Seq<char>>
    decreases ss,
{
    if ss.len() == 0 {
        Seq::empty()
    } else {
        section_parts(ss.drop_last(), fmt, depth).push(spec_render_section(ss.last(), fmt, depth))
    }
}

/// The rendered pieces of a content list, each a separate part.
pub open spec fn content_parts(cs: Seq<Content>, fmt: Formatter, depth: nat) -> Seq<Seq<char>>
    decreases cs,
{
    if cs.len() == 0 {
        Seq::empty()
    } else {
        content_parts(cs.drop_last(), fmt, depth).push(spec_render_content(cs.last(), fmt, depth))
    }
}

/// The feedback blocks of a status list: one nested section per update
/// that carries notes, titled after the update's description.
pub open spec fn feedback_parts(us: Seq<Update>, fmt: Formatter, depth: nat) -> Seq<Seq<char>>
    decreases us,
{
    if us.len() == 0 {
        Seq::empty()
    } else {
        let rest = feedback_parts(us.drop_last(), fmt, depth);
        match us.last().notes {
            Some(n) => rest.push(
                fmt.spec_heading(next_depth(depth), "feedback for "@ + us.last().description@)
                    + fmt.newline@ + spec_render_content(n, fmt, next_depth(depth)),
            ),
            None => rest,
        }
    }
}

/// The rendering of one section: its wrapped header, the format's line
/// separator, and its content pieces joined by a blank line.
pub open spec fn spec_render_section(s: Section, fmt: Formatter, depth: nat) -> Seq<char>
    decreases s,
{
    fmt.spec_heading(depth, s.header@) + fmt.newline@ + join(
        content_parts(s.content@, fmt, depth),
        "\n\n"@,
    )
}

/// The rendering of one piece of content.
pub open spec fn spec_render_content(c: Content, fmt: Formatter, depth: nat) -> Seq<char>
    decreases c,
{
    match c {
        Content::SubSection(sec) => spec_render_section(sec, fmt, next_depth(depth)),
        Content::Block(rt) => spec_render_rich(rt, fmt),
        Content::StatusList(su) => spec_render_status_list(su, fmt, depth),
        Content::Multiline(cs) => join(content_parts(cs@, fmt, depth), "\n\n"@),
    }
}

/// The rendering of a status list: the aligned lines joined by the line
/// separator; when any update carries notes, a paragraph break and the
/// feedback blocks follow.
pub open spec fn spec_render_status_list(su: StatusUpdates, fmt: Formatter, depth: nat) -> Seq<
    char,
>
    decreases su,
{
    let summary = join(update_lines(su.updates@, max_desc_len(su.updates@)), fmt.newline@);
    let fps = feedback_parts(su.updates@, fmt, depth);
    if fps.len() == 0 {
        summary
    } else {
        summary + fmt.paragraph@ + join(fps, "\n\n"@)
    }
}

/// The rendering of a whole document: its sections, starting at depth one,
/// joined by the format's paragraph separator.
pub open spec fn spec_render_output(o: Output, fmt: Formatter) -> Seq<char> {
    join(section_parts(o.sections@, fmt, 1), fmt.paragraph@)
}

// ---------------------------------------------------------------------------
// Laws of rendering.
// ---------------------------------------------------------------------------

/// Rendering is pure: any two renderings of one document under one format
/// are the same string.
pub proof fn lemma_render_pure(r1: Seq<char>, r2: Seq<char>, o: Output, fmt: Formatter)
    requires
        r1 == spec_render_output(o, fmt),
        r2 == spec_render_output(o, fmt),
    ensures
        r1 == r2,
{
}

/// No description in the list is longer than the longest.
pub proof fn lemma_max_desc_len_ge(us: Seq<Update>, j: int)
    requires
        0 <= j < us.len(),
    ensures
        us[j].description@.len() <= max_desc_len(us),
    decreases us.len(),
{
    if j < us.len() - 1 {
        lemma_max_desc_len_ge(us.drop_last(), j);
        assert(us.drop_last()[j] == us[j]);
    }
}

/// A status list renders to one line per update.
pub proof fn lemma_update_lines_len(us: Seq<Update>, maxlen: nat)
    ensures
        update_lines(us, maxlen).len() == us.len(),
    decreases us.len(),
{
    if us.len() > 0 {
        lemma_update_lines_len(us.drop_last(), maxlen);
    }
}

/// Each rendered line of a status list is the line of its update.
pub proof fn lemma_update_lines_index(us: Seq<Update>, maxlen: nat, j: int)
    requires
        0 <= j < us.len(),
    ensures
        update_lines(us, maxlen).len() == us.len(),
        update_lines(us, maxlen)[j] == spec_update_line(us[j], maxlen),
    decreases us.len(),
{
    lemma_update_lines_len(us, maxlen);
    if j < us.len() - 1 {
        lemma_update_lines_index(us.drop_last(), maxlen, j);
        assert(us.drop_last()[j] == us[j]);
    }
}

/// In every rendered status line the status column starts at the same
/// index, one past the longest description plus a five-character pad; the
/// four characters there spell the update's outcome.
pub proof fn lemma_status_column_aligned(us: Seq<Update>, j: int)
    requires
        0 <= j < us.len(),
    ensures
        ({
            let m = max_desc_len(us);
            let line = update_lines(us, m)[j];
            &&& line.len() >= m + 10
            &&& line.subrange(m + 6int, m + 10int) == status_word(us[j].status)
        }),
{
    lemma_update_lines_index(us, max_desc_len(us), j);
    let m = max_desc_len(us);
    let u = us[j];
    lemma_max_desc_len_ge(us, j);
    let len = u.description@.len();
    let dots = Seq::<char>::new(4, |i: int| '.') + Seq::<char>::new(
        (m - len) as nat,
        |i: int| '.',
    );
    assert(dots.len() == 4 + m - len);
    let base = u.description@ + " "@ + dots + " "@ + status_word(u.status);
    reveal_strlit(" ");
    reveal_strlit("pass");
    reveal_strlit("fail");
    assert(" "@.len() == 1);
    assert(status_word(u.status).len() == 4);
    let line = spec_update_line(u, m);
    assert(base.len() == m + 10);
    match u.status {
        Status::Pass => {
            assert(line == base);
        },
        Status::Fail { points_lost } => {
            assert(line == base + " (-"@ + pq_rendered(points_lost@) + ")"@);
        },
    }
    assert(line.subrange(m + 6int, m + 10int) =~= status_word(u.status));
}

// ---------------------------------------------------------------------------
// The renderer.
// ---------------------------------------------------------------------------

/// Joins the parts with the separator between each adjacent pair.
pub fn join_strings(parts: &Vec<String>, sep: &str) -> (r: String)
    ensures
        r@ == join(parts@.map_values(|p: String| p@), sep@),
{
    let ghost views = parts@.map_values(|p: String| p@);
    let mut acc = String::new();
    let mut j: usize = 0;
    let n = parts.len();
    while j < n
        invariant
            n == parts@.len(),
            views == parts@.map_values(|p: String| p@),
            0 <= j <= n,
            acc@ == join(views.take(j as int), sep@),
        decreases n - j,
    {
        if j > 0 {
            acc.append(sep);
        }
        acc.append(parts[j].as_str());
        proof {
            lemma_join_push(views.take(j as int), sep@, views[j as int]);
            assert(views.take(j + 1) =~= views.take(j as int).push(views[j as int]));
            if j == 0 {
                assert(views.take(0int) =~= Seq::<Seq<char>>::empty());
                assert(join(views.take(0int), sep@) =~= Seq::<char>::empty());
            }
        }
        j = j + 1;
    }
    proof {
        assert(views.take(n as int) =~= views);
    }
    acc
}

/// Renders one status line.
fn render_update_line(u: &Update, maxlen: usize) -> (r: String)
    requires
        u.description@.len() <= maxlen,
    ensures
        r@ == spec_update_line(*u, maxlen as nat),
{
    let len = u.description.as_str().unicode_len();
    let mut s = u.description.clone();
    push_char(&mut s, ' ');
    proof {
        reveal_strlit(" ");
        assert(s@ =~= u.description@ + " "@ + Seq::<char>::new(0, |i: int| '.'));
    }
    let mut k: usize = 0;
    while k < 4
        invariant
            0 <= k <= 4,
            s@ == u.description@ + " "@ + Seq::<char>::new(k as nat, |i: int| '.'),
        decreases 4 - k,
    {
        push_char(&mut s, '.');
        proof {
            assert(Seq::<char>::new((k + 1) as nat, |i: int| '.') =~= Seq::<char>::new(
                k as nat,
                |i: int| '.',
            ).push('.'));
            reveal_strlit(" ");
        }
        k = k + 1;
    }
    let extra = maxlen - len;
    let mut k2: usize = 0;
    while k2 < extra
        invariant
            0 <= k2 <= extra,
            extra == maxlen - u.description@.len(),
            s@ == u.description@ + " "@ + Seq::<char>::new(4, |i: int| '.') + Seq::<char>::new(
                k2 as nat,
                |i: int| '.',
            ),
        decreases extra - k2,
    {
        push_char(&mut s, '.');
        proof {
            assert(Seq::<char>::new((k2 + 1) as nat, |i: int| '.') =~= Seq::<char>::new(
                k2 as nat,
                |i: int| '.',
            ).push('.'));
        }
        k2 = k2 + 1;
    }
    push_char(&mut s, ' ');
    match &u.status {
        Status::Pass => {
            s.append("pass");
        },
        Status::Fail { points_lost } => {
            s.append("fail");
            s.append(" (-");
            let q = points_lost.render();
            s.append(q.as_str());
            s.append(")");
        },
    }
    proof {
        reveal_strlit(" ");
        assert(s@ =~= spec_update_line(*u, maxlen as nat));
    }
    s
}

/// Renders a status list: aligned lines, then any feedback blocks.
fn render_status_list(su: &StatusUpdates, fmt: &Formatter, depth: u8) -> (r: String)
    ensures
        r@ == spec_render_status_list(*su, *fmt, depth as nat),
    decreases su,
{
    let n = su.updates.len();
    // the longest description decides the status column
    let mut maxlen: usize = 0;
    let mut i: usize = 0;
    while i < n
        invariant
            n == su.updates@.len(),
            0 <= i <= n,
            maxlen == max_desc_len(su.updates@.take(i as int)),
        decreases n - i,
    {
        let len = su.updates[i].description.as_str().unicode_len();
        proof {
            assert(su.updates@.take(i + 1).drop_last() =~= su.updates@.take(i as int));
            assert(su.updates@.take(i + 1).last() == su.updates@[i as int]);
        }
        if len > maxlen {
            maxlen = len;
        }
        i = i + 1;
    }
    proof {
        assert(su.updates@.take(n as int) =~= su.updates@);
    }
    // each update becomes one line
    let mut lines: Vec<String> = Vec::new();
    let mut i2: usize = 0;
    while i2 < n
        invariant
            n == su.updates@.len(),
            maxlen == max_desc_len(su.updates@),
            0 <= i2 <= n,
            lines@.map_values(|p: String| p@) == update_lines(
                su.updates@.take(i2 as int),
                maxlen as nat,
            ),
        decreases n - i2,
    {
        proof {
            lemma_max_desc_len_ge(su.updates@, i2 as int);
        }
        let line = render_update_line(&su.updates[i2], maxlen);
        lines.push(line);
        proof {
            assert(su.updates@.take(i2 + 1).drop_last() =~= su.updates@.take(i2 as int));
            assert(su.updates@.take(i2 + 1).last() == su.updates@[i2 as int]);
            assert(lines@.map_values(|p: String| p@) =~= update_lines(
                su.updates@.take(i2 as int),
                maxlen as nat,
            ).push(spec_update_line(su.updates@[i2 as int], maxlen as nat)));
        }
        i2 = i2 + 1;
    }
    proof {
        assert(su.updates@.take(n as int) =~= su.updates@);
    }
    let summary = join_strings(&lines, fmt.newline.as_str());
    // the feedback blocks for updates that carry notes
    let mut fps: Vec<String> = Vec::new();
    let mut i3: usize = 0;
    while i3 < n
        invariant
            n == su.updates@.len(),
            0 <= i3 <= n,
            fps@.map_values(|p: String| p@) == feedback_parts(
                su.updates@.take(i3 as int),
                *fmt,
                depth as nat,
            ),
        decreases n - i3,
    {
        let u = &su.updates[i3];
        match &u.notes {
            Some(notes) => {
                let mut title = String::from_str("feedback for ");
                title.append(u.description.as_str());
                let d2 = if depth < 3 {
                    depth + 1
                } else {
                    3
                };
                let mut part = fmt.heading(d2, title.as_str());
                part.append(fmt.newline.as_str());
                let body = render_content(notes, fmt, d2);
                part.append(body.as_str());
                fps.push(part);
                proof {
                    assert(su.updates@.take(i3 + 1).drop_last() =~= su.updates@.take(i3 as int));
                    assert(su.updates@.take(i3 + 1).last() == su.updates@[i3 as int]);
                    assert(fps@.map_values(|p: String| p@) =~= feedback_parts(
                        su.updates@.take(i3 + 1),
                        *fmt,
                        depth as nat,
                    ));
                }
            },
            None => {
                proof {
                    assert(su.updates@.take(i3 + 1).drop_last() =~= su.updates@.take(i3 as int));
                    assert(su.updates@.take(i3 + 1).last() == su.updates@[i3 as int]);
                }
            },
        }
        i3 = i3 + 1;
    }
    proof {
        assert(su.updates@.take(n as int) =~= su.updates@);
    }
    if fps.len() == 0 {
        summary
    } else {
        let mut r = summary;
        r.append(fmt.paragraph.as_str());
        let joined = join_strings(&fps, "\n\n");
        r.append(joined.as_str());
        r
    }
}

/// Renders a list of content pieces joined by a blank line.
fn render_content_list(cs: &Vec<Content>, fmt: &Formatter, depth: u8) -> (r: String)
    ensures
        r@ == join(content_parts(cs@, *fmt, depth as nat), "\n\n"@),
    decreases cs@,
{
    let n = cs.len();
    let mut parts: Vec<String> = Vec::new();
    let mut i: usize = 0;
    while i < n
        invariant
            n == cs@.len(),
            0 <= i <= n,
            parts@.map_values(|p: String| p@) == content_parts(
                cs@.take(i as int),
                *fmt,
                depth as nat,
            ),
        decreases n - i,
    {
        let part = render_content(&cs[i], fmt, depth);
        parts.push(part);
        proof {
            assert(cs@.take(i + 1).drop_last() =~= cs@.take(i as int));
            assert(cs@.take(i + 1).last() == cs@[i as int]);
            assert(parts@.map_values(|p: String| p@) =~= content_parts(
                cs@.take(i + 1),
                *fmt,
                depth as nat,
            ));
        }
        i = i + 1;
    }
    proof {
        assert(cs@.take(n as int) =~= cs@);
    }
    join_strings(&parts, "\n\n")
}

/// Renders one piece of content.
fn render_content(c: &Content, fmt: &Formatter, depth: u8) -> (r: String)
    ensures
        r@ == spec_render_content(*c, *fmt, depth as nat),
    decreases c,
{
    match c {
        Content::SubSection(sec) => {
            let d2 = if depth < 3 {
                depth + 1
            } else {
                3
            };
            render_section(sec, fmt, d2)
        },
        Content::Block(rt) => {
            if rt.code {
                fmt.code(rt.text.as_str())
            } else {
                rt.text.clone()
            }
        },
        Content::StatusList(su) => render_status_list(su, fmt, depth),
        Content::Multiline(cs) => render_content_list(cs, fmt, depth),
    }
}

/// Renders one section: its header, then its content.
fn render_section(s: &Section, fmt: &Formatter, depth: u8) -> (r: String)
    ensures
        r@ == spec_render_section(*s, *fmt, depth as nat),
    decreases s,
{
    let mut r = fmt.heading(depth, s.header.as_str());
    r.append(fmt.newline.as_str());
    let body = render_content_list(&s.content, fmt, depth);
    r.append(body.as_str());
    r
}

impl Output {
    /// Renders the whole document under the given format. The result is a
    /// pure function of the document and the format.
    pub fn transform(&self, fmt: &Formatter) -> (r: String)
        ensures
            r@ == spec_render_output(*self, *fmt),
    {
        let n = self.sections.len();
        let mut parts: Vec<String> = Vec::new();
        let mut i: usize = 0;
        while i < n
            invariant
                n == self.sections@.len(),
                0 <= i <= n,
                parts@.map_values(|p: String| p@) == section_parts(
                    self.sections@.take(i as int),
                    *fmt,
                    1,
                ),
            decreases n - i,
        {
            let part = render_section(&self.sections[i], fmt, 1);
            parts.push(part);
            proof {
                assert(self.sections@.take(i + 1).drop_last() =~= self.sections@.take(i as int));
                assert(self.sections@.take(i + 1).last() == self.sections@[i as int]);
                assert(parts@.map_values(|p: String| p@) =~= section_parts(
                    self.sections@.take(i + 1),
                    *fmt,
                    1,
                ));
            }
            i = i + 1;
        }
        proof {
            assert(self.sections@.take(n as int) =~= self.sections@);
        }
        join_strings(&parts, fmt.paragraph.as_str())
    }
}

} // verus!
