use vstd::prelude::*;

use crate::points::PointQuantity;
use crate::strutil::{contains_seq, str_contains};

verus! {

/// A block of text, rendered either plainly or as a code block.
#[derive(Debug)]
pub struct RichText {
    pub text: String,
    pub code: bool,
}

impl RichText {
    pub fn new(text: &str) -> (r: Self)
        ensures
            r.text@ == text@,
            !r.code,
    {
        Self { text: String::from_str(text), code: false }
    }

    /// A block rendered as code.
    pub fn new_code(text: &str) -> (r: Self)
        ensures
            r.text@ == text@,
            r.code,
    {
        Self { text: String::from_str(text), code: true }
    }

    pub fn from_string(text: String) -> (r: Self)
        ensures
            r.text@ == text@,
            !r.code,
    {
        Self { text, code: false }
    }

    pub fn from_string_code(text: String) -> (r: Self)
        ensures
            r.text@ == text@,
            r.code,
    {
        Self { text, code: true }
    }
}

impl Default for RichText {
    /// An empty plain-text block.
    fn default() -> (r: Self)
        ensures
            r.text@ == Seq::<char>::empty(),
            !r.code,
    {
        Self { text: String::new(), code: false }
    }
}

/// The outcome recorded by one status update.
#[derive(Debug, Clone, Copy)]
pub enum Status {
    Pass,
    Fail { points_lost: PointQuantity },
}

/// One line of a status list: a description, its outcome, and optional
/// feedback shown beneath the list.
#[derive(Debug)]
pub struct Update {
    pub description: String,
    pub status: Status,
    pub notes: Option<Content>,
}

impl Update {
    /// A passing update.
    pub fn new_pass(description: &str) -> (r: Self)
        ensures
            r.description@ == description@,
            r.status is Pass,
            r.notes is None,
    {
        Self { description: String::from_str(description), status: Status::Pass, notes: None }
    }

    /// A failing update that loses the given points.
    pub fn new_fail(description: &str, points_lost: PointQuantity) -> (r: Self)
        ensures
            r.description@ == description@,
            r.status matches Status::Fail { points_lost: p } && p == points_lost,
            r.notes is None,
    {
        Self {
            description: String::from_str(description),
            status: Status::Fail { points_lost },
            notes: None,
        }
    }

    /// The update with the given outcome.
    pub fn status(self, status: Status) -> (r: Self)
        ensures
            r.description == self.description,
            r.status == status,
            r.notes == self.notes,
    {
        Self { status, ..self }
    }

    /// The update marked failed with the given points lost.
    pub fn fail(self, points_lost: PointQuantity) -> (r: Self)
        ensures
            r.description == self.description,
            r.status matches Status::Fail { points_lost: p } && p == points_lost,
            r.notes == self.notes,
    {
        Self { status: Status::Fail { points_lost }, ..self }
    }

    /// Marks the update failed with the given points lost.
    pub fn set_fail(&mut self, points_lost: PointQuantity)
        ensures
            final(self).description == old(self).description,
            final(self).status matches Status::Fail { points_lost: p } && p == points_lost,
            final(self).notes == old(self).notes,
    {
        self.status = Status::Fail { points_lost };
    }

    /// The update with the given feedback attached.
    pub fn notes(self, notes: Content) -> (r: Self)
        ensures
            r.description == self.description,
            r.status == self.status,
            r.notes == Some(notes),
    {
        Self { notes: Some(notes), ..self }
    }

    /// Attaches feedback to the update.
    pub fn set_notes(&mut self, notes: Content)
        ensures
            final(self).description == old(self).description,
            final(self).status == old(self).status,
            final(self).notes == Some(notes),
    {
        self.notes = Some(notes);
    }
}

/// An ordered list of status updates; a rendered list aligns every
/// outcome in one column.
#[derive(Debug)]
pub struct StatusUpdates {
    pub updates: Vec<Update>,
}

impl StatusUpdates {
    pub fn new() -> (r: Self)
        ensures
            r.updates@ =~= Seq::<Update>::empty(),
    {
        Self { updates: Vec::new() }
    }

    pub fn add_update(&mut self, update: Update)
        ensures
            final(self).updates@ == old(self).updates@.push(update),
    {
        self.updates.push(update);
    }

    pub fn update(self, update: Update) -> (r: Self)
        ensures
            r.updates@ == self.updates@.push(update),
    {
        let mut this = self;
        this.updates.push(update);
        this
    }
}

impl Default for StatusUpdates {
    /// A list with no updates yet.
    fn default() -> (r: Self)
        ensures
            r.updates@ =~= Seq::<Update>::empty(),
    {
        StatusUpdates::new()
    }
}

/// One piece of a section: a nested section, a text block, a status list,
/// or several pieces rendered in order.
#[derive(Debug)]
pub enum Content {
    SubSection(Section),
    Block(RichText),
    StatusList(StatusUpdates),
    Multiline(Vec<Content>),
}

impl Content {
    /// A plain text block.
    pub fn text(text: &str) -> (r: Self)
        ensures
            r matches Content::Block(t) && t.text@ == text@ && !t.code,
    {
        Content::Block(RichText::new(text))
    }

    /// A code block.
    pub fn code(text: &str) -> (r: Self)
        ensures
            r matches Content::Block(t) && t.text@ == text@ && t.code,
    {
        Content::Block(RichText::new_code(text))
    }

    /// A nested section with the given header and single piece of content.
    pub fn sub_section(header: &str, content: Content) -> (r: Self)
        ensures
            r matches Content::SubSection(s) && s.header@ == header@ && s.content@ =~= seq![
                content,
            ],
    {
        Content::SubSection(Section::new(header).content(content))
    }
}

/// A titled part of an output document.
#[derive(Debug)]
pub struct Section {
    pub header: String,
    pub content: Vec<Content>,
}

impl Section {
    pub fn new(header: &str) -> (r: Self)
        ensures
            r.header@ == header@,
            r.content@ =~= Seq::<Content>::empty(),
    {
        Self { header: String::from_str(header), content: Vec::new() }
    }

    pub fn content(self, content: Content) -> (r: Self)
        ensures
            r.header == self.header,
            r.content@ == self.content@.push(content),
    {
        let mut this = self;
        this.content.push(content);
        this
    }

    pub fn add_content(&mut self, content: Content)
        ensures
            final(self).header == old(self).header,
            final(self).content@ == old(self).content@.push(content),
    {
        self.content.push(content);
    }
}

/// A structured feedback document: an ordered list of sections.
#[derive(Debug)]
pub struct Output {
    pub sections: Vec<Section>,
}

impl Output {
    pub fn new() -> (r: Self)
        ensures
            r.sections@ =~= Seq::<Section>::empty(),
    {
        Self { sections: Vec::new() }
    }

    pub fn section(self, section: Section) -> (r: Self)
        ensures
            r.sections@ == self.sections@.push(section),
    {
        let mut this = self;
        this.sections.push(section);
        this
    }

    pub fn add_section(&mut self, section: Section)
        ensures
            final(self).sections@ == old(self).sections@.push(section),
    {
        self.sections.push(section);
    }

    /// Appends the other document's sections after this one's.
    pub fn append(&mut self, other: Output)
        ensures
            final(self).sections@ == old(self).sections@ + other.sections@,
    {
        let mut rest = other.sections;
        self.sections.append(&mut rest);
    }
}

impl Default for Output {
    /// A document with no sections.
    fn default() -> (r: Self)
        ensures
            r.sections@ =~= Seq::<Section>::empty(),
    {
        Output::new()
    }
}


// ---------------------------------------------------------------------------
// Searching a document for a piece of text.
// ---------------------------------------------------------------------------

/// Whether the update's description or attached notes hold the text.
pub open spec fn update_contains(u: Update, needle: Seq<char>) -> bool
    decreases u,
{
    contains_seq(u.description@, needle) || match u.notes {
        Some(n) => content_contains(n, needle),
        None => false,
    }
}

/// Whether some update among the first `n` holds the text.
pub open spec fn updates_contain(us: Seq<Update>, needle: Seq<char>) -> bool
    decreases us,
{
    if us.len() == 0 {
        false
    } else {
        updates_contain(us.drop_last(), needle) || update_contains(us.last(), needle)
    }
}

/// Whether some piece of the content holds the text.
pub open spec fn content_contains(c: Content, needle: Seq<char>) -> bool
    decreases c,
{
    match c {
        Content::SubSection(s) => section_contains(s, needle),
        Content::Block(rt) => contains_seq(rt.text@, needle),
        Content::StatusList(su) => updates_contain(su.updates@, needle),
        Content::Multiline(cs) => contents_contain(cs@, needle),
    }
}

/// Whether some content of the list holds the text.
pub open spec fn contents_contain(cs: Seq<Content>, needle: Seq<char>) -> bool
    decreases cs,
{
    if cs.len() == 0 {
        false
    } else {
        contents_contain(cs.drop_last(), needle) || content_contains(cs.last(), needle)
    }
}

/// Whether the section's header or some of its content holds the text.
pub open spec fn section_contains(s: Section, needle: Seq<char>) -> bool
    decreases s,
{
    contains_seq(s.header@, needle) || contents_contain(s.content@, needle)
}

/// Whether some section of the document holds the text.
pub open spec fn sections_contain(ss: Seq<Section>, needle: Seq<char>) -> bool
    decreases ss,
{
    if ss.len() == 0 {
        false
    } else {
        sections_contain(ss.drop_last(), needle) || section_contains(ss.last(), needle)
    }
}

/// Whether some section of the document holds the text.
pub open spec fn output_contains(o: Output, needle: Seq<char>) -> bool {
    sections_contain(o.sections@, needle)
}

fn contents_contain_in(cs: &Vec<Content>, needle: &str) -> (r: bool)
    ensures
        r == contents_contain(cs@, needle@),
    decreases cs@,
{
    let n = cs.len();
    let mut found = false;
    let mut i: usize = 0;
    while i < n
        invariant
            n == cs@.len(),
            0 <= i <= n,
            found == contents_contain(cs@.take(i as int), needle@),
        decreases n - i,
    {
        let here = content_contains_in(&cs[i], needle);
        proof {
            assert(cs@.take(i + 1).drop_last() =~= cs@.take(i as int));
            assert(cs@.take(i + 1).last() == cs@[i as int]);
        }
        found = found || here;
        i = i + 1;
    }
    proof {
        assert(cs@.take(n as int) =~= cs@);
    }
    found
}

fn content_contains_in(c: &Content, needle: &str) -> (r: bool)
    ensures
        r == content_contains(*c, needle@),
    decreases c,
{
    match c {
        Content::SubSection(s) => section_contains_in(s, needle),
        Content::Block(rt) => str_contains(rt.text.as_str(), needle),
        Content::StatusList(su) => updates_contain_in(&su.updates, needle),
        Content::Multiline(cs) => contents_contain_in(cs, needle),
    }
}

fn updates_contain_in(us: &Vec<Update>, needle: &str) -> (r: bool)
    ensures
        r == updates_contain(us@, needle@),
    decreases us@,
{
    let n = us.len();
    let mut found = false;
    let mut i: usize = 0;
    while i < n
        invariant
            n == us@.len(),
            0 <= i <= n,
            found == updates_contain(us@.take(i as int), needle@),
        decreases n - i,
    {
        let here = update_contains_in(&us[i], needle);
        proof {
            assert(us@.take(i + 1).drop_last() =~= us@.take(i as int));
            assert(us@.take(i + 1).last() == us@[i as int]);
        }
        found = found || here;
        i = i + 1;
    }
    proof {
        assert(us@.take(n as int) =~= us@);
    }
    found
}

fn update_contains_in(u: &Update, needle: &str) -> (r: bool)
    ensures
        r == update_contains(*u, needle@),
    decreases u,
{
    let in_desc = str_contains(u.description.as_str(), needle);
    let in_notes = match &u.notes {
        Some(notes) => content_contains_in(notes, needle),
        None => false,
    };
    in_desc || in_notes
}

fn section_contains_in(s: &Section, needle: &str) -> (r: bool)
    ensures
        r == section_contains(*s, needle@),
    decreases s,
{
    let in_header = str_contains(s.header.as_str(), needle);
    let in_content = contents_contain_in(&s.content, needle);
    in_header || in_content
}

impl Update {
    /// Whether the update's description or notes hold the text.
    pub fn contains(&self, needle: &str) -> (r: bool)
        ensures
            r == update_contains(*self, needle@),
    {
        update_contains_in(self, needle)
    }
}

impl StatusUpdates {
    /// Whether some update of the list holds the text.
    pub fn contains(&self, needle: &str) -> (r: bool)
        ensures
            r == updates_contain(self.updates@, needle@),
    {
        updates_contain_in(&self.updates, needle)
    }
}

impl RichText {
    /// Whether the text holds the given piece.
    pub fn contains(&self, needle: &str) -> (r: bool)
        ensures
            r == contains_seq(self.text@, needle@),
    {
        str_contains(self.text.as_str(), needle)
    }
}

impl Content {
    /// Whether some piece of the content holds the text.
    pub fn contains(&self, needle: &str) -> (r: bool)
        ensures
            r == content_contains(*self, needle@),
    {
        content_contains_in(self, needle)
    }
}

impl Section {
    /// Whether the header or some content holds the text.
    pub fn contains(&self, needle: &str) -> (r: bool)
        ensures
            r == section_contains(*self, needle@),
    {
        section_contains_in(self, needle)
    }
}

impl Output {
    /// Whether some section of the document holds the text.
    pub fn contains(&self, needle: &str) -> (r: bool)
        ensures
            r == output_contains(*self, needle@),
    {
        let n = self.sections.len();
        let mut found = false;
        let mut i: usize = 0;
        while i < n
            invariant
                n == self.sections@.len(),
                0 <= i <= n,
                found == sections_contain(self.sections@.take(i as int), needle@),
            decreases n - i,
        {
            let here = section_contains_in(&self.sections[i], needle);
            proof {
                assert(self.sections@.take(i + 1).drop_last() =~= self.sections@.take(i as int));
                assert(self.sections@.take(i + 1).last() == self.sections@[i as int]);
            }
            found = found || here;
            i = i + 1;
        }
        proof {
            assert(self.sections@.take(n as int) =~= self.sections@);
        }
        found
    }
}

} // verus!
