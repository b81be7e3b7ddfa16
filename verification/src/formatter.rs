use vstd::prelude::*;

verus! {

/// A textual output format, given by the strings wrapped around each kind
/// of element and by its separators. Rendering is a pure function of the
/// document and these fields.
#[derive(Debug)]
pub struct Formatter {
    pub h1_pre: String,
    pub h1_post: String,
    pub h2_pre: String,
    pub h2_post: String,
    pub h3_pre: String,
    pub h3_post: String,
    pub bold_pre: String,
    pub bold_post: String,
    pub italic_pre: String,
    pub italic_post: String,
    pub code_pre: String,
    pub code_post: String,
    pub newline: String,
    pub paragraph: String,
}

impl Formatter {
    /// The heading wrapping for a section at the given nesting depth:
    /// depth one is the top level; depth three and beyond share one style.
    pub open spec fn spec_heading(&self, depth: nat, text: Seq<char>) -> Seq<char> {
        if depth <= 1 {
            self.h1_pre@ + text + self.h1_post@
        } else if depth == 2 {
            self.h2_pre@ + text + self.h2_post@
        } else {
            self.h3_pre@ + text + self.h3_post@
        }
    }

    /// Wraps a section header for the given nesting depth.
    pub fn heading(&self, depth: u8, text: &str) -> (r: String)
        ensures
            r@ == self.spec_heading(depth as nat, text@),
    {
        let mut s: String;
        if depth <= 1 {
            s = self.h1_pre.clone();
            s.append(text);
            s.append(self.h1_post.as_str());
        } else if depth == 2 {
            s = self.h2_pre.clone();
            s.append(text);
            s.append(self.h2_post.as_str());
        } else {
            s = self.h3_pre.clone();
            s.append(text);
            s.append(self.h3_post.as_str());
        }
        s
    }

    /// Wraps text as bold.
    pub fn bold(&self, text: &str) -> (r: String)
        ensures
            r@ == self.bold_pre@ + text@ + self.bold_post@,
    {
        let mut s = self.bold_pre.clone();
        s.append(text);
        s.append(self.bold_post.as_str());
        s
    }

    /// Wraps text as italic.
    pub fn italic(&self, text: &str) -> (r: String)
        ensures
            r@ == self.italic_pre@ + text@ + self.italic_post@,
    {
        let mut s = self.italic_pre.clone();
        s.append(text);
        s.append(self.italic_post.as_str());
        s
    }

    /// Wraps text as a code block.
    pub fn code(&self, text: &str) -> (r: String)
        ensures
            r@ == self.code_pre@ + text@ + self.code_post@,
    {
        let mut s = self.code_pre.clone();
        s.append(text);
        s.append(self.code_post.as_str());
        s
    }

    /// The Markdown format: `#`-style headers, fenced code blocks, a blank
    /// line between lines and two between paragraphs.
    pub fn markdown() -> (r: Formatter)
        ensures
            r.h1_pre@ == "# "@ && r.h1_post@ == ""@,
            r.h2_pre@ == "## "@ && r.h2_post@ == ""@,
            r.h3_pre@ == "### "@ && r.h3_post@ == ""@,
            r.bold_pre@ == "**"@ && r.bold_post@ == "**"@,
            r.italic_pre@ == "*"@ && r.italic_post@ == "*"@,
            r.code_pre@ == "```\n"@ && r.code_post@ == "\n```"@,
            r.newline@ == "\n\n"@,
            r.paragraph@ == "\n\n\n"@,
    {
        Formatter {
            h1_pre: String::from_str("# "),
            h1_post: String::from_str(""),
            h2_pre: String::from_str("## "),
            h2_post: String::from_str(""),
            h3_pre: String::from_str("### "),
            h3_post: String::from_str(""),
            bold_pre: String::from_str("**"),
            bold_post: String::from_str("**"),
            italic_pre: String::from_str("*"),
            italic_post: String::from_str("*"),
            code_pre: String::from_str("```\n"),
            code_post: String::from_str("\n```"),
            newline: String::from_str("\n\n"),
            paragraph: String::from_str("\n\n\n"),
        }
    }
}

} // verus!
