//! A text buffer that lays out what is written to it at the current depth of
//! indentation.

use vstd::prelude::*;

verus! {

/// What one step of indentation consists of.
#[derive(Clone, Copy, Debug, PartialEq, Eq, Structural)]
pub enum IndentConfig {
    /// One tab character.
    Tab,
    /// The given number of spaces.
    Space(usize),
}

impl IndentConfig {
    /// The characters of one step of indentation.
    pub open spec fn unit(self) -> Seq<char> {
        match self {
            IndentConfig::Tab => seq!['\t'],
            IndentConfig::Space(n) => Seq::new(n as nat, |i: int| ' '),
        }
    }
}

/// The mathematical value of an [`IndentedWriter`]: the text laid out so far
/// and what decides the layout of the text to come.
pub struct Page {
    /// The text laid out so far.
    pub text: Seq<char>,
    /// What is put in front of the next line that is not empty.
    pub indentation: Seq<char>,
    /// Nothing has been written since the last line break.
    pub at_line_start: bool,
    /// What one step of indentation consists of.
    pub config: IndentConfig,
}

impl Page {
    /// The empty page, at no indentation.
    pub open spec fn blank(config: IndentConfig) -> Page {
        Page { text: Seq::empty(), indentation: Seq::empty(), at_line_start: true, config }
    }

    /// The page after one more character. A line break is never indented; any
    /// other character that starts a line is preceded by the indentation.
    pub open spec fn put_char(self, c: char) -> Page {
        if c == '\n' {
            Page {
                text: self.text.push(c),
                indentation: self.indentation,
                at_line_start: true,
                config: self.config,
            }
        } else if self.at_line_start {
            Page {
                text: (self.text + self.indentation).push(c),
                indentation: self.indentation,
                at_line_start: false,
                config: self.config,
            }
        } else {
            Page {
                text: self.text.push(c),
                indentation: self.indentation,
                at_line_start: false,
                config: self.config,
            }
        }
    }

    /// The page after the characters of `s`, in order.
    pub open spec fn put(self, s: Seq<char>) -> Page
        decreases s.len(),
    {
        if s.len() == 0 {
            self
        } else {
            self.put(s.drop_last()).put_char(s.last())
        }
    }

    /// The page one step of indentation deeper.
    pub open spec fn indent(self) -> Page {
        Page {
            text: self.text,
            indentation: self.indentation + self.config.unit(),
            at_line_start: self.at_line_start,
            config: self.config,
        }
    }

    /// The page one step of indentation less deep, or at no indentation where
    /// less than one step is left.
    pub open spec fn unindent(self) -> Page {
        let width = self.config.unit().len();
        let keep = if self.indentation.len() >= width {
            self.indentation.len() - width
        } else {
            0
        };
        Page {
            text: self.text,
            indentation: self.indentation.take(keep),
            at_line_start: self.at_line_start,
            config: self.config,
        }
    }
}

/// Writing a text in two parts lays it out as writing it at once does.
pub proof fn lemma_put_concat(page: Page, a: Seq<char>, b: Seq<char>)
    ensures
        page.put(a + b) == page.put(a).put(b),
    decreases b.len(),
{
    if b.len() == 0 {
        assert(a + b =~= a);
    } else {
        assert((a + b).drop_last() =~= a + b.drop_last());
        lemma_put_concat(page, a, b.drop_last());
    }
}

/// Writing never changes the indentation, and only adds to the text.
pub proof fn lemma_put_extends(page: Page, s: Seq<char>)
    ensures
        page.put(s).indentation == page.indentation,
        page.put(s).config == page.config,
        page.text.is_prefix_of(page.put(s).text),
    decreases s.len(),
{
    if s.len() > 0 {
        lemma_put_extends(page, s.drop_last());
    }
}

/// Text without a line break, written in the middle of a line, is appended
/// as it is.
pub proof fn lemma_put_inline(page: Page, s: Seq<char>)
    requires
        !page.at_line_start,
        !s.contains('\n'),
    ensures
        page.put(s).text == page.text + s,
        !page.put(s).at_line_start,
    decreases s.len(),
{
    if s.len() == 0 {
        assert(page.text + s =~= page.text);
    } else {
        assert forall|c: char| s.drop_last().contains(c) implies s.contains(c) by {
            let i = choose|i: int| 0 <= i < s.drop_last().len() && s.drop_last()[i] == c;
            assert(s[i] == c);
        }
        assert(s[s.len() - 1] == s.last());
        lemma_put_inline(page, s.drop_last());
        assert(page.put(s).text =~= page.text + s);
    }
}

/// A text buffer that indents each line it is given by the current depth.
pub struct IndentedWriter {
    out: String,
    indentation: Vec<char>,
    config: IndentConfig,
    at_beginning_of_line: bool,
}

impl View for IndentedWriter {
    type V = Page;

    closed spec fn view(&self) -> Page {
        Page {
            text: self.out@,
            indentation: self.indentation@,
            at_line_start: self.at_beginning_of_line,
            config: self.config,
        }
    }
}

impl IndentedWriter {
    /// An empty buffer at no indentation.
    pub fn new(config: IndentConfig) -> (w: Self)
        ensures
            w@ == Page::blank(config),
    {
        IndentedWriter {
            out: String::new(),
            indentation: Vec::new(),
            config,
            at_beginning_of_line: true,
        }
    }

    /// Goes one step of indentation deeper.
    pub fn indent(&mut self)
        ensures
            final(self)@ == old(self)@.indent(),
    {
        match self.config {
            IndentConfig::Tab => {
                self.indentation.push('\t');
                assert(self.indentation@ =~= old(self).indentation@ + self.config.unit());
            },
            IndentConfig::Space(n) => {
                let mut i: usize = 0;
                while i < n
                    invariant
                        i <= n,
                        self.config == old(self).config,
                        self.out == old(self).out,
                        self.at_beginning_of_line == old(self).at_beginning_of_line,
                        self.indentation@ == old(self).indentation@ + Seq::new(
                            i as nat,
                            |k: int| ' ',
                        ),
                    decreases n - i,
                {
                    self.indentation.push(' ');
                    i += 1;
                    assert(self.indentation@ =~= old(self).indentation@ + Seq::new(
                        i as nat,
                        |k: int| ' ',
                    ));
                }
            },
        }
    }

    /// Goes one step of indentation back, or to no indentation where less than
    /// one step is left.
    pub fn unindent(&mut self)
        ensures
            final(self)@ == old(self)@.unindent(),
    {
        let width: usize = match self.config {
            IndentConfig::Tab => 1,
            IndentConfig::Space(n) => n,
        };
        let len = self.indentation.len();
        let keep: usize = if len >= width {
            len - width
        } else {
            0
        };
        self.indentation.truncate(keep);
        assert(self.indentation@ =~= old(self).indentation@.take(keep as int));
    }

    /// Writes `text`, indenting each line of it that is not empty.
    pub fn write_str(&mut self, text: &str)
        ensures
            final(self)@ == old(self)@.put(text@),
    {
        for c in iter: text.chars()
            invariant
                iter.seq() == text@,
                self@ == old(self)@.put(text@.take(iter.index())),
        {
            proof {
                assert(text@.take(iter.index() + 1).drop_last() =~= text@.take(iter.index()));
            }
            let ghost before = self@;
            if c == '\n' {
                self.out.push(c);
                self.at_beginning_of_line = true;
            } else {
                if self.at_beginning_of_line {
                    let mut j: usize = 0;
                    while j < self.indentation.len()
                        invariant
                            j <= self.indentation.len(),
                            self.config == before.config,
                            self.indentation@ == before.indentation,
                            self.at_beginning_of_line,
                            self.out@ == before.text + before.indentation.take(j as int),
                        decreases self.indentation.len() - j,
                    {
                        let x = self.indentation[j];
                        self.out.push(x);
                        j += 1;
                        assert(self.out@ =~= before.text + before.indentation.take(j as int));
                    }
                    assert(before.indentation.take(j as int) =~= before.indentation);
                    self.at_beginning_of_line = false;
                }
                self.out.push(c);
            }
            assert(self@ == before.put_char(c));
        }
        proof {
            assert(text@.take(text@.len() as int) =~= text@);
        }
    }

    /// The text laid out so far.
    pub fn as_str(&self) -> (r: &str)
        ensures
            r@ == self@.text,
    {
        self.out.as_str()
    }

    /// Gives up the buffer for the text laid out in it.
    pub fn into_string(self) -> (r: String)
        ensures
            r@ == self@.text,
    {
        self.out
    }
}

/// At no indentation, what is written is appended as it is.
pub proof fn lemma_put_unindented(page: Page, s: Seq<char>)
    requires
        page.indentation.len() == 0,
    ensures
        page.put(s).text == page.text + s,
    decreases s.len(),
{
    if s.len() == 0 {
        assert(page.text + s =~= page.text);
    } else {
        lemma_put_unindented(page, s.drop_last());
        lemma_put_extends(page, s.drop_last());
        assert(page.put(s).text =~= page.text + s);
    }
}

} // verus!
