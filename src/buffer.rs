use vstd::prelude::*;

verus! {

/// Relies on `str::chars` collected into a `Vec`: the characters of `s`, in order.
#[verifier::external_body]
fn chars_of(s: &str) -> (r: Vec<char>)
    ensures
        r@ == s@,
{
    s.chars().collect()
}

/// Relies on `String: FromIterator<char>`: a string made of the given characters, in order.
#[verifier::external_body]
fn string_of(chars: &Vec<char>) -> (r: String)
    ensures
        r@ == chars@,
{
    chars.iter().collect()
}

/// `s` cut at every `'\n'`, the newlines dropped: one piece more than there are
/// newlines.
pub open spec fn pieces(s: Seq<char>) -> Seq<Seq<char>>
    decreases s.len(),
{
    if s.len() == 0 {
        seq![Seq::empty()]
    } else {
        let p = pieces(s.drop_last());
        if s.last() == '\n' {
            p.push(Seq::empty())
        } else {
            p.update(p.len() - 1, p.last().push(s.last()))
        }
    }
}

/// `l` without one trailing `'\r'`.
pub open spec fn strip_cr(l: Seq<char>) -> Seq<char> {
    if l.len() > 0 && l.last() == '\r' {
        l.drop_last()
    } else {
        l
    }
}

/// The lines of a text: it is cut after each `'\n'`; a line ended by `"\r\n"`
/// loses the `'\r'` too; the last line needs no line ending, and an empty
/// remainder after the last newline is no line.
pub open spec fn text_lines(s: Seq<char>) -> Seq<Seq<char>> {
    let p = pieces(s);
    let ended = p.drop_last().map_values(|l: Seq<char>| strip_cr(l));
    if p.last().len() > 0 {
        ended.push(p.last())
    } else {
        ended
    }
}

/// The text of a file as an ordered sequence of lines, each a sequence of characters.
///
/// The buffer never clamps an index: operations on a row that does not exist do
/// nothing, and a column inside an existing row must be valid for the operation.
pub struct Buffer {
    file: Option<String>,
    lines: Vec<Vec<char>>,
}

impl View for Buffer {
    type V = Seq<Seq<char>>;

    closed spec fn view(&self) -> Seq<Seq<char>> {
        self.lines@.map_values(|l: Vec<char>| l@)
    }
}

impl Buffer {
    /// The name of the source this buffer was loaded from, if any.
    pub closed spec fn spec_file(&self) -> Option<String> {
        self.file
    }

    /// A buffer named `file` holding `lines`, in order.
    pub fn new(file: Option<String>, lines: Vec<String>) -> (r: Buffer)
        ensures
            r.spec_file() == file,
            r@.len() == lines@.len(),
            forall|i: int| 0 <= i < lines@.len() ==> #[trigger] r@[i] == lines@[i]@,
    {
        let mut out: Vec<Vec<char>> = Vec::new();
        let mut i: usize = 0;
        while i < lines.len()
            invariant
                i <= lines@.len(),
                out@.len() == i,
                forall|j: int| 0 <= j < i ==> #[trigger] out@[j]@ == lines@[j]@,
            decreases lines@.len() - i,
        {
            out.push(chars_of(lines[i].as_str()));
            i = i + 1;
        }
        Buffer { file, lines: out }
    }

    /// A buffer named `file` holding the lines of `text`.
    pub fn from_text(file: Option<String>, text: &str) -> (r: Buffer)
        ensures
            r.spec_file() == file,
            r@ == text_lines(text@),
    {
        let chars = chars_of(text);
        let mut lines: Vec<Vec<char>> = Vec::new();
        let mut cur: Vec<char> = Vec::new();
        let mut i: usize = 0;
        assert(chars@.subrange(0, 0) =~= Seq::<char>::empty());
        while i < chars.len()
            invariant
                i <= chars@.len(),
                chars@ == text@,
                pieces(chars@.subrange(0, i as int)).len() == lines@.len() + 1,
                forall|j: int|
                    0 <= j < lines@.len() ==> #[trigger] lines@[j]@ == strip_cr(
                        pieces(chars@.subrange(0, i as int))[j],
                    ),
                cur@ == pieces(chars@.subrange(0, i as int)).last(),
            decreases chars@.len() - i,
        {
            let c = chars[i];
            assert(chars@.subrange(0, i + 1).drop_last() =~= chars@.subrange(0, i as int));
            if c == '\n' {
                if cur.len() > 0 && cur[cur.len() - 1] == '\r' {
                    cur.pop();
                }
                lines.push(cur);
                cur = Vec::new();
            } else {
                cur.push(c);
            }
            i = i + 1;
        }
        assert(chars@.subrange(0, i as int) =~= chars@);
        if cur.len() > 0 {
            lines.push(cur);
        }
        let r = Buffer { file, lines };
        assert(r@ =~= text_lines(text@));
        r
    }

    /// The name of the source this buffer was loaded from, if any.
    pub fn file(&self) -> (r: &Option<String>)
        ensures
            *r == self.spec_file(),
    {
        &self.file
    }

    /// The line at index `line`, or `None` past the end.
    pub fn get(&self, line: usize) -> (r: Option<String>)
        ensures
            line < self@.len() ==> r.is_some() && r.unwrap()@ == self@[line as int],
            line >= self@.len() ==> r.is_none(),
    {
        if self.lines.len() > line {
            return Some(string_of(&self.lines[line]));
        }
        None
    }

    /// The number of lines.
    pub fn len(&self) -> (r: usize)
        ensures
            r == self@.len(),
    {
        self.lines.len()
    }

    /// The number of characters in row `line`, or `None` past the end.
    pub fn line_len(&self, line: usize) -> (r: Option<usize>)
        ensures
            line < self@.len() ==> r.is_some() && r.unwrap() == self@[line as int].len(),
            line >= self@.len() ==> r.is_none(),
    {
        if self.lines.len() > line {
            return Some(self.lines[line].len());
        }
        None
    }

    /// Inserts `c` at column `x` of row `y`; does nothing when row `y` does not exist.
    pub fn insert(&mut self, x: u16, y: usize, c: char)
        requires
            y < old(self)@.len() ==> x <= old(self)@[y as int].len(),
        ensures
            final(self).spec_file() == old(self).spec_file(),
            y < old(self)@.len() ==> final(self)@ == old(self)@.update(
                y as int,
                old(self)@[y as int].insert(x as int, c),
            ),
            y >= old(self)@.len() ==> final(self)@ == old(self)@,
    {
        if y < self.lines.len() {
            let mut line: Vec<char> = Vec::new();
            self.lines.set_and_swap(y, &mut line);
            line.insert(x as usize, c);
            self.lines.set(y, line);
            assert(self@ =~= old(self)@.update(y as int, old(self)@[y as int].insert(x as int, c)));
        }
    }

    /// Removes the character at column `x` of row `y`; does nothing when row `y`
    /// does not exist.
    pub fn remove(&mut self, x: u16, y: usize)
        requires
            y < old(self)@.len() ==> x < old(self)@[y as int].len(),
        ensures
            final(self).spec_file() == old(self).spec_file(),
            y < old(self)@.len() ==> final(self)@ == old(self)@.update(
                y as int,
                old(self)@[y as int].remove(x as int),
            ),
            y >= old(self)@.len() ==> final(self)@ == old(self)@,
    {
        if y < self.lines.len() {
            let mut line: Vec<char> = Vec::new();
            self.lines.set_and_swap(y, &mut line);
            line.remove(x as usize);
            self.lines.set(y, line);
            assert(self@ =~= old(self)@.update(y as int, old(self)@[y as int].remove(x as int)));
        }
    }

    /// Deletes row `line`, shifting the following rows up; does nothing when it
    /// does not exist.
    pub fn remove_line(&mut self, line: usize)
        ensures
            final(self).spec_file() == old(self).spec_file(),
            line < old(self)@.len() ==> final(self)@ == old(self)@.remove(line as int),
            line >= old(self)@.len() ==> final(self)@ == old(self)@,
    {
        if self.len() > line {
            self.lines.remove(line);
            assert(self@ =~= old(self)@.remove(line as int));
        }
    }

    /// Inserts `contents` as a new row before the existing row `y`; does nothing
    /// unless row `y` exists (so it never appends past the last row).
    pub fn insert_line(&mut self, y: usize, contents: String)
        ensures
            final(self).spec_file() == old(self).spec_file(),
            y < old(self)@.len() ==> final(self)@ == old(self)@.insert(y as int, contents@),
            y >= old(self)@.len() ==> final(self)@ == old(self)@,
    {
        if self.len() > y {
            self.lines.insert(y, chars_of(contents.as_str()));
            assert(self@ =~= old(self)@.insert(y as int, contents@));
        }
    }
}

} // verus!
