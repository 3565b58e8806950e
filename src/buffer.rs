use vstd::prelude::*;

verus! {

/// Failure of a buffer, tracker or edit operation on a position that does not exist.
#[derive(Debug, Clone, Copy, PartialEq, Eq, Structural)]
pub enum EditError {
    OutOfRange,
}

/// The text being edited: an ordered, never empty sequence of lines, each an
/// ordered sequence of characters.
pub struct Document {
    lines: Vec<Vec<char>>,
}

/// The line `row` cut at `col`: the prefix stays, the suffix becomes the next line.
pub open spec fn split_spec(d: Seq<Seq<char>>, row: int, col: int) -> Seq<Seq<char>> {
    d.update(row, d[row].subrange(0, col)).insert(row + 1, d[row].subrange(col, d[row].len() as int))
}

/// The line `row` appended to line `row - 1`, and removed.
pub open spec fn join_spec(d: Seq<Seq<char>>, row: int) -> Seq<Seq<char>> {
    d.update(row - 1, d[row - 1] + d[row]).remove(row)
}

/// The character `ch` put at column `col` of line `row`.
pub open spec fn insert_char_spec(d: Seq<Seq<char>>, row: int, col: int, ch: char) -> Seq<Seq<char>> {
    d.update(row, d[row].insert(col, ch))
}

/// The character at column `col` of line `row` taken out.
pub open spec fn remove_at_spec(d: Seq<Seq<char>>, row: int, col: int) -> Seq<Seq<char>> {
    d.update(row, d[row].remove(col))
}

/// The lines joined into one text, a newline between each two.
pub open spec fn joined(d: Seq<Seq<char>>) -> Seq<char>
    decreases d.len(),
{
    if d.len() == 0 {
        Seq::empty()
    } else if d.len() == 1 {
        d[0]
    } else {
        joined(d.drop_last()) + seq!['\n'] + d.last()
    }
}

impl View for Document {
    type V = Seq<Seq<char>>;

    closed spec fn view(&self) -> Seq<Seq<char>> {
        self.lines@.map_values(|l: Vec<char>| l@)
    }
}

impl Document {
    /// A document holds at least one line.
    pub open spec fn wf(&self) -> bool {
        self@.len() >= 1
    }

    /// A document of one empty line.
    pub fn new() -> (r: Document)
        ensures
            r@ == seq![Seq::<char>::empty()],
            r.wf(),
    {
        let mut lines: Vec<Vec<char>> = Vec::new();
        lines.push(Vec::new());
        let r = Document { lines };
        assert(r@ =~= seq![Seq::<char>::empty()]);
        r
    }

    /// A document holding the given lines in order; no lines at all gives one
    /// empty line, as an empty file is shown.
    pub fn from_lines(lines: Vec<Vec<char>>) -> (r: Document)
        ensures
            lines@.len() > 0 ==> r@ == lines@.map_values(|l: Vec<char>| l@),
            lines@.len() == 0 ==> r@ == seq![Seq::<char>::empty()],
            r.wf(),
    {
        if lines.len() == 0 {
            Document::new()
        } else {
            Document { lines }
        }
    }

    /// The lines, handed over for saving.
    pub fn into_lines(self) -> (r: Vec<Vec<char>>)
        ensures
            r@.map_values(|l: Vec<char>| l@) == self@,
    {
        self.lines
    }

    /// The whole text, a newline between each two lines, for saving.
    pub fn text(&self) -> (r: Vec<char>)
        ensures
            r@ == joined(self@),
    {
        let mut r: Vec<char> = Vec::new();
        let mut i: usize = 0;
        assert(self@.subrange(0, 0) =~= Seq::<Seq<char>>::empty());
        while i < self.lines.len()
            invariant
                i <= self@.len(),
                self.lines@.len() == self@.len(),
                r@ == joined(self@.subrange(0, i as int)),
            decreases self@.len() - i,
        {
            let ghost before = r@;
            if i > 0 {
                r.push('\n');
            }
            let line = &self.lines[i];
            let mut k: usize = 0;
            while k < line.len()
                invariant
                    k <= line@.len(),
                    r@ == (if i > 0 { before + seq!['\n'] } else { before }) + line@.subrange(0, k as int),
                decreases line@.len() - k,
            {
                r.push(line[k]);
                k = k + 1;
                assert(r@ =~= (if i > 0 { before + seq!['\n'] } else { before }) + line@.subrange(0, k as int));
            }
            assert(line@.subrange(0, k as int) =~= line@);
            let ghost upto = self@.subrange(0, i + 1);
            assert(upto.drop_last() =~= self@.subrange(0, i as int));
            assert(upto.last() == self@[i as int]);
            assert(r@ =~= joined(upto));
            i = i + 1;
        }
        assert(self@.subrange(0, i as int) =~= self@);
        r
    }

    pub fn num_lines(&self) -> (r: usize)
        ensures
            r == self@.len(),
    {
        self.lines.len()
    }

    /// Length of line `row`; `row` must exist.
    pub fn line_len(&self, row: usize) -> (r: usize)
        requires
            row < self@.len(),
        ensures
            r == self@[row as int].len(),
    {
        self.lines[row].len()
    }

    /// The line `row`, or `OutOfRange` where there is none.
    pub fn get_line(&self, row: usize) -> (r: Result<&Vec<char>, EditError>)
        ensures
            row < self@.len() ==> r is Ok && r->Ok_0@ == self@[row as int],
            row >= self@.len() ==> r == Err::<&Vec<char>, EditError>(EditError::OutOfRange),
    {
        if row < self.lines.len() {
            Ok(&self.lines[row])
        } else {
            Err(EditError::OutOfRange)
        }
    }

    /// The character at (`row`, `col`); both must exist.
    pub fn char_at(&self, row: usize, col: usize) -> (r: char)
        requires
            row < self@.len(),
            col < self@[row as int].len(),
        ensures
            r == self@[row as int][col as int],
    {
        self.lines[row][col]
    }

    /// Takes line `row` out, leaving an empty line in its place.
    fn take_line(&mut self, row: usize) -> (r: Vec<char>)
        requires
            row < old(self)@.len(),
        ensures
            r@ == old(self)@[row as int],
            final(self)@ == old(self)@.update(row as int, Seq::<char>::empty()),
    {
        let mut line: Vec<char> = Vec::new();
        self.lines.set_and_swap(row, &mut line);
        assert(self@ =~= old(self)@.update(row as int, Seq::<char>::empty()));
        line
    }

    /// Puts `line` in place of line `row`.
    fn put_line(&mut self, row: usize, line: Vec<char>)
        requires
            row < old(self)@.len(),
        ensures
            final(self)@ == old(self)@.update(row as int, line@),
    {
        self.lines.set(row, line);
        assert(self@ =~= old(self)@.update(row as int, line@));
    }

    /// Inserts `ch` at (`row`, `col`); `OutOfRange` where the row does not
    /// exist or `col` is past the end of the line, and then nothing changes.
    pub fn insert_char(&mut self, row: usize, col: usize, ch: char) -> (r: Result<(), EditError>)
        ensures
            r is Ok <==> row < old(self)@.len() && col <= old(self)@[row as int].len(),
            r is Ok ==> final(self)@ == insert_char_spec(old(self)@, row as int, col as int, ch),
            r is Err ==> r == Err::<(), EditError>(EditError::OutOfRange) && final(self)@ == old(self)@,
    {
        if row >= self.lines.len() || col > self.lines[row].len() {
            return Err(EditError::OutOfRange);
        }
        let mut line = self.take_line(row);
        line.insert(col, ch);
        self.put_line(row, line);
        assert(self@ =~= insert_char_spec(old(self)@, row as int, col as int, ch));
        Ok(())
    }

    /// Removes and returns the character at (`row`, `col`); `OutOfRange` where
    /// there is none, and then nothing changes.
    pub fn remove_at(&mut self, row: usize, col: usize) -> (r: Result<char, EditError>)
        ensures
            r is Ok <==> row < old(self)@.len() && col < old(self)@[row as int].len(),
            r is Ok ==> final(self)@ == remove_at_spec(old(self)@, row as int, col as int)
                && r->Ok_0 == old(self)@[row as int][col as int],
            r is Err ==> r == Err::<char, EditError>(EditError::OutOfRange) && final(self)@ == old(self)@,
    {
        if row >= self.lines.len() || col >= self.lines[row].len() {
            return Err(EditError::OutOfRange);
        }
        let mut line = self.take_line(row);
        let ch = line.remove(col);
        self.put_line(row, line);
        assert(self@ =~= remove_at_spec(old(self)@, row as int, col as int));
        Ok(ch)
    }

    /// Cuts line `row` at `col`: the prefix stays, the suffix becomes line
    /// `row + 1`. `OutOfRange` where the position does not exist.
    pub fn split_line(&mut self, row: usize, col: usize) -> (r: Result<(), EditError>)
        ensures
            r is Ok <==> row < old(self)@.len() && col <= old(self)@[row as int].len(),
            r is Ok ==> final(self)@ == split_spec(old(self)@, row as int, col as int),
            r is Err ==> r == Err::<(), EditError>(EditError::OutOfRange) && final(self)@ == old(self)@,
    {
        if row >= self.lines.len() || col > self.lines[row].len() {
            return Err(EditError::OutOfRange);
        }
        let mut line = self.take_line(row);
        let suffix = line.split_off(col);
        self.put_line(row, line);
        assert(self.lines@.len() == self@.len());
        let ghost cut = self@;
        self.lines.insert(row + 1, suffix);
        assert(self@ =~= cut.insert(row + 1, suffix@));
        assert(self@ =~= split_spec(old(self)@, row as int, col as int));
        Ok(())
    }

    /// Appends line `row` onto line `row - 1` and removes it. `OutOfRange`
    /// where `row` is 0 or does not exist.
    pub fn join_line(&mut self, row: usize) -> (r: Result<(), EditError>)
        ensures
            r is Ok <==> 0 < row < old(self)@.len(),
            r is Ok ==> final(self)@ == join_spec(old(self)@, row as int),
            r is Err ==> r == Err::<(), EditError>(EditError::OutOfRange) && final(self)@ == old(self)@,
    {
        if row == 0 || row >= self.lines.len() {
            return Err(EditError::OutOfRange);
        }
        let mut tail = self.lines.remove(row);
        assert(self@ =~= old(self)@.remove(row as int));
        let mut line = self.take_line(row - 1);
        line.append(&mut tail);
        self.put_line(row - 1, line);
        assert(self@ =~= join_spec(old(self)@, row as int));
        Ok(())
    }
}

} // verus!
