use vstd::prelude::*;
use vstd::string::StrSliceExecFns;

verus! {

/// One piece of a line, as wide as the screen at most: what is printed on one
/// row of the terminal.
pub struct LineChunk {
    pub chunk: String,
    /// Which line the piece was cut from.
    pub line: usize,
    /// The width that the line was cut to.
    pub width: usize,
}

/// A piece of a line as the contracts speak of it.
pub struct Chunk {
    pub text: Seq<char>,
    pub line: usize,
    pub width: usize,
}

impl View for LineChunk {
    type V = Chunk;

    open spec fn view(&self) -> Chunk {
        Chunk { text: self.chunk@, line: self.line, width: self.width }
    }
}

/// The pieces of some stored chunks.
pub open spec fn chunk_views(chunks: Seq<LineChunk>) -> Seq<Chunk> {
    chunks.map_values(|c: LineChunk| c@)
}

/// The texts of some stored lines.
pub open spec fn line_views(lines: Seq<String>) -> Seq<Seq<char>> {
    lines.map_values(|s: String| s@)
}

/// A line cut greedily into pieces of `width` characters; the last piece is
/// what is left over. An empty line has no pieces.
pub open spec fn segments(line: Seq<char>, width: usize, line_index: usize) -> Seq<Chunk>
    decreases line.len(),
{
    if line.len() == 0 || width == 0 {
        Seq::empty()
    } else if line.len() <= width {
        seq![Chunk { text: line, line: line_index, width }]
    } else {
        seq![Chunk { text: line.take(width as int), line: line_index, width }] + segments(
            line.skip(width as int),
            width,
            line_index,
        )
    }
}

/// The pieces of the first `upto` lines, line after line, each piece tagged
/// with the index of its line.
pub open spec fn rendering_upto(lines: Seq<Seq<char>>, width: usize, upto: int) -> Seq<Chunk>
    decreases upto,
{
    if upto <= 0 {
        Seq::empty()
    } else {
        rendering_upto(lines, width, upto - 1) + segments(
            lines[upto - 1],
            width,
            (upto - 1) as usize,
        )
    }
}

/// The pieces of all the lines.
pub open spec fn rendering(lines: Seq<Seq<char>>, width: usize) -> Seq<Chunk> {
    rendering_upto(lines, width, lines.len() as int)
}

impl LineChunk {
    /// Cuts a line into pieces of `length` characters. At length 0 nothing
    /// fits, and there are no pieces.
    pub fn segment(line: &str, length: usize, line_index: usize) -> (r: Vec<Self>)
        ensures
            chunk_views(r@) == segments(line@, length, line_index),
    {
        let len = line.unicode_len();
        let mut pieces: Vec<LineChunk> = Vec::new();
        let mut start: usize = 0;
        assert(line@.subrange(0, len as int) =~= line@);
        assert(chunk_views(pieces@) =~= Seq::<Chunk>::empty());
        if length == 0 {
            return pieces;
        }
        while start < len
            invariant
                length > 0,
                len == line@.len(),
                start <= len,
                chunk_views(pieces@) + segments(
                    line@.subrange(start as int, len as int),
                    length,
                    line_index,
                ) == segments(line@, length, line_index),
            decreases len - start,
        {
            let end = if len - start <= length {
                len
            } else {
                start + length
            };
            let ghost rest = line@.subrange(start as int, len as int);
            let ghost before = chunk_views(pieces@);
            let piece = LineChunk {
                chunk: line.substring_char(start, end).to_owned(),
                line: line_index,
                width: length,
            };
            pieces.push(piece);
            proof {
                assert(chunk_views(pieces@) =~= before.push(piece@));
                assert(piece@.text =~= rest.take(end - start));
                if len - start <= length {
                    assert(rest.take(end - start) =~= rest);
                    assert(line@.subrange(end as int, len as int) =~= Seq::<char>::empty());
                } else {
                    assert(rest.skip(length as int) =~= line@.subrange(end as int, len as int));
                }
                assert(before.push(piece@) + segments(
                    line@.subrange(end as int, len as int),
                    length,
                    line_index,
                ) =~= before + segments(rest, length, line_index));
            }
            start = end;
        }
        pieces
    }
}

/// The lines that were shown, a cursor over them, and their pieces at the
/// width of the last rendering.
///
/// The cursor is meant to lie between -1 and the number of lines; any other
/// value is tolerated.
pub struct Scroller {
    pub lines: Vec<String>,
    pub buffer: Vec<LineChunk>,
    pub index: isize,
}

impl Scroller {
    /// The texts of the lines, oldest first.
    pub open spec fn texts(&self) -> Seq<Seq<char>> {
        line_views(self.lines@)
    }

    /// Whether pieces are kept that were cut to `cols`.
    pub open spec fn cached_for(&self, cols: usize) -> bool {
        self.buffer@.len() > 0 && self.buffer@[0].width == cols
    }

    /// The pieces that are kept, if any, are those of the lines as they are
    /// now, at the width the pieces were cut to. This holds of a new
    /// scroller and after the lines were cut anew; a line that is added
    /// after that is not among the pieces.
    pub open spec fn wf(&self) -> bool {
        self.buffer@.len() > 0 ==> chunk_views(self.buffer@) == rendering(
            self.texts(),
            self.buffer@[0].width,
        )
    }

    /// Appends a line and puts the cursor on it. The pieces that are kept
    /// stay as they are: they do not hold the new line until the lines are
    /// cut anew.
    pub fn add_line(&mut self, line: String)
        requires
            old(self).lines@.len() < isize::MAX,
        ensures
            final(self).texts() == old(self).texts().push(line@),
            final(self).index == final(self).lines@.len() - 1,
            final(self).buffer == old(self).buffer,
            old(self).buffer@.len() == 0 ==> final(self).wf(),
    {
        self.lines.push(line);
        self.index = (self.lines.len() - 1) as isize;
        assert(self.texts() =~= old(self).texts().push(line@));
    }

    pub fn new() -> (s: Self)
        ensures
            s.lines@.len() == 0,
            s.buffer@.len() == 0,
            s.index == 0,
            s.wf(),
    {
        Self { lines: Vec::new(), index: 0, buffer: Vec::new() }
    }

    /// Moves the cursor to the line before, if the cursor is on a line or
    /// behind the last; says whether it then stands on a line or further
    /// back. Below the first line the cursor stays at -1 and the result is
    /// `None`.
    pub fn prev(&mut self) -> (r: Option<()>)
        ensures
            final(self).lines == old(self).lines,
            final(self).buffer == old(self).buffer,
            final(self).wf() == old(self).wf(),
            final(self).index == if old(self).index >= 0 {
                old(self).index - 1
            } else {
                old(self).index as int
            },
            r is Some <==> old(self).index >= 1,
    {
        if self.index >= 0 {
            self.index = self.index - 1;
            if self.index == -1 {
                return None;
            }
            return Some(());
        }
        None
    }

    /// Moves the cursor to the line after, if the cursor is before the end;
    /// says whether it then stands before the end. At the end, one past the
    /// last line, the cursor stays and the result is `None`.
    pub fn next(&mut self) -> (r: Option<()>)
        requires
            old(self).lines@.len() <= isize::MAX,
        ensures
            final(self).lines == old(self).lines,
            final(self).buffer == old(self).buffer,
            final(self).wf() == old(self).wf(),
            final(self).index == if old(self).index < old(self).lines@.len() {
                old(self).index + 1
            } else {
                old(self).index as int
            },
            r is Some <==> old(self).index + 1 < old(self).lines@.len(),
    {
        if self.index < 0 || (self.index as usize) < self.lines.len() {
            self.index = self.index + 1;
            if self.index >= 0 && self.index as usize == self.lines.len() {
                return None;
            }
            return Some(());
        }
        None
    }

    /// The pieces of all lines at width `cols`. Where pieces cut to that
    /// width are kept, they are handed out as they are; otherwise all lines
    /// are cut anew and the pieces kept.
    pub fn render_lines(&mut self, cols: usize) -> (r: &Vec<LineChunk>)
        ensures
            final(self).lines == old(self).lines,
            final(self).index == old(self).index,
            *r == final(self).buffer,
            old(self).cached_for(cols) ==> final(self).buffer == old(self).buffer,
            !old(self).cached_for(cols) ==> chunk_views(r@) == rendering(old(self).texts(), cols),
            old(self).wf() ==> chunk_views(r@) == rendering(old(self).texts(), cols),
            old(self).wf() ==> final(self).wf(),
            !old(self).cached_for(cols) ==> final(self).wf(),
    {
        if self.buffer.len() > 0 && cols == self.buffer[0].width {
            return &self.buffer;
        }
        let mut buffer: Vec<LineChunk> = Vec::new();
        let mut i: usize = 0;
        assert(chunk_views(buffer@) =~= Seq::<Chunk>::empty());
        while i < self.lines.len()
            invariant
                i <= self.lines@.len(),
                chunk_views(buffer@) == rendering_upto(self.texts(), cols, i as int),
            decreases self.lines@.len() - i,
        {
            let ghost before = buffer@;
            let mut pieces = LineChunk::segment(self.lines[i].as_str(), cols, i);
            let ghost added = pieces@;
            buffer.append(&mut pieces);
            assert(chunk_views(buffer@) =~= chunk_views(before) + chunk_views(added));
            i += 1;
        }
        self.buffer = buffer;
        proof {
            if self.buffer@.len() > 0 {
                lemma_rendering_width(self.texts(), cols, self.lines@.len() as int, 0);
            }
        }
        &self.buffer
    }
}

impl Default for Scroller {
    fn default() -> (s: Self)
        ensures
            s.lines@.len() == 0,
            s.buffer@.len() == 0,
            s.index == 0,
            s.wf(),
    {
        Self::new()
    }
}

/// Every piece of a line is tagged with the line's index and the width.
pub proof fn lemma_segments_tags(line: Seq<char>, width: usize, line_index: usize, k: int)
    requires
        0 <= k < segments(line, width, line_index).len(),
    ensures
        segments(line, width, line_index)[k].line == line_index,
        segments(line, width, line_index)[k].width == width,
    decreases line.len(),
{
    if line.len() > width && k > 0 {
        lemma_segments_tags(line.skip(width as int), width, line_index, k - 1);
    }
}

/// Every piece of a rendering is tagged with the width it was cut to.
pub proof fn lemma_rendering_width(lines: Seq<Seq<char>>, width: usize, upto: int, k: int)
    requires
        0 <= k < rendering_upto(lines, width, upto).len(),
    ensures
        rendering_upto(lines, width, upto)[k].width == width,
    decreases upto,
{
    if upto > 0 {
        let head = rendering_upto(lines, width, upto - 1);
        if k < head.len() {
            lemma_rendering_width(lines, width, upto - 1, k);
        } else {
            lemma_segments_tags(lines[upto - 1], width, (upto - 1) as usize, k - head.len());
        }
    }
}

/// How many pieces a line of `len` characters is cut into.
pub open spec fn piece_count(len: nat, width: usize) -> int {
    if width == 0 {
        0
    } else {
        (len + width - 1) / (width as int)
    }
}

/// A line is cut into as many pieces as its length divided by the width,
/// rounded up; piece `k` holds the characters from `k * width` up to the
/// next multiple of the width or the end of the line.
pub proof fn lemma_segments_closed_form(line: Seq<char>, width: usize, line_index: usize, k: int)
    requires
        width > 0,
    ensures
        segments(line, width, line_index).len() == piece_count(line.len(), width),
        0 <= k < piece_count(line.len(), width) ==> {
            &&& k * width < line.len()
            &&& segments(line, width, line_index)[k].text == line.subrange(
                k * width,
                if (k + 1) * width <= line.len() {
                    (k + 1) * width
                } else {
                    line.len() as int
                },
            )
        },
    decreases line.len(),
{
    let w = width as int;
    let n = line.len() as int;
    if n == 0 {
        assert((0 + w - 1) / w == 0) by (nonlinear_arith)
            requires
                w > 0,
        ;
    } else if n <= w {
        assert((n + w - 1) / w == 1) by (nonlinear_arith)
            requires
                0 < n <= w,
        ;
        if k == 0 {
            assert(line.subrange(0, n) =~= line);
            assert(0 * w == 0 && 1 * w == w) by (nonlinear_arith);
        }
    } else {
        let rest = line.skip(w);
        lemma_segments_closed_form(rest, width, line_index, k - 1);
        assert((n + w - 1) / w == (n - w + w - 1) / w + 1) by (nonlinear_arith)
            requires
                w > 0,
                n > w,
        ;
        if 0 <= k < piece_count(line.len(), width) {
            if k == 0 {
                assert(0 * w == 0 && 1 * w == w) by (nonlinear_arith);
                assert(line.take(w) =~= line.subrange(0, w));
            } else {
                assert((k - 1) * w + w == k * w && k * w + w == (k + 1) * w) by (nonlinear_arith);
                let end = if (k + 1) * w <= n {
                    (k + 1) * w
                } else {
                    n
                };
                assert(rest.subrange((k - 1) * w, end - w) =~= line.subrange(k * w, end));
            }
        }
    }
}

/// Pieces that were cut to one width are never taken for pieces of another
/// width: after a rendering at `first`, a request at `second` finds nothing
/// kept for it and cuts all lines anew.
pub proof fn lemma_other_width_renders_anew(s: Scroller, first: usize, second: usize)
    requires
        first != second,
        chunk_views(s.buffer@) == rendering(s.texts(), first),
    ensures
        !s.cached_for(second),
{
    if s.buffer@.len() > 0 {
        lemma_rendering_width(s.texts(), first, s.lines@.len() as int, 0);
        assert(chunk_views(s.buffer@)[0] == s.buffer@[0]@);
    }
}

/// The pieces of the lines up to `upto` are as many as the lines' piece
/// counts together.
pub open spec fn piece_total(lines: Seq<Seq<char>>, width: usize, upto: int) -> int
    decreases upto,
{
    if upto <= 0 {
        0
    } else {
        piece_total(lines, width, upto - 1) + piece_count(lines[upto - 1].len(), width)
    }
}

/// A rendering has, line by line, the number of pieces that the line's
/// length and the width give.
pub proof fn lemma_rendering_len(lines: Seq<Seq<char>>, width: usize, upto: int)
    requires
        width > 0,
    ensures
        rendering_upto(lines, width, upto).len() == piece_total(lines, width, upto),
    decreases upto,
{
    if upto > 0 {
        lemma_rendering_len(lines, width, upto - 1);
        lemma_segments_closed_form(lines[upto - 1], width, (upto - 1) as usize, 0);
    }
}

} // verus!
