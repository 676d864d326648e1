//! The lines of a scene file that are about vertices: which kind each is
//! of, and where its numbers stand. What the numbers are worth is not
//! looked at here.
use vstd::prelude::*;
use vstd::slice::slice_subrange;
use crate::parser::face::ParseError;
use crate::parser::objects::{normal_mark, position_mark, texture_mark};
use crate::parser::triangles::{goes_on_with, starts_with, CARRIAGE_RETURN, LINE_FEED};

verus! {

/// What `nom` finds at the start of a text when it looks for a number in
/// decimal notation (or `nan`, `inf`, `infinity`): the length of the
/// number, or else whether what stands there is the broken start of one (a
/// number cut off behind its `e`).
pub uninterp spec fn number_token(text: Seq<u8>) -> Result<nat, bool>;

/// `nom::number::complete::recognize_float_or_exceptions`, on bytes: the
/// length of the number that the text starts with. A number has at least
/// one byte and lies in the text. Without a number the result says whether
/// `nom` gives up for good (`true`) or only missed one (`false`).
#[verifier::external_body]
fn recognize_number(text: &[u8]) -> (r: Result<usize, bool>)
    ensures
        number_token(text@) == (match r {
            Ok(n) => Ok::<nat, bool>(n as nat),
            Err(broken) => Err(broken),
        }),
        r is Ok ==> 1 <= r->Ok_0 <= text@.len(),
{
    match nom::number::complete::recognize_float_or_exceptions::<&[u8], nom::error::Error<&[u8]>>(text) {
        Ok((_, token)) => Ok(token.len()),
        Err(nom::Err::Error(_)) => Err(false),
        Err(nom::Err::Failure(_)) => Err(true),
        Err(nom::Err::Incomplete(_)) => Err(true),
    }
}

/// A run of bytes of the text: from `start` up to `end`.
pub type Span = (usize, usize);

/// The byte is a blank or a tab.
pub open spec fn is_blank(b: u8) -> bool {
    b == 32 || b == 9
}

/// Where the run of blanks and tabs that starts at `from` ends.
pub open spec fn blanks_end(text: Seq<u8>, from: int) -> int
    decreases text.len() - from,
{
    if 0 <= from < text.len() && is_blank(text[from]) {
        blanks_end(text, from + 1)
    } else {
        from
    }
}

/// The number that stands at `from`, if one does: its span. Otherwise
/// whether a broken one does.
pub open spec fn number_at(text: Seq<u8>, from: int) -> Result<(int, int), bool> {
    match number_token(text.skip(from)) {
        Ok(n) => if 1 <= n && from + n <= text.len() {
            Ok((from, from + n))
        } else {
            Err(false)
        },
        Err(broken) => Err(broken),
    }
}

/// The numbers that follow a number that ends at `from`, each behind at
/// least one blank or tab, and where the last of them ends. Blanks behind
/// the last number are not taken. The error is the position of a broken
/// number.
pub open spec fn more_numbers(text: Seq<u8>, from: int) -> Result<(Seq<(int, int)>, int), int>
    decreases text.len() - from,
    when 0 <= from <= text.len()
    via more_numbers_decreases
{
    let next = blanks_end(text, from);
    if next == from {
        Ok((Seq::empty(), from))
    } else {
        match number_at(text, next) {
            Ok(span) => match more_numbers(text, span.1) {
                Ok((rest, end)) => Ok((seq![span] + rest, end)),
                Err(position) => Err(position),
            },
            Err(false) => Ok((Seq::empty(), from)),
            Err(true) => Err(next),
        }
    }
}

#[via_fn]
proof fn more_numbers_decreases(text: Seq<u8>, from: int) {
    lemma_blanks_end_in_text(text, from);
}

/// A list of one number or more at `from`, and where it ends. The error is
/// the position at which no number stands, and whether a broken one does.
pub open spec fn numbers_at(text: Seq<u8>, from: int) -> Result<(Seq<(int, int)>, int), (int, bool)> {
    match number_at(text, from) {
        Ok(span) => match more_numbers(text, span.1) {
            Ok((rest, end)) => Ok((seq![span] + rest, end)),
            Err(position) => Err((position, true)),
        },
        Err(broken) => Err((from, broken)),
    }
}

/// What a line about a vertex gives.
#[derive(Debug, Clone, Copy, PartialEq, Eq, Structural)]
pub enum VertexKind {
    /// `v x y z`
    Position,
    /// `vn x y z`
    Normal,
    /// `vt u v`
    TexCoord,
}

impl VertexKind {
    /// How many numbers a line of this kind needs; it may give more.
    pub open spec fn needs(self) -> nat {
        match self {
            VertexKind::TexCoord => 2,
            _ => 3,
        }
    }
}

/// A line about a vertex.
pub struct VertexLineView {
    pub kind: VertexKind,
    /// The spans of the numbers that the line needs.
    pub numbers: Seq<(int, int)>,
    /// Where the line ends.
    pub end: int,
}

/// The line of the given kind whose numbers start at `from`. Nothing where
/// no number stands there.
pub open spec fn line_of(text: Seq<u8>, start: int, from: int, kind: VertexKind) -> Result<
    Option<VertexLineView>,
    ParseError,
> {
    match numbers_at(text, from) {
        Ok((numbers, end)) => if numbers.len() >= kind.needs() {
            Ok(Some(VertexLineView { kind, numbers: numbers.take(kind.needs() as int), end }))
        } else {
            Err(ParseError::TooFewNumbers { position: start as usize })
        },
        Err((position, true)) => Err(ParseError::Syntax { position: position as usize }),
        Err((_, false)) => Ok(None),
    }
}

/// The line about a vertex that starts at `from`: nothing where the text
/// does not go on with `v`, `vn` or `vt` and a blank and a number.
pub open spec fn vertex_line_at(text: Seq<u8>, from: int) -> Result<Option<VertexLineView>, ParseError> {
    if starts_with(text, from, position_mark()) {
        line_of(text, from, from + 2, VertexKind::Position)
    } else if starts_with(text, from, normal_mark()) {
        line_of(text, from, from + 3, VertexKind::Normal)
    } else if starts_with(text, from, texture_mark()) {
        line_of(text, from, from + 3, VertexKind::TexCoord)
    } else {
        Ok(None)
    }
}

/// Where the line behind a line ending that stands at `from` starts.
pub open spec fn line_break(text: Seq<u8>, from: int) -> Option<int> {
    if 0 <= from < text.len() && text[from] == LINE_FEED {
        Some(from + 1)
    } else if 0 <= from && from + 1 < text.len() && text[from] == CARRIAGE_RETURN && text[from + 1] == LINE_FEED {
        Some(from + 2)
    } else {
        None
    }
}

/// The lines about vertices that follow a line that ends at `from`, each
/// behind a line ending, and where the last of them ends. The list ends
/// before the first line ending behind which no such line stands.
pub open spec fn more_lines(text: Seq<u8>, from: int) -> Result<(Seq<VertexLineView>, int), ParseError>
    decreases text.len() - from,
    when 0 <= from <= text.len()
    via more_lines_decreases
{
    match line_break(text, from) {
        None => Ok((Seq::empty(), from)),
        Some(next) => match vertex_line_at(text, next) {
            Err(e) => Err(e),
            Ok(None) => Ok((Seq::empty(), from)),
            Ok(Some(line)) => match more_lines(text, line.end) {
                Ok((rest, end)) => Ok((seq![line] + rest, end)),
                Err(e) => Err(e),
            },
        },
    }
}

#[via_fn]
proof fn more_lines_decreases(text: Seq<u8>, from: int) {
    if let Some(next) = line_break(text, from) {
        lemma_vertex_line_advances(text, next);
    }
}

/// The lines about vertices that a text starts with, one or more, and
/// where they end.
pub open spec fn vertex_lines(text: Seq<u8>) -> Result<(Seq<VertexLineView>, int), ParseError> {
    match vertex_line_at(text, 0) {
        Err(e) => Err(e),
        Ok(None) => Err(ParseError::Syntax { position: 0 }),
        Ok(Some(line)) => match more_lines(text, line.end) {
            Ok((rest, end)) => Ok((seq![line] + rest, end)),
            Err(e) => Err(e),
        },
    }
}

/// The numbers of the lines of one kind, in order.
pub open spec fn of_kind(lines: Seq<VertexLineView>, kind: VertexKind) -> Seq<Seq<(int, int)>>
    decreases lines.len(),
{
    if lines.len() == 0 {
        Seq::empty()
    } else if lines.last().kind == kind {
        of_kind(lines.drop_last(), kind).push(lines.last().numbers)
    } else {
        of_kind(lines.drop_last(), kind)
    }
}

/// Further numbers end at or behind where they start, inside the text.
pub proof fn lemma_more_numbers_advance(text: Seq<u8>, from: int)
    requires
        0 <= from <= text.len(),
    ensures
        more_numbers(text, from) matches Ok((_, end)) ==> from <= end <= text.len(),
    decreases text.len() - from,
{
    lemma_blanks_end_in_text(text, from);
    let next = blanks_end(text, from);
    if next != from {
        if let Ok(span) = number_at(text, next) {
            lemma_more_numbers_advance(text, span.1);
        }
    }
}

/// A line about a vertex ends behind where it starts, inside the text.
pub proof fn lemma_vertex_line_advances(text: Seq<u8>, from: int)
    requires
        0 <= from <= text.len(),
    ensures
        vertex_line_at(text, from) matches Ok(Some(line)) ==> from < line.end <= text.len(),
{
    if starts_with(text, from, position_mark()) {
        if let Ok(span) = number_at(text, from + 2) {
            lemma_more_numbers_advance(text, span.1);
        }
    } else if starts_with(text, from, normal_mark()) {
        if let Ok(span) = number_at(text, from + 3) {
            lemma_more_numbers_advance(text, span.1);
        }
    } else if starts_with(text, from, texture_mark()) {
        if let Ok(span) = number_at(text, from + 3) {
            lemma_more_numbers_advance(text, span.1);
        }
    }
}

/// A run of blanks ends inside the text or at its end.
pub proof fn lemma_blanks_end_in_text(text: Seq<u8>, from: int)
    requires
        0 <= from <= text.len(),
    ensures
        from <= blanks_end(text, from) <= text.len(),
    decreases text.len() - from,
{
    if from < text.len() && is_blank(text[from]) {
        lemma_blanks_end_in_text(text, from + 1);
    }
}

pub proof fn lemma_blanks_end(text: Seq<u8>, from: int, end: int)
    requires
        0 <= from <= end <= text.len(),
        forall|k: int| from <= k < end ==> is_blank(#[trigger] text[k]),
        end == text.len() || !is_blank(text[end]),
    ensures
        blanks_end(text, from) == end,
    decreases end - from,
{
    if from < end {
        lemma_blanks_end(text, from + 1, end);
    }
}

/// A line about a vertex, with the spans of its numbers.
#[derive(Debug, Clone, PartialEq, Eq)]
pub struct VertexLine {
    pub kind: VertexKind,
    /// The spans of the numbers that the line needs: three, or two for a
    /// texture coordinate.
    pub numbers: Vec<Span>,
}

/// The spans as positions.
pub open spec fn spans(numbers: Seq<Span>) -> Seq<(int, int)> {
    Seq::new(numbers.len(), |i: int| (numbers[i].0 as int, numbers[i].1 as int))
}

/// The spans of each entry of a list.
pub open spec fn spans_of(list: Seq<Vec<Span>>) -> Seq<Seq<(int, int)>> {
    Seq::new(list.len(), |i: int| spans(list[i]@))
}

/// Where the numbers of the lines about vertices stand, by kind.
pub struct VertexSpans {
    /// For each line `v x y z` the spans of `x`, `y` and `z`.
    pub positions: Vec<Vec<Span>>,
    /// For each line `vn x y z` the spans of `x`, `y` and `z`.
    pub normals: Vec<Vec<Span>>,
    /// For each line `vt u v` the spans of `u` and `v`.
    pub tex_coords: Vec<Vec<Span>>,
    /// Where the lines end.
    pub end: usize,
}

impl VertexSpans {
    /// The spans are those of the given lines, which end at `end`.
    pub open spec fn holds(self, lines: Seq<VertexLineView>, end: int) -> bool {
        &&& spans_of(self.positions@) == of_kind(lines, VertexKind::Position)
        &&& spans_of(self.normals@) == of_kind(lines, VertexKind::Normal)
        &&& spans_of(self.tex_coords@) == of_kind(lines, VertexKind::TexCoord)
        &&& self.end == end
    }
}

/// Reads the number that stands at `from`.
pub fn read_number_at(text: &[u8], from: usize) -> (r: Result<Span, bool>)
    requires
        from <= text@.len(),
    ensures
        match r {
            Ok(span) => number_at(text@, from as int) == Ok::<(int, int), bool>((span.0 as int, span.1 as int))
                && span.0 == from && from < span.1 <= text@.len(),
            Err(broken) => number_at(text@, from as int) == Err::<(int, int), _>(broken),
        },
{
    let rest = slice_subrange(text, from, text.len());
    assert(rest@ == text@.skip(from as int));
    match recognize_number(rest) {
        Ok(n) => Ok((from, from + n)),
        Err(broken) => Err(broken),
    }
}

/// Reads a list of one number or more at `from`.
pub fn read_numbers(text: &[u8], from: usize) -> (r: Result<(Vec<Span>, usize), (usize, bool)>)
    requires
        from <= text@.len(),
    ensures
        match r {
            Ok((numbers, end)) => numbers_at(text@, from as int) == Ok::<_, (int, bool)>(
                (spans(numbers@), end as int),
            ) && from < end <= text@.len(),
            Err((position, broken)) => numbers_at(text@, from as int) == Err::<(Seq<(int, int)>, int), _>(
                (position as int, broken),
            ),
        },
{
    let first = match read_number_at(text, from) {
        Ok(span) => span,
        Err(broken) => {
            return Err((from, broken));
        },
    };
    let mut numbers: Vec<Span> = Vec::new();
    numbers.push(first);
    let mut end: usize = first.1;
    assert(spans(numbers@) =~= seq![(first.0 as int, first.1 as int)]);
    loop
        invariant
            from < end <= text@.len(),
            numbers@.len() >= 1,
            number_at(text@, from as int) == Ok::<(int, int), bool>((first.0 as int, first.1 as int)),
            numbers_at(text@, from as int) == match more_numbers(text@, end as int) {
                Ok((rest, last)) => Ok::<_, (int, bool)>((spans(numbers@) + rest, last)),
                Err(position) => Err((position, true)),
            },
        decreases text@.len() - end,
    {
        let mut next: usize = end;
        while next < text.len() && (text[next] == 32 || text[next] == 9)
            invariant
                end <= next <= text@.len(),
                forall|k: int| end <= k < next ==> is_blank(#[trigger] text@[k]),
            decreases text@.len() - next,
        {
            next += 1;
        }
        proof {
            lemma_blanks_end(text@, end as int, next as int);
        }
        if next == end {
            assert(spans(numbers@) + Seq::empty() =~= spans(numbers@));
            return Ok((numbers, end));
        }
        match read_number_at(text, next) {
            Ok(span) => {
                let ghost before = spans(numbers@);
                numbers.push(span);
                proof {
                    assert(spans(numbers@) =~= before + seq![(span.0 as int, span.1 as int)]);
                    if let Ok((rest, last)) = more_numbers(text@, span.1 as int) {
                        assert(before + (seq![(span.0 as int, span.1 as int)] + rest) =~= spans(numbers@) + rest);
                    }
                }
                end = span.1;
            },
            Err(false) => {
                assert(spans(numbers@) + Seq::empty() =~= spans(numbers@));
                return Ok((numbers, end));
            },
            Err(true) => {
                return Err((next, true));
            },
        }
    }
}

/// Reads the line of the given kind whose numbers start at `from`.
fn read_line_of(text: &[u8], start: usize, from: usize, kind: VertexKind) -> (r: Result<
    Option<(VertexLine, usize)>,
    ParseError,
>)
    requires
        start <= from <= text@.len(),
    ensures
        match r {
            Ok(Some((line, end))) => line_of(text@, start as int, from as int, kind) matches Ok(Some(view))
                && line.kind == view.kind && spans(line.numbers@) == view.numbers && end == view.end && start
                < end <= text@.len(),
            Ok(None) => line_of(text@, start as int, from as int, kind) == Ok::<_, ParseError>(
                None::<VertexLineView>,
            ),
            Err(e) => line_of(text@, start as int, from as int, kind) == Err::<Option<VertexLineView>, _>(e),
        },
{
    match read_numbers(text, from) {
        Ok((all, end)) => {
            let needs: usize = match kind {
                VertexKind::TexCoord => 2,
                _ => 3,
            };
            if all.len() >= needs {
                let mut numbers: Vec<Span> = Vec::new();
                let mut i: usize = 0;
                while i < needs
                    invariant
                        i <= needs <= all@.len(),
                        numbers@ == all@.take(i as int),
                    decreases needs - i,
                {
                    numbers.push(all[i]);
                    i += 1;
                }
                assert(spans(numbers@) =~= spans(all@).take(needs as int));
                Ok(Some((VertexLine { kind, numbers }, end)))
            } else {
                Err(ParseError::TooFewNumbers { position: start })
            }
        },
        Err((position, true)) => Err(ParseError::Syntax { position }),
        Err((_, false)) => Ok(None),
    }
}

/// Reads the line about a vertex that starts at `from`, if one does.
pub fn read_vertex_line(text: &[u8], from: usize) -> (r: Result<Option<(VertexLine, usize)>, ParseError>)
    requires
        from <= text@.len(),
    ensures
        match r {
            Ok(Some((line, end))) => vertex_line_at(text@, from as int) matches Ok(Some(view)) && line.kind
                == view.kind && spans(line.numbers@) == view.numbers && end == view.end && from < end
                <= text@.len(),
            Ok(None) => vertex_line_at(text@, from as int) == Ok::<_, ParseError>(None::<VertexLineView>),
            Err(e) => vertex_line_at(text@, from as int) == Err::<Option<VertexLineView>, _>(e),
        },
{
    let position_word: [u8; 2] = [118, 32];
    let normal_word: [u8; 3] = [118, 110, 32];
    let texture_word: [u8; 3] = [118, 116, 32];
    assert(position_word@ =~= position_mark());
    assert(normal_word@ =~= normal_mark());
    assert(texture_word@ =~= texture_mark());
    let length: usize = text.len();
    if goes_on_with(text, from, position_word.as_slice()) {
        assert(position_mark().len() == 2);
        read_line_of(text, from, from + 2, VertexKind::Position)
    } else if goes_on_with(text, from, normal_word.as_slice()) {
        assert(normal_mark().len() == 3);
        read_line_of(text, from, from + 3, VertexKind::Normal)
    } else if goes_on_with(text, from, texture_word.as_slice()) {
        assert(texture_mark().len() == 3);
        read_line_of(text, from, from + 3, VertexKind::TexCoord)
    } else {
        Ok(None)
    }
}

/// Puts the numbers of a line behind those of its kind.
fn keep(data: &mut VertexSpans, line: VertexLine, Ghost(lines): Ghost<Seq<VertexLineView>>, Ghost(view): Ghost<
    VertexLineView,
>)
    requires
        old(data).holds(lines, old(data).end as int),
        line.kind == view.kind,
        spans(line.numbers@) == view.numbers,
    ensures
        final(data).holds(lines.push(view), old(data).end as int),
{
    assert(lines.push(view).drop_last() =~= lines);
    match line.kind {
        VertexKind::Position => {
            data.positions.push(line.numbers);
            assert(spans_of(data.positions@) =~= spans_of(old(data).positions@).push(view.numbers));
        },
        VertexKind::Normal => {
            data.normals.push(line.numbers);
            assert(spans_of(data.normals@) =~= spans_of(old(data).normals@).push(view.numbers));
        },
        VertexKind::TexCoord => {
            data.tex_coords.push(line.numbers);
            assert(spans_of(data.tex_coords@) =~= spans_of(old(data).tex_coords@).push(view.numbers));
        },
    }
}

/// Reads the lines about vertices that a text starts with, and sorts
/// their numbers by kind.
///
/// A line is `v x y z`, `vn x y z` or `vt u v`, with blanks or tabs between
/// the numbers; lines are parted by line endings. There must be one line at
/// least, and each must give the numbers that it needs; what it gives
/// beyond them is dropped. The list ends where no further line follows a
/// line ending; what stands behind it is left alone.
///
/// Returns where the numbers stand in the text, not what they are worth.
pub fn parse_vertex_data(text: &[u8]) -> (r: Result<VertexSpans, ParseError>)
    ensures
        match r {
            Ok(data) => vertex_lines(text@) matches Ok((lines, end)) && data.holds(lines, end) && data.end
                <= text@.len(),
            Err(e) => vertex_lines(text@) == Err::<(Seq<VertexLineView>, int), _>(e),
        },
{
    let (first, first_end) = match read_vertex_line(text, 0) {
        Err(e) => {
            return Err(e);
        },
        Ok(None) => {
            return Err(ParseError::Syntax { position: 0 });
        },
        Ok(Some(line)) => line,
    };
    let ghost first_view = vertex_line_at(text@, 0)->Ok_0->Some_0;
    let mut data = VertexSpans { positions: Vec::new(), normals: Vec::new(), tex_coords: Vec::new(), end: 0 };
    assert(spans_of(data.positions@) =~= Seq::empty());
    assert(spans_of(data.normals@) =~= Seq::empty());
    assert(spans_of(data.tex_coords@) =~= Seq::empty());
    keep(&mut data, first, Ghost(Seq::empty()), Ghost(first_view));
    data.end = first_end;
    let ghost mut lines: Seq<VertexLineView> = seq![first_view];
    assert(lines =~= Seq::<VertexLineView>::empty().push(first_view));
    loop
        invariant
            data.end <= text@.len(),
            data.holds(lines, data.end as int),
            vertex_lines(text@) == match more_lines(text@, data.end as int) {
                Ok((rest, last)) => Ok::<_, ParseError>((lines + rest, last)),
                Err(e) => Err(e),
            },
        decreases text@.len() - data.end,
    {
        let end: usize = data.end;
        let next: usize = if end < text.len() && text[end] == LINE_FEED {
            end + 1
        } else if end < text.len() && end + 1 < text.len() && text[end] == CARRIAGE_RETURN && text[end + 1]
            == LINE_FEED {
            end + 2
        } else {
            assert(lines + Seq::empty() =~= lines);
            return Ok(data);
        };
        match read_vertex_line(text, next) {
            Err(e) => {
                return Err(e);
            },
            Ok(None) => {
                assert(lines + Seq::empty() =~= lines);
                return Ok(data);
            },
            Ok(Some((line, line_end))) => {
                let ghost view = vertex_line_at(text@, next as int)->Ok_0->Some_0;
                let ghost before = lines;
                keep(&mut data, line, Ghost(lines), Ghost(view));
                data.end = line_end;
                proof {
                    lines = lines.push(view);
                    if let Ok((rest, last)) = more_lines(text@, line_end as int) {
                        assert(before + (seq![view] + rest) =~= lines + rest);
                    }
                }
            },
        }
    }
}

} // verus!
