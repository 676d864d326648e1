//! The faces of one object: lines that name a material (`usemtl`) and
//! lines that give a face (`f`), in any order.
use vstd::prelude::*;
use crate::data_structures::TriangleData;
use crate::parser::face::{face_at, lemma_face_advances, read_face, ParseError};
use crate::triangle::TriangleIndex;

verus! {

pub const LINE_FEED: u8 = 10;

pub const CARRIAGE_RETURN: u8 = 13;

/// The word `usemtl` and a blank.
pub open spec fn use_material() -> Seq<u8> {
    seq![117u8, 115u8, 101u8, 109u8, 116u8, 108u8, 32u8]
}

/// The letter `f` and a blank.
pub open spec fn face_mark() -> Seq<u8> {
    seq![102u8, 32u8]
}

/// The text goes on with `word` at `from`.
pub open spec fn starts_with(text: Seq<u8>, from: int, word: Seq<u8>) -> bool {
    &&& 0 <= from
    &&& from + word.len() <= text.len()
    &&& text.subrange(from, from + word.len()) == word
}

/// Where the line that `from` stands in ends: the position of the next line
/// feed, or the end of the text.
pub open spec fn line_end(text: Seq<u8>, from: int) -> int
    decreases text.len() - from,
{
    if 0 <= from < text.len() && text[from] != LINE_FEED {
        line_end(text, from + 1)
    } else {
        from
    }
}

/// The index of the material called `name` among the first `n` names: that
/// of the last one of that name.
pub open spec fn lookup(names: Seq<Seq<u8>>, name: Seq<u8>, n: nat) -> Option<usize>
    decreases n,
{
    if n == 0 {
        None
    } else if names[n - 1] == name {
        Some((n - 1) as usize)
    } else {
        lookup(names, name, (n - 1) as nat)
    }
}

/// The texts of a list of byte strings.
pub open spec fn texts(list: Seq<Vec<u8>>) -> Seq<Seq<u8>> {
    Seq::new(list.len(), |i: int| list[i]@)
}

/// A name that is found is found among the names, and is that name.
pub proof fn lemma_lookup_finds(names: Seq<Seq<u8>>, name: Seq<u8>, n: nat)
    requires
        n <= names.len() <= usize::MAX,
    ensures
        lookup(names, name, n) matches Some(i) ==> i < n && names[i as int] == name,
        lookup(names, name, n) is None ==> forall|j: int| 0 <= j < n ==> names[j] != name,
    decreases n,
{
    if n > 0 && names[n - 1] != name {
        lemma_lookup_finds(names, name, (n - 1) as nat);
    }
}

/// What stands at the start of a line.
pub struct Element {
    /// Where the element ends.
    pub end: int,
    /// The material that faces use from here on.
    pub material: usize,
    /// The vertices and the normal of the face, if the element is one.
    pub face: Option<(usize, usize, usize, usize)>,
}

/// The element at `from`: a material to use from now on, a face, or
/// nothing that concerns us.
pub open spec fn element_at(text: Seq<u8>, names: Seq<Seq<u8>>, from: int, material: usize) -> Result<
    Element,
    ParseError,
> {
    if starts_with(text, from, use_material()) {
        let end = line_end(text, from + 7);
        match lookup(names, text.subrange(from + 7, end), names.len()) {
            Some(m) => Ok(Element { end, material: m, face: None }),
            None => Err(ParseError::UnknownMaterial { position: (from + 7) as usize }),
        }
    } else if starts_with(text, from, face_mark()) {
        match face_at(text, from + 2) {
            Ok((face, end)) => Ok(Element { end, material, face: Some(face) }),
            Err(e) => Err(e),
        }
    } else {
        Ok(Element { end: from, material, face: None })
    }
}

/// Where the next line starts, given that an element ends at `from`:
/// behind a line feed, or behind a carriage return and a line feed.
/// Nothing at the end of the text.
pub open spec fn next_line(text: Seq<u8>, from: int) -> Result<Option<int>, ParseError> {
    if from == text.len() {
        Ok(None)
    } else if 0 <= from < text.len() && text[from] == LINE_FEED {
        Ok(Some(from + 1))
    } else if 0 <= from && from + 1 < text.len() && text[from] == CARRIAGE_RETURN && text[from + 1] == LINE_FEED {
        Ok(Some(from + 2))
    } else {
        Err(ParseError::Syntax { position: from as usize })
    }
}

/// With a triangle in front of those that follow, if any follow.
pub open spec fn preceded(
    first: Option<(usize, usize, usize, usize, usize)>,
    rest: Result<Seq<(usize, usize, usize, usize, usize)>, ParseError>,
) -> Result<Seq<(usize, usize, usize, usize, usize)>, ParseError> {
    match (first, rest) {
        (Some(t), Ok(s)) => Ok(seq![t] + s),
        (_, r) => r,
    }
}

/// The triangles of the lines from `from` on, where `material` is in use:
/// for each face its three vertices, its normal and the material in use.
pub open spec fn triangles_from(text: Seq<u8>, names: Seq<Seq<u8>>, from: int, material: usize) -> Result<
    Seq<(usize, usize, usize, usize, usize)>,
    ParseError,
>
    decreases text.len() - from,
    when 0 <= from <= text.len()
    via triangles_from_decreases
{
    match element_at(text, names, from, material) {
        Err(e) => Err(e),
        Ok(element) => {
            let triangle = match element.face {
                Some(f) => Some((f.0, f.1, f.2, f.3, element.material)),
                None => None,
            };
            match next_line(text, element.end) {
                Err(e) => Err(e),
                Ok(None) => preceded(triangle, Ok(Seq::empty())),
                Ok(Some(next)) => preceded(triangle, triangles_from(text, names, next, element.material)),
            }
        },
    }
}

#[via_fn]
proof fn triangles_from_decreases(text: Seq<u8>, names: Seq<Seq<u8>>, from: int, material: usize) {
    lemma_element_advances(text, names, from, material);
}

/// An element ends at or behind where it starts, inside the text.
pub proof fn lemma_element_advances(text: Seq<u8>, names: Seq<Seq<u8>>, from: int, material: usize)
    requires
        0 <= from <= text.len(),
    ensures
        element_at(text, names, from, material) matches Ok(element) ==> from <= element.end <= text.len(),
{
    if starts_with(text, from, use_material()) {
        lemma_line_end_in_text(text, from + 7);
    } else if starts_with(text, from, face_mark()) {
        lemma_face_advances(text, from + 2);
    }
}

/// A line ends inside the text or at its end.
pub proof fn lemma_line_end_in_text(text: Seq<u8>, from: int)
    requires
        0 <= from <= text.len(),
    ensures
        from <= line_end(text, from) <= text.len(),
    decreases text.len() - from,
{
    if from < text.len() && text[from] != LINE_FEED {
        lemma_line_end_in_text(text, from + 1);
    }
}

/// The line from `from` ends at `end` if no line feed stands before `end`
/// and one stands there, or the text ends there.
pub proof fn lemma_line_end(text: Seq<u8>, from: int, end: int)
    requires
        0 <= from <= end <= text.len(),
        forall|k: int| from <= k < end ==> #[trigger] text[k] != LINE_FEED,
        end == text.len() || text[end] == LINE_FEED,
    ensures
        line_end(text, from) == end,
    decreases end - from,
{
    if from < end {
        lemma_line_end(text, from + 1, end);
    }
}

/// Whether the text goes on with `word` at `from`.
pub fn goes_on_with(text: &[u8], from: usize, word: &[u8]) -> (r: bool)
    requires
        from <= text@.len(),
    ensures
        r == starts_with(text@, from as int, word@),
{
    if word.len() > text.len() - from {
        return false;
    }
    let mut k: usize = 0;
    while k < word.len()
        invariant
            k <= word@.len(),
            from + word@.len() <= text@.len() <= usize::MAX,
            forall|j: int| 0 <= j < k ==> text@[from + j] == word@[j],
        decreases word@.len() - k,
    {
        if text[from + k] != word[k] {
            assert(text@.subrange(from as int, from + word@.len())[k as int] != word@[k as int]);
            return false;
        }
        k += 1;
    }
    assert(text@.subrange(from as int, from + word@.len()) =~= word@);
    true
}

/// The index of the material whose name is `text[from .. to]`: that of the
/// last one of that name.
pub fn find_material(material_names: &Vec<Vec<u8>>, text: &[u8], from: usize, to: usize) -> (r: Option<usize>)
    requires
        from <= to <= text@.len(),
    ensures
        r == lookup(texts(material_names@), text@.subrange(from as int, to as int), material_names@.len()),
{
    let ghost names = texts(material_names@);
    let ghost name = text@.subrange(from as int, to as int);
    let mut n: usize = material_names.len();
    while n > 0
        invariant
            n <= material_names@.len(),
            names == texts(material_names@),
            name == text@.subrange(from as int, to as int),
            from <= to <= text@.len(),
            lookup(names, name, material_names@.len()) == lookup(names, name, n as nat),
        decreases n,
    {
        let candidate = &material_names[n - 1];
        let same = candidate.len() == to - from && goes_on_with(text, from, candidate.as_slice());
        if same {
            assert(candidate@ == name);
            return Some(n - 1);
        }
        assert(candidate@ != name) by {
            if candidate@.len() == to - from {
                assert(name == text@.subrange(from as int, from + candidate@.len()));
            }
        }
        n -= 1;
    }
    None
}

/// Reads the faces of an object.
///
/// The text is a list of lines. A line `usemtl NAME` makes the material
/// called `NAME` the one in use; `material_names` lists the names of the
/// materials, each at the index of its material, and material `0` is in
/// use at first. A line `f A B C` gives a triangle, where each of `A`,
/// `B`, `C` is `v/vt/vn` or `v//vn`, with indices counted from one: the
/// triangle gets the three `v`, the `vn` of `A` and the material in use,
/// all counted from zero. Empty lines are passed over; any other line is an
/// error.
pub fn parse_triangle_indices(input: &[u8], material_names: &Vec<Vec<u8>>) -> (r: Result<Vec<TriangleIndex>, ParseError>)
    ensures
        match r {
            Ok(triangles) => triangles_from(input@, texts(material_names@), 0, 0) == Ok::<_, ParseError>(
                triangles@.map_values(|t: TriangleIndex| t.indices_spec()),
            ),
            Err(e) => triangles_from(input@, texts(material_names@), 0, 0) == Err::<
                Seq<(usize, usize, usize, usize, usize)>,
                _,
            >(e),
        },
{
    let ghost names = texts(material_names@);
    let ghost whole = triangles_from(input@, names, 0, 0);
    let use_material_word: [u8; 7] = [117, 115, 101, 109, 116, 108, 32];
    let face_word: [u8; 2] = [102, 32];
    assert(use_material_word@ =~= use_material());
    assert(face_word@ =~= face_mark());
    let length: usize = input.len();
    let mut triangles: Vec<TriangleIndex> = Vec::new();
    let mut material: usize = 0;
    let mut i: usize = 0;
    assert(triangles@.map_values(|t: TriangleIndex| t.indices_spec()) =~= Seq::empty());
    loop
        invariant
            i <= input@.len(),
            length == input@.len(),
            names == texts(material_names@),
            use_material_word@ == use_material(),
            face_word@ == face_mark(),
            whole == triangles_from(input@, names, 0, 0),
            whole == continued(
                triangles@.map_values(|t: TriangleIndex| t.indices_spec()),
                triangles_from(input@, names, i as int, material),
            ),
        decreases input@.len() - i,
    {
        let ghost before = triangles@.map_values(|t: TriangleIndex| t.indices_spec());
        let ghost here = triangles_from(input@, names, i as int, material);
        let ghost element = element_at(input@, names, i as int, material);
        proof {
            lemma_element_advances(input@, names, i as int, material);
        }
        let mut end: usize = i;
        let mut next_material: usize = material;
        if goes_on_with(input, i, use_material_word.as_slice()) {
            assert(use_material().len() == 7);
            let mut line: usize = i + 7;
            while line < input.len() && input[line] != LINE_FEED
                invariant
                    i + 7 <= line <= input@.len(),
                    forall|k: int| i + 7 <= k < line ==> #[trigger] input@[k] != LINE_FEED,
                decreases input@.len() - line,
            {
                line += 1;
            }
            proof {
                lemma_line_end(input@, i + 7, line as int);
            }
            match find_material(material_names, input, i + 7, line) {
                Some(m) => {
                    next_material = m;
                    end = line;
                },
                None => {
                    return Err(ParseError::UnknownMaterial { position: i + 7 });
                },
            }
        } else if goes_on_with(input, i, face_word.as_slice()) {
            assert(face_mark().len() == 2);
            match read_face(input, i + 2) {
                Ok((face, after)) => {
                    let triangle = TriangleIndex::new((face.0, face.1, face.2), face.3, material);
                    triangles.push(triangle);
                    end = after;
                    assert(triangles@.map_values(|t: TriangleIndex| t.indices_spec()) =~= before + seq![
                        (face.0, face.1, face.2, face.3, material),
                    ]);
                },
                Err(e) => {
                    return Err(e);
                },
            }
        }
        let ghost after = triangles@.map_values(|t: TriangleIndex| t.indices_spec());
        assert(element == Ok::<_, ParseError>(
            Element { end: end as int, material: next_material, face: element->Ok_0.face },
        ));
        if end == input.len() {
            assert(whole == Ok::<_, ParseError>(after)) by {
                assert(after + Seq::empty() =~= after);
                if element->Ok_0.face is Some {
                    assert(before + (seq![after.last()] + Seq::empty()) =~= after);
                }
            }
            return Ok(triangles);
        } else if input[end] == LINE_FEED {
            i = end + 1;
        } else if input[end] == CARRIAGE_RETURN && end + 1 < input.len() && input[end + 1] == LINE_FEED {
            i = end + 2;
        } else {
            return Err(ParseError::Syntax { position: end });
        }
        material = next_material;
        proof {
            let rest = triangles_from(input@, names, i as int, material);
            if element->Ok_0.face is Some {
                if let Ok(s) = rest {
                    assert(before + (seq![after.last()] + s) =~= after + s);
                }
            }
        }
    }
}

/// The triangles read so far, and behind them those that the rest gives.
pub open spec fn continued(
    so_far: Seq<(usize, usize, usize, usize, usize)>,
    rest: Result<Seq<(usize, usize, usize, usize, usize)>, ParseError>,
) -> Result<Seq<(usize, usize, usize, usize, usize)>, ParseError> {
    match rest {
        Ok(s) => Ok(so_far + s),
        Err(e) => Err(e),
    }
}

/// The record of a triangle: its five indices, each cut down to 32 bits.
pub open spec fn record_of(indices: (usize, usize, usize, usize, usize)) -> TriangleData {
    TriangleData {
        v0_index: indices.0 as u32,
        v1_index: indices.1 as u32,
        v2_index: indices.2 as u32,
        normal_index: indices.3 as u32,
        material_index: indices.4 as u32,
    }
}

/// The record of a triangle.
pub fn to_record(triangle: &TriangleIndex) -> (record: TriangleData)
    ensures
        record == record_of(triangle.indices_spec()),
{
    let (v0, v1, v2, n, m) = triangle.indices();
    TriangleData::new(low_word(v0), low_word(v1), low_word(v2), low_word(n), low_word(m))
}

/// The low 32 bits of an index.
fn low_word(index: usize) -> (word: u32)
    ensures
        word == index as u32,
{
    #[verifier::truncate]
    (index as u32)
}

/// The records of a list of triangles.
pub fn to_records(triangles: &Vec<TriangleIndex>) -> (records: Vec<TriangleData>)
    ensures
        records@ == triangles@.map_values(|t: TriangleIndex| record_of(t.indices_spec())),
{
    let mut records: Vec<TriangleData> = Vec::new();
    let mut i: usize = 0;
    while i < triangles.len()
        invariant
            i <= triangles@.len(),
            records@ == triangles@.subrange(0, i as int).map_values(|t: TriangleIndex| record_of(t.indices_spec())),
        decreases triangles@.len() - i,
    {
        let ghost before = records@;
        records.push(to_record(&triangles[i]));
        assert(records@ =~= triangles@.subrange(0, i + 1).map_values(
            |t: TriangleIndex| record_of(t.indices_spec()),
        ));
        i += 1;
    }
    assert(triangles@.subrange(0, triangles@.len() as int) == triangles@);
    records
}

/// Reads the faces of an object as records: as [`parse_triangle_indices`]
/// does, with each index cut down to 32 bits.
pub fn parse_triangles(input: &[u8], material_names: &Vec<Vec<u8>>) -> (r: Result<Vec<TriangleData>, ParseError>)
    ensures
        match r {
            Ok(records) => triangles_from(input@, texts(material_names@), 0, 0) matches Ok(triangles) && records@
                == triangles.map_values(|t: (usize, usize, usize, usize, usize)| record_of(t)),
            Err(e) => triangles_from(input@, texts(material_names@), 0, 0) == Err::<
                Seq<(usize, usize, usize, usize, usize)>,
                _,
            >(e),
        },
{
    match parse_triangle_indices(input, material_names) {
        Ok(triangles) => {
            let records = to_records(&triangles);
            assert(records@ =~= triangles@.map_values(|t: TriangleIndex| t.indices_spec()).map_values(
                |t: (usize, usize, usize, usize, usize)| record_of(t),
            ));
            Ok(records)
        },
        Err(e) => Err(e),
    }
}

} // verus!
