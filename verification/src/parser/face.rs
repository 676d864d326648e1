//! One face of a scene file: three groups of indices, each of the form
//! `v/vt/vn`, `v//vn`, `v/vt` or `v`, counted from one.
use vstd::prelude::*;
use crate::data_structures::TriangleData;
use crate::parser::number::{digits_end, lemma_digits_end_in_text, number_at, read_number};

verus! {

pub const SLASH: u8 = 47;

/// Why a text could not be read.
#[derive(Debug, Clone, Copy, PartialEq, Eq, Structural)]
pub enum ParseError {
    /// The byte at `position` is not what has to stand there.
    Syntax { position: usize },
    /// The face that starts at `position` lacks the index of a vertex or
    /// of the normal, or gives it as zero.
    MissingIndex { position: usize },
    /// The name at `position` is not the name of a material.
    UnknownMaterial { position: usize },
    /// The line at `position` belongs to an object, and none was declared.
    NoObject { position: usize },
    /// The line at `position` gives fewer numbers than its kind needs.
    TooFewNumbers { position: usize },
}

/// The byte is white space: a blank, a tab, a line feed, a vertical tab, a
/// form feed or a carriage return.
pub open spec fn is_space(b: u8) -> bool {
    b == 32 || 9 <= b <= 13
}

/// Where the run of white space that starts at `from` ends.
pub open spec fn spaces_end(text: Seq<u8>, from: int) -> int
    decreases text.len() - from,
{
    if 0 <= from < text.len() && is_space(text[from]) {
        spaces_end(text, from + 1)
    } else {
        from
    }
}

/// One place of a group: a slash alone, which leaves the place empty, or a
/// number, which swallows a slash that follows it.
pub open spec fn slot_at(text: Seq<u8>, from: int) -> Result<(Option<usize>, int), ParseError> {
    if 0 <= from < text.len() && text[from] == SLASH {
        Ok((None, from + 1))
    } else {
        match number_at(text, from) {
            Some((value, end)) => Ok(
                (Some(value), if end < text.len() && text[end] == SLASH {
                    end + 1
                } else {
                    end
                }),
            ),
            None => Err(ParseError::Syntax { position: from as usize }),
        }
    }
}

/// A group of three places, after any white space.
pub open spec fn group_at(text: Seq<u8>, from: int) -> Result<
    ((Option<usize>, Option<usize>, Option<usize>), int),
    ParseError,
> {
    match slot_at(text, spaces_end(text, from)) {
        Err(e) => Err(e),
        Ok((a, after_a)) => match slot_at(text, after_a) {
            Err(e) => Err(e),
            Ok((b, after_b)) => match slot_at(text, after_b) {
                Err(e) => Err(e),
                Ok((c, after_c)) => Ok(((a, b, c), after_c)),
            },
        },
    }
}

/// An index that is given and is not zero.
pub open spec fn given(index: Option<usize>) -> bool {
    index matches Some(i) && i >= 1
}

/// A face of three groups: the indices of its three vertices, taken from
/// the first place of each group, and of its normal, taken from the third
/// place of the first group, all counted from zero; and where the face ends.
pub open spec fn face_at(text: Seq<u8>, from: int) -> Result<((usize, usize, usize, usize), int), ParseError> {
    match group_at(text, from) {
        Err(e) => Err(e),
        Ok((g0, after_0)) => match group_at(text, after_0) {
            Err(e) => Err(e),
            Ok((g1, after_1)) => match group_at(text, after_1) {
                Err(e) => Err(e),
                Ok((g2, after_2)) => if given(g0.0) && given(g1.0) && given(g2.0) && given(g0.2) {
                    Ok(
                        (
                            (
                                (g0.0->0 - 1) as usize,
                                (g1.0->0 - 1) as usize,
                                (g2.0->0 - 1) as usize,
                                (g0.2->0 - 1) as usize,
                            ),
                            after_2,
                        ),
                    )
                } else {
                    Err(ParseError::MissingIndex { position: from as usize })
                },
            },
        },
    }
}

/// A run of white space ends inside the text or at its end.
pub proof fn lemma_spaces_end_in_text(text: Seq<u8>, from: int)
    requires
        0 <= from <= text.len(),
    ensures
        from <= spaces_end(text, from) <= text.len(),
    decreases text.len() - from,
{
    if from < text.len() && is_space(text[from]) {
        lemma_spaces_end_in_text(text, from + 1);
    }
}

/// The run of white space from `from` ends at `end` if white space stands
/// before `end` and none at `end`.
proof fn lemma_spaces_end(text: Seq<u8>, from: int, end: int)
    requires
        0 <= from <= end <= text.len(),
        forall|k: int| from <= k < end ==> is_space(#[trigger] text[k]),
        end == text.len() || !is_space(text[end]),
    ensures
        spaces_end(text, from) == end,
    decreases end - from,
{
    if from < end {
        lemma_spaces_end(text, from + 1, end);
    }
}

/// A face that can be read ends behind where it starts, inside the text.
pub proof fn lemma_face_advances(text: Seq<u8>, from: int)
    requires
        0 <= from <= text.len(),
    ensures
        face_at(text, from) matches Ok((_, end)) ==> from < end <= text.len(),
{
    lemma_group_advances(text, from);
    if let Ok((_, after_0)) = group_at(text, from) {
        lemma_group_advances(text, after_0);
        if let Ok((_, after_1)) = group_at(text, after_0) {
            lemma_group_advances(text, after_1);
        }
    }
}

/// A group that can be read ends behind where it starts, inside the text.
pub proof fn lemma_group_advances(text: Seq<u8>, from: int)
    requires
        0 <= from <= text.len(),
    ensures
        group_at(text, from) matches Ok((_, end)) ==> from < end <= text.len(),
{
    lemma_spaces_end_in_text(text, from);
    let start = spaces_end(text, from);
    lemma_slot_advances(text, start);
    if let Ok((_, after_a)) = slot_at(text, start) {
        lemma_slot_advances(text, after_a);
        if let Ok((_, after_b)) = slot_at(text, after_a) {
            lemma_slot_advances(text, after_b);
        }
    }
}

/// A place that can be read ends behind where it starts, inside the text.
pub proof fn lemma_slot_advances(text: Seq<u8>, from: int)
    requires
        0 <= from <= text.len(),
    ensures
        slot_at(text, from) matches Ok((_, end)) ==> from < end <= text.len(),
{
    lemma_digits_end_in_text(text, from);
}

/// Reads one place of a group at `from`.
fn read_slot(text: &[u8], from: usize) -> (r: Result<(Option<usize>, usize), ParseError>)
    requires
        from <= text@.len(),
    ensures
        match r {
            Ok((index, end)) => slot_at(text@, from as int) == Ok::<_, ParseError>((index, end as int)) && from < end
                <= text@.len(),
            Err(e) => slot_at(text@, from as int) == Err::<(Option<usize>, int), _>(e),
        },
{
    if from < text.len() && text[from] == SLASH {
        return Ok((None, from + 1));
    }
    match read_number(text, from) {
        Some((value, end)) => {
            if end < text.len() && text[end] == SLASH {
                Ok((Some(value), end + 1))
            } else {
                Ok((Some(value), end))
            }
        },
        None => Err(ParseError::Syntax { position: from }),
    }
}

/// Reads one group of three places at `from`, after any white space.
fn read_group(text: &[u8], from: usize) -> (r: Result<((Option<usize>, Option<usize>, Option<usize>), usize), ParseError>)
    requires
        from <= text@.len(),
    ensures
        match r {
            Ok((group, end)) => group_at(text@, from as int) == Ok::<_, ParseError>((group, end as int)) && from < end
                <= text@.len(),
            Err(e) => group_at(text@, from as int) == Err::<
                ((Option<usize>, Option<usize>, Option<usize>), int),
                _,
            >(e),
        },
{
    let mut start: usize = from;
    while start < text.len() && (text[start] == 32 || (text[start] >= 9 && text[start] <= 13))
        invariant
            from <= start <= text@.len(),
            forall|k: int| from <= k < start ==> is_space(#[trigger] text@[k]),
        decreases text@.len() - start,
    {
        start += 1;
    }
    proof {
        lemma_spaces_end(text@, from as int, start as int);
    }
    let (a, after_a) = match read_slot(text, start) {
        Ok(slot) => slot,
        Err(e) => {
            return Err(e);
        },
    };
    let (b, after_b) = match read_slot(text, after_a) {
        Ok(slot) => slot,
        Err(e) => {
            return Err(e);
        },
    };
    let (c, after_c) = match read_slot(text, after_b) {
        Ok(slot) => slot,
        Err(e) => {
            return Err(e);
        },
    };
    Ok(((a, b, c), after_c))
}

/// Reads the face that starts at `from`, behind the `f` and the blank:
/// three groups of indices. Returns the indices of the three vertices and
/// of the normal, counted from zero, and where the face ends.
pub fn read_face(text: &[u8], from: usize) -> (r: Result<((usize, usize, usize, usize), usize), ParseError>)
    requires
        from <= text@.len(),
    ensures
        match r {
            Ok((indices, end)) => face_at(text@, from as int) == Ok::<_, ParseError>((indices, end as int)) && from
                < end <= text@.len(),
            Err(e) => face_at(text@, from as int) == Err::<((usize, usize, usize, usize), int), _>(e),
        },
{
    let (g0, after_0) = match read_group(text, from) {
        Ok(group) => group,
        Err(e) => {
            return Err(e);
        },
    };
    let (g1, after_1) = match read_group(text, after_0) {
        Ok(group) => group,
        Err(e) => {
            return Err(e);
        },
    };
    let (g2, after_2) = match read_group(text, after_1) {
        Ok(group) => group,
        Err(e) => {
            return Err(e);
        },
    };
    match (g0.0, g1.0, g2.0, g0.2) {
        (Some(v0), Some(v1), Some(v2), Some(n)) => {
            if v0 >= 1 && v1 >= 1 && v2 >= 1 && n >= 1 {
                Ok(((v0 - 1, v1 - 1, v2 - 1, n - 1), after_2))
            } else {
                Err(ParseError::MissingIndex { position: from })
            }
        },
        _ => Err(ParseError::MissingIndex { position: from }),
    }
}

/// One group of indices of a face, by the places that it fills.
#[derive(Debug, PartialEq, Eq, Clone, Copy, Structural)]
pub enum VertexIndexGroup {
    /// `v/vt/vn`: position, texture and normal, in this order.
    PosNormTex(usize, usize, usize),
    /// `v//vn`: position and normal.
    PosNorm(usize, usize),
    /// `v/vt`: position and texture.
    PosTex(usize, usize),
    /// `v`: position only.
    Pos(usize),
}

impl VertexIndexGroup {
    /// The position of the group.
    pub open spec fn position(self) -> usize {
        match self {
            VertexIndexGroup::PosNormTex(p, _, _) => p,
            VertexIndexGroup::PosNorm(p, _) => p,
            VertexIndexGroup::PosTex(p, _) => p,
            VertexIndexGroup::Pos(p) => p,
        }
    }

    /// The normal of the group, if it has one.
    pub open spec fn normal(self) -> Option<usize> {
        match self {
            VertexIndexGroup::PosNormTex(_, _, n) => Some(n),
            VertexIndexGroup::PosNorm(_, n) => Some(n),
            _ => None,
        }
    }

    /// Both groups fill the same places.
    pub open spec fn same_kind(self, other: VertexIndexGroup) -> bool {
        ||| self is PosNormTex && other is PosNormTex
        ||| self is PosNorm && other is PosNorm
        ||| self is PosTex && other is PosTex
        ||| self is Pos && other is Pos
    }
}

/// The triangle of three groups and a material, with indices of 32 bits.
pub open spec fn convert_to_triangle_spec(
    v1: VertexIndexGroup,
    v2: VertexIndexGroup,
    v3: VertexIndexGroup,
    material_index: usize,
) -> Option<TriangleData> {
    match v1.normal() {
        Some(n) if v1.same_kind(v2) && v1.same_kind(v3) => Some(
            TriangleData {
                v0_index: v1.position() as u32,
                v1_index: v2.position() as u32,
                v2_index: v3.position() as u32,
                normal_index: n as u32,
                material_index: material_index as u32,
            },
        ),
        _ => None,
    }
}

/// Makes a triangle of three groups of indices and a material: the
/// positions of the three groups and the normal of the first, each cut
/// down to 32 bits. The groups must be of one kind and have a normal;
/// otherwise there is no triangle.
pub fn convert_to_triangle(
    v1: &VertexIndexGroup,
    v2: &VertexIndexGroup,
    v3: &VertexIndexGroup,
    material_index: usize,
) -> (t: Option<TriangleData>)
    ensures
        t == convert_to_triangle_spec(*v1, *v2, *v3, material_index),
{
    match (v1, v2, v3) {
        (
            VertexIndexGroup::PosNormTex(p1, _, n),
            VertexIndexGroup::PosNormTex(p2, _, _),
            VertexIndexGroup::PosNormTex(p3, _, _),
        ) => Some(TriangleData::new(word(*p1), word(*p2), word(*p3), word(*n), word(material_index))),
        (VertexIndexGroup::PosNorm(p1, n), VertexIndexGroup::PosNorm(p2, _), VertexIndexGroup::PosNorm(p3, _)) => Some(
            TriangleData::new(word(*p1), word(*p2), word(*p3), word(*n), word(material_index)),
        ),
        _ => None,
    }
}

/// The low 32 bits of an index.
fn word(index: usize) -> (w: u32)
    ensures
        w == index as u32,
{
    #[verifier::truncate]
    (index as u32)
}

} // verus!
