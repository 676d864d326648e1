//! The lines of a scene file, sorted by what they are about: vertex data,
//! the material library, and for each object its faces.
use vstd::prelude::*;
use vstd::slice::slice_subrange;
use crate::parser::face::ParseError;
use crate::parser::triangles::{
    face_mark, find_material, goes_on_with, lemma_line_end, lemma_line_end_in_text, lemma_lookup_finds, line_end,
    lookup, starts_with, texts, use_material, LINE_FEED,
};

verus! {

/// `v` and a blank: a vertex position.
pub open spec fn position_mark() -> Seq<u8> {
    seq![118u8, 32u8]
}

/// `vn` and a blank: a normal.
pub open spec fn normal_mark() -> Seq<u8> {
    seq![118u8, 110u8, 32u8]
}

/// `vt` and a blank: a texture coordinate.
pub open spec fn texture_mark() -> Seq<u8> {
    seq![118u8, 116u8, 32u8]
}

/// `o` and a blank: the name of an object.
pub open spec fn object_mark() -> Seq<u8> {
    seq![111u8, 32u8]
}

/// `mtllib` and a blank: the name of the material library.
pub open spec fn library_mark() -> Seq<u8> {
    seq![109u8, 116u8, 108u8, 108u8, 105u8, 98u8, 32u8]
}

/// What has been gathered from the lines of a scene file.
#[verifier::ext_equal]
pub struct PartsView {
    /// The lines about vertices (`v`, `vn`, `vt`), each with a line feed.
    pub vertex_data: Seq<u8>,
    /// The names of the material libraries, each with a line feed.
    pub material_file_name: Seq<u8>,
    /// The names of the objects, in the order in which they were declared.
    pub names: Seq<Seq<u8>>,
    /// For each object the lines about its faces (`usemtl`, `f`), each with
    /// a line feed.
    pub faces: Seq<Seq<u8>>,
    /// The name of the object that lines about faces belong to.
    pub current: Seq<u8>,
}

impl PartsView {
    /// Nothing gathered, and the object without a name is current.
    pub open spec fn empty() -> PartsView {
        PartsView {
            vertex_data: Seq::empty(),
            material_file_name: Seq::empty(),
            names: Seq::empty(),
            faces: Seq::empty(),
            current: Seq::empty(),
        }
    }

    /// Every object has its list of faces.
    pub open spec fn wf(self) -> bool {
        self.names.len() == self.faces.len()
    }

    /// What is gathered after one more line, which starts at `position`.
    ///
    /// A line about a vertex goes to the vertex data. A line `o NAME`
    /// declares an object and makes it current; declared again, an object
    /// keeps its place and loses its faces. A line about a face goes to the
    /// current object, which must have been declared. Of a line `mtllib
    /// NAME` the name is kept. Any other line is dropped.
    pub open spec fn after_line(self, line: Seq<u8>, position: int) -> Result<PartsView, ParseError> {
        if starts_with(line, 0, position_mark()) || starts_with(line, 0, normal_mark()) || starts_with(
            line,
            0,
            texture_mark(),
        ) {
            Ok(PartsView { vertex_data: self.vertex_data + line + seq![LINE_FEED], ..self })
        } else if starts_with(line, 0, object_mark()) {
            let name = line.skip(2);
            match lookup(self.names, name, self.names.len()) {
                Some(i) => Ok(PartsView { faces: self.faces.update(i as int, Seq::empty()), current: name, ..self }),
                None => Ok(
                    PartsView {
                        names: self.names.push(name),
                        faces: self.faces.push(Seq::empty()),
                        current: name,
                        ..self
                    },
                ),
            }
        } else if starts_with(line, 0, use_material()) || starts_with(line, 0, face_mark()) {
            match lookup(self.names, self.current, self.names.len()) {
                Some(i) => Ok(
                    PartsView {
                        faces: self.faces.update(i as int, self.faces[i as int] + line + seq![LINE_FEED]),
                        ..self
                    },
                ),
                None => Err(ParseError::NoObject { position: position as usize }),
            }
        } else if starts_with(line, 0, library_mark()) {
            Ok(PartsView { material_file_name: self.material_file_name + line.skip(7) + seq![LINE_FEED], ..self })
        } else {
            Ok(self)
        }
    }
}

/// What is gathered after the lines of `text` from `from` on. Lines end at
/// a line feed; a carriage return before it belongs to the line.
pub open spec fn parts_from(text: Seq<u8>, from: int, gathered: PartsView) -> Result<PartsView, ParseError>
    decreases text.len() - from,
    when 0 <= from <= text.len()
    via parts_from_decreases
{
    let end = line_end(text, from);
    match gathered.after_line(text.subrange(from, end), from) {
        Err(e) => Err(e),
        Ok(next) => if end >= text.len() {
            Ok(next)
        } else {
            parts_from(text, end + 1, next)
        },
    }
}

#[via_fn]
proof fn parts_from_decreases(text: Seq<u8>, from: int, gathered: PartsView) {
    lemma_line_end_in_text(text, from);
}

/// The parts of a scene file.
pub struct ObjParts {
    /// The lines about vertices (`v`, `vn`, `vt`), each with a line feed.
    pub vertex_data: Vec<u8>,
    /// The names of the material libraries, each with a line feed.
    pub material_file_name: Vec<u8>,
    /// The names of the objects, in the order in which they were declared.
    pub object_names: Vec<Vec<u8>>,
    /// For each object the lines about its faces, each with a line feed.
    pub object_faces: Vec<Vec<u8>>,
}

impl ObjParts {
    /// The parts as gathered while `current` was the current object.
    pub open spec fn gathered(self, current: Seq<u8>) -> PartsView {
        PartsView {
            vertex_data: self.vertex_data@,
            material_file_name: self.material_file_name@,
            names: texts(self.object_names@),
            faces: texts(self.object_faces@),
            current,
        }
    }
}

/// The parts of a scene file and the object that was current at its end
/// agree with what the lines give.
pub open spec fn is_parts_of(parts: ObjParts, text: Seq<u8>) -> bool {
    parts_from(text, 0, PartsView::empty()) matches Ok(view) && parts.gathered(view.current) == view
}

/// Appends a line and a line feed.
fn push_line(to: &mut Vec<u8>, line: &[u8])
    ensures
        final(to)@ == old(to)@ + line@ + seq![LINE_FEED],
{
    to.extend_from_slice(line);
    to.push(LINE_FEED);
}

/// Sorts the lines of a scene file by what they are about.
///
/// Lines that start with `v`, `vn` or `vt` and a blank are gathered as
/// vertex data. A line `o NAME` starts an object; the lines `usemtl ...`
/// and `f ...` that follow are gathered as its faces, and are an error
/// before the first object. Of lines `mtllib NAME` the names are gathered.
/// Comments and all other lines are dropped.
pub fn extract_parts_obj(input: &[u8]) -> (r: Result<ObjParts, ParseError>)
    ensures
        match r {
            Ok(parts) => is_parts_of(parts, input@),
            Err(e) => parts_from(input@, 0, PartsView::empty()) == Err::<PartsView, _>(e),
        },
{
    let position_word: [u8; 2] = [118, 32];
    let normal_word: [u8; 3] = [118, 110, 32];
    let texture_word: [u8; 3] = [118, 116, 32];
    let object_word: [u8; 2] = [111, 32];
    let use_material_word: [u8; 7] = [117, 115, 101, 109, 116, 108, 32];
    let face_word: [u8; 2] = [102, 32];
    let library_word: [u8; 7] = [109, 116, 108, 108, 105, 98, 32];
    assert(position_word@ =~= position_mark());
    assert(normal_word@ =~= normal_mark());
    assert(texture_word@ =~= texture_mark());
    assert(object_word@ =~= object_mark());
    assert(use_material_word@ =~= use_material());
    assert(face_word@ =~= face_mark());
    assert(library_word@ =~= library_mark());
    let length: usize = input.len();
    let mut parts = ObjParts {
        vertex_data: Vec::new(),
        material_file_name: Vec::new(),
        object_names: Vec::new(),
        object_faces: Vec::new(),
    };
    let mut current: Vec<u8> = Vec::new();
    let mut i: usize = 0;
    assert(parts.gathered(current@) =~~= PartsView::empty());
    loop
        invariant
            i <= input@.len(),
            length == input@.len(),
            position_word@ == position_mark(),
            normal_word@ == normal_mark(),
            texture_word@ == texture_mark(),
            object_word@ == object_mark(),
            use_material_word@ == use_material(),
            face_word@ == face_mark(),
            library_word@ == library_mark(),
            parts.gathered(current@).wf(),
            parts_from(input@, 0, PartsView::empty()) == parts_from(input@, i as int, parts.gathered(current@)),
        decreases input@.len() - i,
    {
        let mut end: usize = i;
        while end < input.len() && input[end] != LINE_FEED
            invariant
                i <= end <= input@.len(),
                forall|k: int| i <= k < end ==> #[trigger] input@[k] != LINE_FEED,
            decreases input@.len() - end,
        {
            end += 1;
        }
        proof {
            lemma_line_end(input@, i as int, end as int);
        }
        let line = slice_subrange(input, i, end);
        let count: usize = parts.object_names.len();
        let ghost before = parts.gathered(current@);
        let ghost after = before.after_line(line@, i as int);
        if goes_on_with(line, 0, position_word.as_slice()) || goes_on_with(line, 0, normal_word.as_slice())
            || goes_on_with(line, 0, texture_word.as_slice()) {
            push_line(&mut parts.vertex_data, line);
            assert(Ok::<_, ParseError>(parts.gathered(current@)) == after);
        } else if goes_on_with(line, 0, object_word.as_slice()) {
            assert(object_mark().len() == 2);
            let name = slice_subrange(line, 2, line.len());
            assert(name@ == line@.skip(2));
            assert(name@.subrange(0, name@.len() as int) == name@);
            proof {
                lemma_lookup_finds(before.names, name@, before.names.len());
            }
            match find_material(&parts.object_names, name, 0, name.len()) {
                Some(at) => {
                    let slot = &mut parts.object_faces[at];
                    slot.clear();
                    assert(texts(parts.object_faces@) =~= before.faces.update(at as int, Seq::empty()));
                },
                None => {
                    let mut copy: Vec<u8> = Vec::new();
                    copy.extend_from_slice(name);
                    assert(copy@ =~= name@);
                    parts.object_names.push(copy);
                    parts.object_faces.push(Vec::new());
                    assert(texts(parts.object_names@) =~= before.names.push(name@));
                    assert(texts(parts.object_faces@) =~= before.faces.push(Seq::empty()));
                },
            }
            current.clear();
            current.extend_from_slice(name);
            assert(current@ == name@);
            assert(Ok::<_, ParseError>(parts.gathered(current@)) == after);
        } else if goes_on_with(line, 0, use_material_word.as_slice()) || goes_on_with(line, 0, face_word.as_slice()) {
            assert(current@.subrange(0, current@.len() as int) == current@);
            proof {
                lemma_lookup_finds(before.names, current@, before.names.len());
            }
            match find_material(&parts.object_names, current.as_slice(), 0, current.len()) {
                Some(at) => {
                    let slot = &mut parts.object_faces[at];
                    push_line(slot, line);
                    assert(texts(parts.object_faces@) =~= before.faces.update(
                        at as int,
                        before.faces[at as int] + line@ + seq![LINE_FEED],
                    ));
                },
                None => {
                    return Err(ParseError::NoObject { position: i });
                },
            }
            assert(Ok::<_, ParseError>(parts.gathered(current@)) == after);
        } else if goes_on_with(line, 0, library_word.as_slice()) {
            assert(library_mark().len() == 7);
            let name = slice_subrange(line, 7, line.len());
            assert(name@ == line@.skip(7));
            push_line(&mut parts.material_file_name, name);
            assert(Ok::<_, ParseError>(parts.gathered(current@)) == after);
        } else {
            assert(Ok::<_, ParseError>(parts.gathered(current@)) == after);
        }
        if end >= input.len() {
            return Ok(parts);
        }
        i = end + 1;
    }
}

} // verus!
