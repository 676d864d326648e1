//! The lines of a material library: the names of the materials and, for
//! each property, where its numbers stand. What the numbers are worth is
//! not looked at here.
use vstd::prelude::*;
use crate::parser::face::ParseError;
use crate::parser::number::{decimal, digits_end, is_digit, lemma_digits_end, lemma_digits_end_in_text};
use crate::parser::triangles::{
    goes_on_with, lemma_line_end, lemma_line_end_in_text, line_end, starts_with, CARRIAGE_RETURN, LINE_FEED,
};
use crate::parser::vertices::{
    lemma_more_numbers_advance, line_break, number_at, numbers_at, read_number_at, read_numbers, spans, Span,
};

verus! {

/// What a line of a material gives.
#[derive(Debug, Clone, Copy, PartialEq, Eq, Structural)]
pub enum PropertyKind {
    /// `Ka r g b`
    AmbientColor,
    /// `Kd r g b`
    DiffuseColor,
    /// `Ks r g b`
    SpecularColor,
    /// `Ns x`
    SpecularHighlight,
    /// `Ke r g b`
    EmissiveColor,
    /// `d x`
    Transparency,
    /// `Ni x`
    IndexOfRefraction,
    /// `illum n`
    IlluminationModel,
}

impl PropertyKind {
    /// The kinds in the order in which a line is held against them.
    pub open spec fn nth(k: int) -> PropertyKind {
        if k == 0 {
            PropertyKind::AmbientColor
        } else if k == 1 {
            PropertyKind::DiffuseColor
        } else if k == 2 {
            PropertyKind::SpecularColor
        } else if k == 3 {
            PropertyKind::SpecularHighlight
        } else if k == 4 {
            PropertyKind::EmissiveColor
        } else if k == 5 {
            PropertyKind::Transparency
        } else if k == 6 {
            PropertyKind::IndexOfRefraction
        } else {
            PropertyKind::IlluminationModel
        }
    }

    /// The word that a line of this kind starts with, and a blank.
    pub open spec fn mark(self) -> Seq<u8> {
        match self {
            PropertyKind::AmbientColor => seq![75u8, 97u8, 32u8],
            PropertyKind::DiffuseColor => seq![75u8, 100u8, 32u8],
            PropertyKind::SpecularColor => seq![75u8, 115u8, 32u8],
            PropertyKind::SpecularHighlight => seq![78u8, 115u8, 32u8],
            PropertyKind::EmissiveColor => seq![75u8, 101u8, 32u8],
            PropertyKind::Transparency => seq![100u8, 32u8],
            PropertyKind::IndexOfRefraction => seq![78u8, 105u8, 32u8],
            PropertyKind::IlluminationModel => seq![105u8, 108u8, 108u8, 117u8, 109u8, 32u8],
        }
    }

    /// The property is a colour: three numbers.
    pub open spec fn is_color(self) -> bool {
        self is AmbientColor || self is DiffuseColor || self is SpecularColor || self is EmissiveColor
    }

    fn of(k: usize) -> (kind: PropertyKind)
        ensures
            kind == PropertyKind::nth(k as int),
    {
        if k == 0 {
            PropertyKind::AmbientColor
        } else if k == 1 {
            PropertyKind::DiffuseColor
        } else if k == 2 {
            PropertyKind::SpecularColor
        } else if k == 3 {
            PropertyKind::SpecularHighlight
        } else if k == 4 {
            PropertyKind::EmissiveColor
        } else if k == 5 {
            PropertyKind::Transparency
        } else if k == 6 {
            PropertyKind::IndexOfRefraction
        } else {
            PropertyKind::IlluminationModel
        }
    }

    fn word(self) -> (w: Vec<u8>)
        ensures
            w@ == self.mark(),
            2 <= w@.len() <= 6,
    {
        let w: Vec<u8> = match self {
            PropertyKind::AmbientColor => vec![75u8, 97u8, 32u8],
            PropertyKind::DiffuseColor => vec![75u8, 100u8, 32u8],
            PropertyKind::SpecularColor => vec![75u8, 115u8, 32u8],
            PropertyKind::SpecularHighlight => vec![78u8, 115u8, 32u8],
            PropertyKind::EmissiveColor => vec![75u8, 101u8, 32u8],
            PropertyKind::Transparency => vec![100u8, 32u8],
            PropertyKind::IndexOfRefraction => vec![78u8, 105u8, 32u8],
            PropertyKind::IlluminationModel => vec![105u8, 108u8, 108u8, 117u8, 109u8, 32u8],
        };
        assert(w@ =~= self.mark());
        w
    }
}

/// `newmtl` and a blank: the name of a material.
pub open spec fn material_mark() -> Seq<u8> {
    seq![110u8, 101u8, 119u8, 109u8, 116u8, 108u8, 32u8]
}

/// One property of a material.
pub struct PropertyView {
    pub kind: PropertyKind,
    /// Where the numbers of the property stand: three for a colour, none
    /// for the illumination model, else one.
    pub numbers: Seq<(int, int)>,
    /// The illumination model, for a property of that kind; else zero.
    pub model: nat,
}

/// The property of the given kind whose numbers start at `from`, and where
/// it ends. Nothing where no number stands there.
pub open spec fn property_of(text: Seq<u8>, start: int, from: int, kind: PropertyKind) -> Result<
    Option<(PropertyView, int)>,
    ParseError,
> {
    if kind is IlluminationModel {
        let end = digits_end(text, from);
        if end > from && decimal(text, from, end) <= u32::MAX {
            Ok(Some((PropertyView { kind, numbers: Seq::empty(), model: decimal(text, from, end) }, end)))
        } else {
            Err(ParseError::Syntax { position: from as usize })
        }
    } else if kind.is_color() {
        match numbers_at(text, from) {
            Ok((numbers, end)) => if numbers.len() >= 3 {
                Ok(Some((PropertyView { kind, numbers: numbers.take(3), model: 0 }, end)))
            } else {
                Err(ParseError::TooFewNumbers { position: start as usize })
            },
            Err((position, true)) => Err(ParseError::Syntax { position: position as usize }),
            Err((_, false)) => Ok(None),
        }
    } else {
        match number_at(text, from) {
            Ok(span) => Ok(Some((PropertyView { kind, numbers: seq![span], model: 0 }, span.1))),
            Err(true) => Err(ParseError::Syntax { position: from as usize }),
            Err(false) => Ok(None),
        }
    }
}

/// The property that starts at `from`, held against the kinds from the
/// `k`-th on.
pub open spec fn property_among(text: Seq<u8>, from: int, k: int) -> Result<Option<(PropertyView, int)>, ParseError>
    decreases 8 - k,
{
    if k < 0 || k >= 8 {
        Ok(None)
    } else if starts_with(text, from, PropertyKind::nth(k).mark()) {
        match property_of(text, from, from + PropertyKind::nth(k).mark().len(), PropertyKind::nth(k)) {
            Ok(None) => property_among(text, from, k + 1),
            found => found,
        }
    } else {
        property_among(text, from, k + 1)
    }
}

/// The property that starts at `from`, if one does, and where it ends.
pub open spec fn property_at(text: Seq<u8>, from: int) -> Result<Option<(PropertyView, int)>, ParseError> {
    property_among(text, from, 0)
}

/// The properties that follow a property that ends at `from`, each behind
/// a line ending, and where the last of them ends.
pub open spec fn more_properties(text: Seq<u8>, from: int) -> Result<(Seq<PropertyView>, int), ParseError>
    decreases text.len() - from,
    when 0 <= from <= text.len()
    via more_properties_decreases
{
    match line_break(text, from) {
        None => Ok((Seq::empty(), from)),
        Some(next) => match property_at(text, next) {
            Err(e) => Err(e),
            Ok(None) => Ok((Seq::empty(), from)),
            Ok(Some((property, end))) => match more_properties(text, end) {
                Ok((rest, last)) => Ok((seq![property] + rest, last)),
                Err(e) => Err(e),
            },
        },
    }
}

#[via_fn]
proof fn more_properties_decreases(text: Seq<u8>, from: int) {
    if let Some(next) = line_break(text, from) {
        lemma_property_advances(text, next, 0);
    }
}

/// One material of a library.
pub struct MaterialView {
    /// Where the name of the material stands.
    pub name: (int, int),
    pub properties: Seq<PropertyView>,
}

/// The material whose `newmtl` stands at `from`, and where it ends: the
/// name up to the end of the line, and on the lines that follow one
/// property or more.
pub open spec fn material_at(text: Seq<u8>, from: int) -> Result<(MaterialView, int), ParseError> {
    let name_end = line_end(text, from + 7);
    match line_break(text, name_end) {
        None => Err(ParseError::Syntax { position: name_end as usize }),
        Some(first) => match property_at(text, first) {
            Err(e) => Err(e),
            Ok(None) => Err(ParseError::Syntax { position: first as usize }),
            Ok(Some((property, end))) => match more_properties(text, end) {
                Ok((rest, last)) => Ok(
                    (MaterialView { name: (from + 7, name_end), properties: seq![property] + rest }, last),
                ),
                Err(e) => Err(e),
            },
        },
    }
}

/// With a material in front of those that follow, if any follow.
pub open spec fn led_by(first: Option<MaterialView>, rest: Result<Seq<MaterialView>, ParseError>) -> Result<
    Seq<MaterialView>,
    ParseError,
> {
    match (first, rest) {
        (Some(m), Ok(s)) => Ok(seq![m] + s),
        (_, r) => r,
    }
}

/// The materials of the lines from `from` on. A line that starts with
/// `newmtl` and a blank starts a material; what stands behind a material
/// on its last line, and every other line, is passed over. The text ends
/// with a material or with a line ending.
pub open spec fn materials_from(text: Seq<u8>, from: int) -> Result<Seq<MaterialView>, ParseError>
    decreases text.len() - from,
    when 0 <= from <= text.len()
    via materials_from_decreases
{
    if starts_with(text, from, material_mark()) {
        match material_at(text, from) {
            Err(e) => Err(e),
            Ok((material, end)) => led_by(Some(material), rest_from(text, end)),
        }
    } else {
        rest_from(text, from)
    }
}

/// The materials of the lines behind the line that `at` stands in.
pub open spec fn rest_from(text: Seq<u8>, at: int) -> Result<Seq<MaterialView>, ParseError>
    decreases text.len() - at, 0int,
    when 0 <= at <= text.len()
    via rest_from_decreases
{
    if at == text.len() {
        Ok(Seq::empty())
    } else {
        match line_break(text, line_end(text, at)) {
            None => Err(ParseError::Syntax { position: line_end(text, at) as usize }),
            Some(next) => materials_from(text, next),
        }
    }
}

#[via_fn]
proof fn materials_from_decreases(text: Seq<u8>, from: int) {
    if starts_with(text, from, material_mark()) {
        lemma_material_advances(text, from);
    }
}

#[via_fn]
proof fn rest_from_decreases(text: Seq<u8>, at: int) {
    lemma_line_end_in_text(text, at);
}

/// A property ends behind where it starts, inside the text.
pub proof fn lemma_property_advances(text: Seq<u8>, from: int, k: int)
    requires
        0 <= from <= text.len(),
    ensures
        property_among(text, from, k) matches Ok(Some((_, end))) ==> from < end <= text.len(),
    decreases 8 - k,
{
    if 0 <= k < 8 {
        lemma_property_advances(text, from, k + 1);
        let kind = PropertyKind::nth(k);
        if starts_with(text, from, kind.mark()) {
            let at = from + kind.mark().len();
            if kind is IlluminationModel {
                lemma_digits_end_in_text(text, at);
            } else if kind.is_color() {
                if let Ok(span) = number_at(text, at) {
                    lemma_more_numbers_advance(text, span.1);
                }
            }
        }
    }
}

/// Further properties end at or behind where they start, inside the text.
pub proof fn lemma_more_properties_advance(text: Seq<u8>, from: int)
    requires
        0 <= from <= text.len(),
    ensures
        more_properties(text, from) matches Ok((_, end)) ==> from <= end <= text.len(),
    decreases text.len() - from,
{
    if let Some(next) = line_break(text, from) {
        lemma_property_advances(text, next, 0);
        if let Ok(Some((_, end))) = property_at(text, next) {
            lemma_more_properties_advance(text, end);
        }
    }
}

/// A material ends behind where it starts, inside the text.
pub proof fn lemma_material_advances(text: Seq<u8>, from: int)
    requires
        0 <= from <= text.len(),
        starts_with(text, from, material_mark()),
    ensures
        material_at(text, from) matches Ok((_, end)) ==> from < end <= text.len(),
{
    lemma_line_end_in_text(text, from + 7);
    let name_end = line_end(text, from + 7);
    if let Some(first) = line_break(text, name_end) {
        lemma_property_advances(text, first, 0);
        if let Ok(Some((_, end))) = property_at(text, first) {
            lemma_more_properties_advance(text, end);
        }
    }
}

/// One property of a material, with the spans of its numbers.
#[derive(Debug, Clone, PartialEq, Eq)]
pub struct PropertyLine {
    pub kind: PropertyKind,
    /// Where the numbers of the property stand: three for a colour, none
    /// for the illumination model, else one.
    pub numbers: Vec<Span>,
    /// The illumination model, for a property of that kind; else zero.
    pub model: u32,
}

impl View for PropertyLine {
    type V = PropertyView;

    open spec fn view(&self) -> PropertyView {
        PropertyView { kind: self.kind, numbers: spans(self.numbers@), model: self.model as nat }
    }
}

/// The properties of a list.
pub open spec fn shown(properties: Seq<PropertyLine>) -> Seq<PropertyView> {
    Seq::new(properties.len(), |i: int| properties[i]@)
}

/// One material of a library: where its name stands, and its properties.
#[derive(Debug, PartialEq, Eq)]
pub struct MaterialLines {
    pub name: Span,
    pub properties: Vec<PropertyLine>,
}

impl View for MaterialLines {
    type V = MaterialView;

    open spec fn view(&self) -> MaterialView {
        MaterialView { name: (self.name.0 as int, self.name.1 as int), properties: shown(self.properties@) }
    }
}

/// The materials of a list.
pub open spec fn listed(materials: Seq<MaterialLines>) -> Seq<MaterialView> {
    Seq::new(materials.len(), |i: int| materials[i]@)
}

/// Reads the property of the given kind whose numbers start at `from`.
fn read_property_of(text: &[u8], start: usize, from: usize, kind: PropertyKind) -> (r: Result<
    Option<(PropertyLine, usize)>,
    ParseError,
>)
    requires
        start < from <= text@.len(),
    ensures
        match r {
            Ok(Some((line, end))) => property_of(text@, start as int, from as int, kind) == Ok::<_, ParseError>(
                Some((line@, end as int)),
            ) && start < end <= text@.len(),
            Ok(None) => property_of(text@, start as int, from as int, kind) == Ok::<_, ParseError>(
                None::<(PropertyView, int)>,
            ),
            Err(e) => property_of(text@, start as int, from as int, kind) == Err::<
                Option<(PropertyView, int)>,
                _,
            >(e),
        },
{
    match kind {
        PropertyKind::IlluminationModel => {
            let mut value: u32 = 0;
            let mut i: usize = from;
            while i < text.len() && text[i] >= 48 && text[i] <= 57
                invariant
                    kind is IlluminationModel,
                    from <= i <= text@.len(),
                    forall|k: int| from <= k < i ==> is_digit(#[trigger] text@[k]),
                    value == decimal(text@, from as int, i as int),
                decreases text@.len() - i,
            {
                let digit: u32 = (text[i] - 48) as u32;
                let next = match value.checked_mul(10) {
                    Some(v) => v.checked_add(digit),
                    None => None,
                };
                match next {
                    Some(v) => {
                        value = v;
                    },
                    None => {
                        proof {
                            let end = digits_end(text@, from as int);
                            crate::parser::number::lemma_digits_run(text@, from as int, i as int + 1);
                            crate::parser::number::lemma_decimal_grows(text@, from as int, i as int + 1, end);
                        }
                        return Err(ParseError::Syntax { position: from });
                    },
                }
                i += 1;
            }
            proof {
                lemma_digits_end(text@, from as int, i as int);
            }
            if i == from {
                return Err(ParseError::Syntax { position: from });
            }
            let line = PropertyLine { kind, numbers: Vec::new(), model: value };
            assert(line@.numbers =~= Seq::empty());
            Ok(Some((line, i)))
        },
        PropertyKind::AmbientColor
        | PropertyKind::DiffuseColor
        | PropertyKind::SpecularColor
        | PropertyKind::EmissiveColor => {
            match read_numbers(text, from) {
                Ok((all, end)) => {
                    if all.len() >= 3 {
                        let mut numbers: Vec<Span> = Vec::new();
                        numbers.push(all[0]);
                        numbers.push(all[1]);
                        numbers.push(all[2]);
                        let line = PropertyLine { kind, numbers, model: 0 };
                        assert(line@.numbers =~= spans(all@).take(3));
                        Ok(Some((line, end)))
                    } else {
                        Err(ParseError::TooFewNumbers { position: start })
                    }
                },
                Err((position, true)) => Err(ParseError::Syntax { position }),
                Err((_, false)) => Ok(None),
            }
        },
        _ => {
            match read_number_at(text, from) {
                Ok(span) => {
                    let mut numbers: Vec<Span> = Vec::new();
                    numbers.push(span);
                    let line = PropertyLine { kind, numbers, model: 0 };
                    assert(line@.numbers =~= seq![(span.0 as int, span.1 as int)]);
                    Ok(Some((line, span.1)))
                },
                Err(true) => Err(ParseError::Syntax { position: from }),
                Err(false) => Ok(None),
            }
        },
    }
}

/// Reads the property that starts at `from`, if one does.
pub fn read_property(text: &[u8], from: usize) -> (r: Result<Option<(PropertyLine, usize)>, ParseError>)
    requires
        from <= text@.len(),
    ensures
        match r {
            Ok(Some((line, end))) => property_at(text@, from as int) == Ok::<_, ParseError>(
                Some((line@, end as int)),
            ) && from < end <= text@.len(),
            Ok(None) => property_at(text@, from as int) == Ok::<_, ParseError>(None::<(PropertyView, int)>),
            Err(e) => property_at(text@, from as int) == Err::<Option<(PropertyView, int)>, _>(e),
        },
{
    let length: usize = text.len();
    let mut k: usize = 0;
    while k < 8
        invariant
            k <= 8,
            from <= text@.len(),
            length == text@.len(),
            property_at(text@, from as int) == property_among(text@, from as int, k as int),
        decreases 8 - k,
    {
        let kind = PropertyKind::of(k);
        let word = kind.word();
        if goes_on_with(text, from, word.as_slice()) {
            match read_property_of(text, from, from + word.len(), kind) {
                Ok(None) => {},
                found => {
                    return found;
                },
            }
        }
        k += 1;
    }
    Ok(None)
}

/// Reads the properties that follow a property that ends at `from`.
fn read_more_properties(text: &[u8], from: usize, properties: &mut Vec<PropertyLine>) -> (r: Result<
    usize,
    ParseError,
>)
    requires
        from <= text@.len(),
    ensures
        match r {
            Ok(end) => more_properties(text@, from as int) matches Ok((rest, last)) && shown(final(properties)@)
                == shown(old(properties)@) + rest && end == last && from <= end <= text@.len(),
            Err(e) => more_properties(text@, from as int) == Err::<(Seq<PropertyView>, int), _>(e),
        },
{
    let mut end: usize = from;
    let ghost mut read: Seq<PropertyView> = Seq::empty();
    assert(shown(properties@) =~= shown(old(properties)@) + read);
    loop
        invariant
            from <= end <= text@.len(),
            shown(properties@) == shown(old(properties)@) + read,
            more_properties(text@, from as int) == match more_properties(text@, end as int) {
                Ok((rest, last)) => Ok::<_, ParseError>((read + rest, last)),
                Err(e) => Err(e),
            },
        decreases text@.len() - end,
    {
        let next: usize = if end < text.len() && text[end] == LINE_FEED {
            end + 1
        } else if end < text.len() && end + 1 < text.len() && text[end] == CARRIAGE_RETURN && text[end + 1]
            == LINE_FEED {
            end + 2
        } else {
            assert(read + Seq::empty() =~= read);
            return Ok(end);
        };
        match read_property(text, next) {
            Err(e) => {
                return Err(e);
            },
            Ok(None) => {
                assert(read + Seq::empty() =~= read);
                return Ok(end);
            },
            Ok(Some((line, line_end))) => {
                let ghost before = read;
                let ghost shown_before = shown(properties@);
                let ghost view = line@;
                properties.push(line);
                proof {
                    read = read.push(view);
                    assert(shown(properties@) =~= shown_before.push(view));
                    assert(shown(properties@) =~= shown(old(properties)@) + read);
                    if let Ok((rest, last)) = more_properties(text@, line_end as int) {
                        assert(before + (seq![view] + rest) =~= read + rest);
                    }
                }
                end = line_end;
            },
        }
    }
}

/// Reads the material whose `newmtl` stands at `from`.
fn read_material(text: &[u8], from: usize) -> (r: Result<(MaterialLines, usize), ParseError>)
    requires
        starts_with(text@, from as int, material_mark()),
    ensures
        match r {
            Ok((material, end)) => material_at(text@, from as int) == Ok::<_, ParseError>(
                (material@, end as int),
            ) && from < end <= text@.len(),
            Err(e) => material_at(text@, from as int) == Err::<(MaterialView, int), _>(e),
        },
{
    assert(material_mark().len() == 7);
    let length: usize = text.len();
    let mut name_end: usize = from + 7;
    while name_end < text.len() && text[name_end] != LINE_FEED
        invariant
            from + 7 <= name_end <= text@.len(),
            forall|k: int| from + 7 <= k < name_end ==> #[trigger] text@[k] != LINE_FEED,
        decreases text@.len() - name_end,
    {
        name_end += 1;
    }
    proof {
        lemma_line_end(text@, from + 7, name_end as int);
    }
    if name_end >= text.len() {
        return Err(ParseError::Syntax { position: name_end });
    }
    let first: usize = name_end + 1;
    let (property, end) = match read_property(text, first) {
        Err(e) => {
            return Err(e);
        },
        Ok(None) => {
            return Err(ParseError::Syntax { position: first });
        },
        Ok(Some(found)) => found,
    };
    let ghost view = property@;
    let mut properties: Vec<PropertyLine> = Vec::new();
    properties.push(property);
    assert(shown(properties@) =~= seq![view]);
    match read_more_properties(text, end, &mut properties) {
        Ok(last) => Ok((MaterialLines { name: (from + 7, name_end), properties }, last)),
        Err(e) => Err(e),
    }
}

/// Reads a material library.
///
/// A line `newmtl NAME` starts a material. On the lines that follow stand
/// its properties, one or more: `Ka`, `Kd`, `Ks` and `Ke` with three
/// numbers, `Ns`, `d` and `Ni` with one, `illum` with a whole number. The
/// first line that is no property ends the material; it and every other
/// line is passed over. The text must end with a material or with a line
/// ending.
///
/// Returns the materials in order, each with where its name and the
/// numbers of its properties stand in the text, not what they are worth.
pub fn materials(text: &[u8]) -> (r: Result<Vec<MaterialLines>, ParseError>)
    ensures
        match r {
            Ok(list) => materials_from(text@, 0) == Ok::<_, ParseError>(listed(list@)),
            Err(e) => materials_from(text@, 0) == Err::<Seq<MaterialView>, _>(e),
        },
{
    let word: [u8; 7] = [110, 101, 119, 109, 116, 108, 32];
    assert(word@ =~= material_mark());
    let length: usize = text.len();
    let mut list: Vec<MaterialLines> = Vec::new();
    let mut i: usize = 0;
    assert(listed(list@) =~= Seq::empty());
    loop
        invariant
            i <= text@.len(),
            length == text@.len(),
            word@ == material_mark(),
            materials_from(text@, 0) == match materials_from(text@, i as int) {
                Ok(rest) => Ok::<_, ParseError>(listed(list@) + rest),
                Err(e) => Err(e),
            },
        decreases text@.len() - i,
    {
        let mut at: usize = i;
        if goes_on_with(text, i, word.as_slice()) {
            match read_material(text, i) {
                Err(e) => {
                    return Err(e);
                },
                Ok((material, end)) => {
                    let ghost before = listed(list@);
                    let ghost view = material@;
                    list.push(material);
                    proof {
                        assert(listed(list@) =~= before.push(view));
                        if let Ok(rest) = rest_from(text@, end as int) {
                            assert(before + (seq![view] + rest) =~= listed(list@) + rest);
                        }
                    }
                    at = end;
                },
            }
        }
        if at == text.len() {
            assert(listed(list@) + Seq::empty() =~= listed(list@));
            return Ok(list);
        }
        let mut end: usize = at;
        while end < text.len() && text[end] != LINE_FEED
            invariant
                at <= end <= text@.len(),
                forall|k: int| at <= k < end ==> #[trigger] text@[k] != LINE_FEED,
            decreases text@.len() - end,
        {
            end += 1;
        }
        proof {
            lemma_line_end(text@, at as int, end as int);
        }
        if end >= text.len() {
            return Err(ParseError::Syntax { position: end });
        }
        i = end + 1;
    }
}

} // verus!
