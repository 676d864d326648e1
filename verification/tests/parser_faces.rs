use rusticvision::parser::face::VertexIndexGroup::{Pos, PosNorm, PosNormTex, PosTex};
use rusticvision::parser::face::{convert_to_triangle, ParseError};
use rusticvision::parser::number::read_number;
use rusticvision::parser::triangles::parse_triangle_indices;
use rusticvision::data_structures::TriangleData;
use rusticvision::triangle::TriangleIndex;

fn names(list: &[&str]) -> Vec<Vec<u8>> {
    list.iter().map(|n| n.as_bytes().to_vec()).collect()
}

#[test]
fn single_triangle_face_test() {
    let input = "usemtl A\nf 1/1/1 2/1/0 3/1/1";
    let map = names(&["A"]);
    let expected_index = vec![TriangleIndex::new((0, 1, 2), 0, 0)];

    let index = parse_triangle_indices(input.as_bytes(), &map).expect("Test panic!");
    assert_eq!(index, expected_index);
}

#[test]
fn multiple_triangle_face_test() {
    let input = "usemtl A\nf 1/1/1 2/1/0 3/1/1\nf 1/1/1 2/1/1 3/1/1";
    let map = names(&["A"]);
    let expected_indices = vec![
        TriangleIndex::new((0, 1, 2), 0, 0),
        TriangleIndex::new((0, 1, 2), 0, 0),
    ];

    let indices = parse_triangle_indices(input.as_bytes(), &map).expect("Test panic!");
    assert_eq!(indices, expected_indices);
}

#[test]
fn multiple_material_face_test() {
    let input = "usemtl A\nf 1/1/1 2/1/1 3/1/1\nusemtl B\nf 1/1/1 2/1/1 3/1/1";
    let map = names(&["A", "B"]);

    let expected_indices = vec![
        TriangleIndex::new((0, 1, 2), 0, 0),
        TriangleIndex::new((0, 1, 2), 0, 1),
    ];

    let indices = parse_triangle_indices(input.as_bytes(), &map).expect("Test panic!");
    assert_eq!(indices, expected_indices);
}

#[test]
fn face_without_texture_index() {
    let input = "f 4//2 5//2 6//2\n";
    let indices = parse_triangle_indices(input.as_bytes(), &names(&[])).unwrap();
    assert_eq!(indices, vec![TriangleIndex::new((3, 4, 5), 1, 0)]);
}

#[test]
fn carriage_returns_and_empty_lines_are_passed_over() {
    let input = "\nf 1/1/1 2/1/1 3/1/1\r\n\r\nf 2/2/2 3/3/3 4/4/4\n";
    let indices = parse_triangle_indices(input.as_bytes(), &names(&[])).unwrap();
    assert_eq!(
        indices,
        vec![TriangleIndex::new((0, 1, 2), 0, 0), TriangleIndex::new((1, 2, 3), 1, 0)]
    );
}

#[test]
fn empty_text_has_no_triangles() {
    assert_eq!(parse_triangle_indices(b"", &names(&["A"])), Ok(vec![]));
}

#[test]
fn later_material_of_the_same_name_wins() {
    let input = "usemtl A\nf 1/1/1 2/1/1 3/1/1";
    let indices = parse_triangle_indices(input.as_bytes(), &names(&["A", "B", "A"])).unwrap();
    assert_eq!(indices, vec![TriangleIndex::new((0, 1, 2), 0, 2)]);
}

#[test]
fn unknown_material_is_an_error() {
    let input = "usemtl C\nf 1/1/1 2/1/1 3/1/1";
    assert_eq!(
        parse_triangle_indices(input.as_bytes(), &names(&["A", "B"])),
        Err(ParseError::UnknownMaterial { position: 7 })
    );
}

#[test]
fn face_without_normal_is_an_error() {
    assert_eq!(
        parse_triangle_indices(b"f 1/1// 2/1/1 3/1/1", &names(&[])),
        Err(ParseError::MissingIndex { position: 2 })
    );
    assert_eq!(
        parse_triangle_indices(b"\nf 1/1/1 /1/1 3/1/1", &names(&[])),
        Err(ParseError::MissingIndex { position: 3 })
    );
    assert_eq!(
        parse_triangle_indices(b"f 1/1/ 2/1/1 3/1/1", &names(&[])),
        Err(ParseError::Syntax { position: 6 })
    );
}

#[test]
fn index_zero_is_an_error() {
    assert_eq!(
        parse_triangle_indices(b"f 0/1/1 2/1/1 3/1/1", &names(&[])),
        Err(ParseError::MissingIndex { position: 2 })
    );
}

#[test]
fn malformed_face_is_a_syntax_error() {
    assert_eq!(
        parse_triangle_indices(b"f 1/1/1 x/1/1 3/1/1", &names(&[])),
        Err(ParseError::Syntax { position: 8 })
    );
    assert_eq!(
        parse_triangle_indices(b"f 1/1/1 2/1/1", &names(&[])),
        Err(ParseError::Syntax { position: 13 })
    );
}

#[test]
fn other_lines_are_a_syntax_error() {
    assert_eq!(
        parse_triangle_indices(b"v 1 2 3\n", &names(&[])),
        Err(ParseError::Syntax { position: 0 })
    );
    assert_eq!(
        parse_triangle_indices(b"f 1/1/1 2/1/1 3/1/1 \n", &names(&[])),
        Err(ParseError::Syntax { position: 19 })
    );
}

#[test]
fn numbers_are_read_digit_by_digit() {
    assert_eq!(read_number(b"1234/", 0), Some((1234, 4)));
    assert_eq!(read_number(b"ab907", 2), Some((907, 5)));
    assert_eq!(read_number(b"/12", 0), None);
    assert_eq!(read_number(b"", 0), None);
    assert_eq!(read_number(b"99999999999999999999999999", 0), None);
}

#[test]
fn groups_of_one_kind_with_normals_make_a_triangle() {
    assert_eq!(
        convert_to_triangle(&PosNormTex(1, 9, 4), &PosNormTex(2, 9, 5), &PosNormTex(3, 9, 6), 7),
        Some(TriangleData::new(1, 2, 3, 4, 7))
    );
    assert_eq!(
        convert_to_triangle(&PosNorm(1, 4), &PosNorm(2, 5), &PosNorm(3, 6), 0),
        Some(TriangleData::new(1, 2, 3, 4, 0))
    );
    assert_eq!(convert_to_triangle(&PosNorm(1, 4), &PosNormTex(2, 9, 5), &PosNorm(3, 6), 0), None);
    assert_eq!(convert_to_triangle(&PosTex(1, 4), &PosTex(2, 5), &PosTex(3, 6), 0), None);
    assert_eq!(convert_to_triangle(&Pos(1), &Pos(2), &Pos(3), 0), None);
}
