use corange_rs::corange::{
    asset_hndl, cmesh, ctri, flag_of, material_item, plane, sphere, vec2, vec3, vec4, Scalar,
};

fn scalar(value: f32) -> Scalar {
    Scalar::from_bits(value.to_bits())
}

fn point(x: f32, y: f32, z: f32) -> vec3 {
    vec3 { x: scalar(x), y: scalar(y), z: scalar(z) }
}

fn ball(radius: f32) -> sphere {
    sphere { center: point(0.0, 0.0, 0.0), radius: scalar(radius) }
}

fn triangle(height: f32) -> ctri {
    ctri {
        a: point(0.0, 0.0, 0.0),
        b: point(1.0, 0.0, 0.0),
        c: point(0.0, height, 0.0),
        norm: point(0.0, 0.0, 1.0),
        bound: ball(height),
    }
}

fn leaf(count: usize, radius: f32) -> cmesh {
    cmesh::Leaf { triangles: vec![triangle(1.0); count], bound: ball(radius) }
}

#[test]
fn a_leaf_has_triangles_and_a_bound_and_no_division() {
    let node = leaf(3, 2.0);
    assert!(node.is_leaf());
    assert_eq!(node.triangles_num(), Some(3));
    assert_eq!(node.triangles(), Some(&vec![triangle(1.0), triangle(1.0), triangle(1.0)]));
    assert_eq!(node.bound(), Some(ball(2.0)));
    assert_eq!(node.division(), None);
    assert!(node.front().is_none());
    assert!(node.back().is_none());
}

#[test]
fn an_empty_leaf_has_no_triangles() {
    let node = leaf(0, 0.0);
    assert!(node.is_leaf());
    assert_eq!(node.triangles_num(), Some(0));
    assert_eq!(node.triangles(), Some(&Vec::new()));
}

#[test]
fn a_split_has_a_division_and_two_sides_and_no_triangles() {
    let floor = plane { direction: point(0.0, 1.0, 0.0), position: point(0.0, 0.5, 0.0) };
    let node = cmesh::Split {
        division: floor,
        front: Box::new(leaf(2, 1.0)),
        back: Box::new(cmesh::Split {
            division: floor,
            front: Box::new(leaf(1, 3.0)),
            back: Box::new(leaf(4, 5.0)),
        }),
    };
    assert!(!node.is_leaf());
    assert_eq!(node.division(), Some(floor));
    assert_eq!(node.triangles_num(), None);
    assert!(node.triangles().is_none());
    assert_eq!(node.bound(), None);
    let front = node.front().unwrap();
    assert_eq!(front.triangles_num(), Some(2));
    assert_eq!(front.bound(), Some(ball(1.0)));
    let back = node.back().unwrap();
    assert!(!back.is_leaf());
    assert_eq!(back.front().unwrap().triangles_num(), Some(1));
    assert_eq!(back.back().unwrap().triangles_num(), Some(4));
    assert_eq!(back.back().unwrap().bound(), Some(ball(5.0)));
}

#[test]
fn a_material_item_is_read_as_what_it_is() {
    let texture = asset_hndl { path: String::from("./assets/piano.dds"), timestamp: 42 };
    let two = vec2 { x: scalar(1.0), y: scalar(2.0) };
    let three = point(1.0, 2.0, 3.0);
    let four = vec4 { x: scalar(1.0), y: scalar(2.0), z: scalar(3.0), w: scalar(4.0) };
    assert_eq!(material_item::Int(-7).as_int(), Some(-7));
    assert_eq!(material_item::Float(scalar(0.5)).as_float(), Some(scalar(0.5)));
    assert_eq!(material_item::Vec2(two).as_vec2(), Some(two));
    assert_eq!(material_item::Vec3(three).as_vec3(), Some(three));
    assert_eq!(material_item::Vec4(four).as_vec4(), Some(four));
    assert_eq!(material_item::Asset(texture.clone()).as_asset(), Some(&texture));
}

#[test]
fn a_material_item_is_not_read_as_what_it_is_not() {
    let texture = asset_hndl { path: String::from("./assets/piano.dds"), timestamp: 42 };
    let number = material_item::Float(scalar(1.0));
    assert_eq!(number.as_int(), None);
    assert_eq!(number.as_vec2(), None);
    assert_eq!(number.as_vec3(), None);
    assert_eq!(number.as_vec4(), None);
    assert_eq!(number.as_asset(), None);
    let whole = material_item::Int(1);
    assert_eq!(whole.as_float(), None);
    assert_eq!(material_item::Asset(texture).as_int(), None);
    assert_eq!(material_item::Vec3(point(0.0, 0.0, 0.0)).as_vec4(), None);
    assert_eq!(material_item::Vec4(vec4 { x: scalar(0.0), y: scalar(0.0), z: scalar(0.0), w: scalar(0.0) }).as_vec3(), None);
}

#[test]
fn flags_are_one_and_zero() {
    assert_eq!(flag_of(true), 1);
    assert_eq!(flag_of(false), 0);
}
