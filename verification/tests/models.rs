use rs_cpurenderer::error::Error;
use rs_cpurenderer::fixed::Fixed;
use rs_cpurenderer::math::{Vec2, Vec3, Vec4};
use rs_cpurenderer::model::{assemble, normal_of, recalc_normals, PreOperation};
use rs_cpurenderer::obj_loader::{Face, Material, Model, Mtllib, SceneData, Vertex};

fn fx(v: f64) -> Fixed {
    Fixed::from_raw((v * 65536.0) as i32)
}

fn v3(x: f64, y: f64, z: f64) -> Vec3 {
    Vec3::new(fx(x), fx(y), fx(z))
}

fn corner(vertex: u32, texcoord: Option<u32>, normal: Option<u32>) -> Vertex {
    Vertex { vertex, normal, texcoord }
}

/// A square in the plane z = 0, as two triangles, and a second model of
/// one triangle that names no normal.
fn scene() -> SceneData {
    let mut scene = SceneData::new();
    scene.vertices = vec![v3(0.0, 0.0, 0.0), v3(1.0, 0.0, 0.0), v3(1.0, 1.0, 0.0), v3(0.0, 1.0, 0.0)];
    scene.normals = vec![v3(0.0, 0.0, 1.0)];
    scene.texcoords = vec![Vec2::new(fx(0.0), fx(0.0)), Vec2::new(fx(1.0), fx(1.0))];
    scene.models.push(Model {
        faces: vec![
            Face { vertices: vec![corner(0, Some(0), Some(0)), corner(1, None, Some(0)), corner(2, Some(1), Some(0))] },
            Face { vertices: vec![corner(0, Some(0), Some(0)), corner(2, Some(1), Some(0)), corner(3, None, Some(0))] },
        ],
        name: "square".to_string(),
        mtllib: Some(0),
        material: Some("paint".to_string()),
        smooth_shade: 0,
    });
    scene.models.push(Model {
        faces: vec![Face { vertices: vec![corner(3, None, None), corner(1, None, None), corner(0, None, None)] }],
        name: "flap".to_string(),
        mtllib: None,
        material: None,
        smooth_shade: 1,
    });
    scene
}

#[test]
fn meshes_follow_the_models() {
    let scene = scene();
    assert!(scene.validate());
    let meshes = assemble(&scene, PreOperation::Nothing).unwrap();
    assert_eq!(meshes.len(), 2);
    let square = &meshes[0];
    assert_eq!(square.name.as_deref(), Some("square"));
    assert_eq!(square.material.as_deref(), Some("paint"));
    assert_eq!(square.mtllib, Some(0));
    assert_eq!(square.vertices.len(), 6);
    let positions: Vec<Vec3> = square.vertices.iter().map(|v| v.position).collect();
    let at = |i: usize| scene.vertices[i];
    assert_eq!(positions, vec![at(0), at(1), at(2), at(0), at(2), at(3)]);
    let white = Vec4::new(fx(1.0), fx(1.0), fx(1.0), fx(1.0));
    for v in &square.vertices {
        assert_eq!(v.normal, v3(0.0, 0.0, 1.0));
        assert_eq!(v.color, white);
    }
    assert_eq!(square.vertices[2].texcoord, Vec2::new(fx(1.0), fx(1.0)));
    // a corner that names no texture coordinate gets zero
    assert_eq!(square.vertices[1].texcoord, Vec2::zero());
    let flap = &meshes[1];
    assert_eq!((flap.name.as_deref(), flap.material.as_deref(), flap.mtllib), (Some("flap"), None, None));
    assert_eq!(flap.vertices.len(), 3);
    assert_eq!(flap.vertices[0].normal, Vec3::zero());
}

#[test]
fn normals_are_recomputed_for_each_triangle() {
    let scene = scene();
    let meshes = assemble(&scene, PreOperation::RecalcNormal).unwrap();
    // (v3 - v2) x (v2 - v1) of a counter-clockwise triangle points down negative z
    for v in &meshes[0].vertices {
        assert_eq!(v.normal, v3(0.0, 0.0, -1.0));
    }
    // the flap winds the other way
    for v in &meshes[1].vertices {
        assert_eq!(v.normal, v3(0.0, 0.0, 1.0));
    }
    assert_eq!(meshes[0].vertices[2].texcoord, Vec2::new(fx(1.0), fx(1.0)));
    assert_eq!(
        normal_of(&v3(0.0, 0.0, 0.0), &v3(2.0, 0.0, 0.0), &v3(2.0, 0.0, -3.0)),
        v3(0.0, -1.0, 0.0)
    );
}

#[test]
fn recalc_normals_keeps_the_rest() {
    let scene = scene();
    let mut vertices = assemble(&scene, PreOperation::Nothing).unwrap().remove(0).vertices;
    let before = vertices.clone();
    recalc_normals(&mut vertices);
    for (a, b) in vertices.iter().zip(before.iter()) {
        assert_eq!((a.position, a.texcoord, a.color), (b.position, b.texcoord, b.color));
        assert_eq!(a.normal, v3(0.0, 0.0, -1.0));
    }
    let mut none = Vec::new();
    recalc_normals(&mut none);
    assert!(none.is_empty());
}

#[test]
fn an_index_out_of_range_is_refused() {
    let mut bad = scene();
    bad.models[0].faces[1].vertices[2].vertex = 4;
    assert!(!bad.validate());
    assert_eq!(assemble(&bad, PreOperation::Nothing).err(), Some(Error::OutOfBounds));
    let mut bad = scene();
    bad.models[1].faces[0].vertices[0].normal = Some(1);
    assert!(!bad.validate());
    let mut bad = scene();
    bad.models[0].faces[0].vertices[1].texcoord = Some(2);
    assert_eq!(assemble(&bad, PreOperation::RecalcNormal).err(), Some(Error::OutOfBounds));
    assert!(SceneData::new().validate());
    assert_eq!(assemble(&SceneData::new(), PreOperation::RecalcNormal).unwrap().len(), 0);
}

#[test]
fn normals_want_whole_triangles() {
    let mut quad = scene();
    quad.models[1].faces[0].vertices.push(corner(2, None, None));
    assert!(quad.validate());
    assert_eq!(assemble(&quad, PreOperation::RecalcNormal).err(), Some(Error::OutOfBounds));
    // without the normals the corners are taken as they come
    let meshes = assemble(&quad, PreOperation::Nothing).unwrap();
    assert_eq!(meshes[1].vertices.len(), 4);
}

#[test]
fn the_last_material_of_a_name_counts() {
    let mut first = Material::new("paint");
    first.illum = Some(1);
    let mut second = Material::new("paint");
    second.illum = Some(2);
    second.texture_maps.diffuse = Some("wall.png".to_string());
    let lib = Mtllib { materials: vec![first, Material::new("glass"), second] };
    assert_eq!(lib.get("paint").unwrap().illum, Some(2));
    assert_eq!(lib.get("paint").unwrap().texture_maps.diffuse.as_deref(), Some("wall.png"));
    assert_eq!(lib.get("glass").unwrap().name, "glass");
    assert!(lib.get("glass").unwrap().ambient.is_none());
    assert!(lib.get("steel").is_none());
}
