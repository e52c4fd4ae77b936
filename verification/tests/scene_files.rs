use rs_cpurenderer::fixed::Fixed;
use rs_cpurenderer::math::{Vec2, Vec3};
use rs_cpurenderer::model::{assemble, PreOperation};
use rs_cpurenderer::obj_loader::lexer::{tokenize, Token};
use rs_cpurenderer::obj_loader::mtl_parser::parse_mtl;
use rs_cpurenderer::obj_loader::number::{parse_decimal, parse_unsigned};
use rs_cpurenderer::obj_loader::obj_parser::parse_obj;
use rs_cpurenderer::obj_loader::syntax::{corner_of, Error};
use rs_cpurenderer::obj_loader::Vertex;

fn fx(v: f64) -> Fixed {
    Fixed::from_raw((v * 65536.0) as i32)
}

fn words(text: &str) -> Vec<String> {
    tokenize(text.as_bytes())
        .iter()
        .map(|t| match t {
            Token::Word(w) => String::from_utf8(w.clone()).unwrap(),
            Token::Nextline => "\n".to_string(),
        })
        .collect()
}

fn kind(e: &Error) -> &'static str {
    match e {
        Error::IoError => "io",
        Error::CantCvt2Num => "number",
        Error::UnknownToken(_) => "unknown",
        Error::ExccedComponent => "component",
        Error::EmptyContent => "empty",
        Error::ParseIncomplete => "incomplete",
        Error::InvalidSyntax => "syntax",
        Error::PathNotFount => "path",
    }
}

fn obj_error(text: &str) -> &'static str {
    kind(&parse_obj(text.as_bytes()).err().unwrap())
}

fn mtl_error(text: &str) -> &'static str {
    kind(&parse_mtl(text.as_bytes()).err().unwrap())
}

#[test]
fn tokens_of_lines() {
    assert_eq!(words("v 1 2\nf a"), vec!["v", "1", "2", "\n", "f", "a"]);
    assert_eq!(words("  v\t1 \r\n\n f"), vec!["v", "1", "\n", "\n", "f"]);
    // a line break at the very end starts no line
    assert_eq!(words("a\n"), vec!["a"]);
    assert_eq!(words("a\n\n"), vec!["a", "\n"]);
    assert_eq!(words("\n"), Vec::<String>::new());
    assert_eq!(words("   "), Vec::<String>::new());
    assert_eq!(words(""), Vec::<String>::new());
    assert_eq!(words("\nx"), vec!["\n", "x"]);
}

#[test]
fn decimal_fractions() {
    let read = |s: &str| parse_decimal(s.as_bytes());
    assert_eq!(read("1"), Some(fx(1.0)));
    assert_eq!(read("-2.5"), Some(fx(-2.5)));
    assert_eq!(read("+0.25"), Some(fx(0.25)));
    assert_eq!(read(".5"), Some(fx(0.5)));
    assert_eq!(read("5."), Some(fx(5.0)));
    assert_eq!(read("0.000000"), Some(fx(0.0)));
    assert_eq!(read("-0.0"), Some(fx(0.0)));
    assert_eq!(read("007.50"), Some(fx(7.5)));
    // rounded down to the resolution
    assert_eq!(read("0.1"), Some(Fixed::from_raw(6553)));
    assert_eq!(read("-0.1"), Some(Fixed::from_raw(-6553)));
    assert_eq!(read("0.333333"), Some(Fixed::from_raw(21845)));
    // of the digits after the point the first nine count
    assert_eq!(read("0.9999999999999"), Some(Fixed::from_raw(65535)));
    assert_eq!(read("0.0000000009"), Some(fx(0.0)));
    assert_eq!(read("32767.5"), Some(fx(32767.5)));
}

#[test]
fn decimals_out_of_range_are_clamped() {
    let read = |s: &str| parse_decimal(s.as_bytes());
    assert_eq!(read("32768"), Some(Fixed::max_value()));
    assert_eq!(read("-32768"), Some(Fixed::min_value()));
    assert_eq!(read("-32768.5"), Some(Fixed::min_value()));
    assert_eq!(read("123456789012345678901234567890"), Some(Fixed::max_value()));
    assert_eq!(read("-99999999999999999999.9"), Some(Fixed::min_value()));
}

#[test]
fn what_is_no_decimal() {
    let read = |s: &str| parse_decimal(s.as_bytes());
    for bad in ["", "+", "-", ".", "-.", "1.2.3", "1e5", "abc", "1,5", "--1", "1-", "inf", "0x10", "1 "] {
        assert_eq!(read(bad), None, "{:?}", bad);
    }
}

#[test]
fn indices() {
    let read = |s: &str, max: u32| parse_unsigned(s.as_bytes(), max);
    assert_eq!(read("0", 255), Some(0));
    assert_eq!(read("255", 255), Some(255));
    assert_eq!(read("256", 255), None);
    assert_eq!(read("+7", 255), Some(7));
    assert_eq!(read("007", 255), Some(7));
    assert_eq!(read("4294967295", u32::MAX), Some(u32::MAX));
    assert_eq!(read("4294967296", u32::MAX), None);
    assert_eq!(read("99999999999999999999999", u32::MAX), None);
    for bad in ["", "+", "-1", "1.0", "a", "1a", " 1"] {
        assert_eq!(read(bad, u32::MAX), None, "{:?}", bad);
    }
}

#[test]
fn corners_of_faces() {
    let read = |s: &str| corner_of(s.as_bytes());
    assert_eq!(read("1/2/3").unwrap(), Vertex { vertex: 0, texcoord: Some(1), normal: Some(2) });
    assert_eq!(read("7//9").unwrap(), Vertex { vertex: 6, texcoord: None, normal: Some(8) });
    assert_eq!(read("7/8/").unwrap(), Vertex { vertex: 6, texcoord: Some(7), normal: None });
    assert_eq!(read("1//").unwrap(), Vertex { vertex: 0, texcoord: None, normal: None });
    for bad in ["1", "1/2", "1/2/3/4", ""] {
        assert_eq!(kind(&read(bad).err().unwrap()), "syntax", "{:?}", bad);
    }
    // the file counts from one
    for bad in ["0/1/1", "/1/1", "a/1/1", "1/0/1", "1/1/x", "-1/1/1"] {
        assert_eq!(kind(&read(bad).err().unwrap()), "number", "{:?}", bad);
    }
}

const SQUARE: &str = "# a square\nmtllib paint.mtl\no square\nv 0 0 0\nv 1 0 0\nv 1 1 0\nv 0.0 1.0 0.0\n\
vt 0 0\nvt 1 1\nvn 0 0 1\nusemtl red\ns 1\nf 1/1/1 2//1 3/2/1\nf 1/1/1 3/2/1 4//1\n\
g flap\nf 4// 2// 1//\n";

#[test]
fn a_scene_is_read() {
    let parsed = parse_obj(SQUARE.as_bytes()).unwrap();
    assert_eq!(parsed.libraries, vec!["paint.mtl"]);
    let scene = &parsed.scene;
    assert!(scene.materials.is_empty());
    assert_eq!(scene.vertices.len(), 4);
    assert_eq!(scene.vertices[2], Vec3::new(fx(1.0), fx(1.0), fx(0.0)));
    assert_eq!(scene.texcoords, vec![Vec2::new(fx(0.0), fx(0.0)), Vec2::new(fx(1.0), fx(1.0))]);
    assert_eq!(scene.normals, vec![Vec3::new(fx(0.0), fx(0.0), fx(1.0))]);
    assert_eq!(scene.models.len(), 2);
    let square = &scene.models[0];
    assert_eq!(square.name, "square");
    assert_eq!(square.mtllib, Some(0));
    assert_eq!(square.material.as_deref(), Some("red"));
    assert_eq!(square.smooth_shade, 1);
    assert_eq!(square.faces.len(), 2);
    assert_eq!(
        square.faces[1].vertices,
        vec![
            Vertex { vertex: 0, texcoord: Some(0), normal: Some(0) },
            Vertex { vertex: 2, texcoord: Some(1), normal: Some(0) },
            Vertex { vertex: 3, texcoord: None, normal: Some(0) },
        ]
    );
    let flap = &scene.models[1];
    assert_eq!((flap.name.as_str(), flap.mtllib, flap.material.as_deref(), flap.smooth_shade), ("flap", Some(0), None, 0));
    assert_eq!(flap.faces[0].vertices[0], Vertex { vertex: 3, texcoord: None, normal: None });
    // what was read can be assembled
    assert!(scene.validate());
    let meshes = assemble(scene, PreOperation::RecalcNormal).unwrap();
    assert_eq!(meshes[0].vertices.len(), 6);
    assert_eq!(meshes[0].vertices[5].position, Vec3::new(fx(0.0), fx(1.0), fx(0.0)));
}

#[test]
fn models_before_a_library_belong_to_none() {
    let parsed = parse_obj(b"o first\nmtllib a.mtl\nmtllib b.mtl\no second\nmtllib\n").unwrap();
    assert_eq!(parsed.scene.models[0].mtllib, None);
    assert_eq!(parsed.scene.models[1].mtllib, Some(1));
    assert_eq!(parsed.libraries, vec!["a.mtl", "b.mtl"]);
}

#[test]
fn statements_may_share_a_line_and_comments_end_with_it() {
    let parsed = parse_obj(b"v 1 2 3 v 4 5 6 # v 7 8 9\nvn 0 1 0").unwrap();
    assert_eq!(parsed.scene.vertices.len(), 2);
    assert_eq!(parsed.scene.normals.len(), 1);
    // a face runs to the end of its line
    let parsed = parse_obj(b"o m\nf 1// 2// 3//\nf\nf 1//").unwrap();
    let sizes: Vec<usize> = parsed.scene.models[0].faces.iter().map(|f| f.vertices.len()).collect();
    assert_eq!(sizes, vec![3, 0, 1]);
}

#[test]
fn scenes_that_cannot_be_read() {
    assert_eq!(obj_error(""), "empty");
    assert_eq!(obj_error("vx 1 2 3"), "unknown");
    assert_eq!(obj_error("v 1 2"), "incomplete");
    assert_eq!(obj_error("v 1 2\nv 1 2 3"), "incomplete");
    assert_eq!(obj_error("v 1 two 3"), "number");
    assert_eq!(obj_error("vt 1"), "incomplete");
    assert_eq!(obj_error("o"), "incomplete");
    assert_eq!(obj_error("g\nv 1 2 3"), "incomplete");
    assert_eq!(obj_error("usemtl"), "incomplete");
    // before the first model
    assert_eq!(obj_error("f 1// 2// 3//"), "incomplete");
    assert_eq!(obj_error("usemtl red"), "incomplete");
    assert_eq!(obj_error("s 1"), "incomplete");
    assert_eq!(obj_error("o m\ns 256"), "number");
    assert_eq!(obj_error("o m\ns"), "incomplete");
    assert_eq!(obj_error("o m\nf 1/2"), "syntax");
    assert_eq!(obj_error("o m\nf 1/2/3 0/1/1"), "number");
    // the first statement that cannot be read decides
    assert_eq!(obj_error("v 1 2 3\nbad\nv x"), "unknown");
    assert_eq!(obj_error("v x\nbad"), "number");
    // a name that is no text
    assert_eq!(kind(&parse_obj(&[b'o', b' ', 0xff, b'\n']).err().unwrap()), "io");
    match parse_obj(b"# fine\nhello world").err().unwrap() {
        Error::UnknownToken(word) => assert_eq!(word, b"hello"),
        other => panic!("{:?}", other),
    }
}

const PAINT: &str = "# paints\nnewmtl red\nNs 96.078431\nKa 1.0 0.0 0.0\nKd 0.64 0.0 0.0\nKs 0.5 0.5 0.5\n\
Ke 0 0 0\nNi 1.5\nd 0.75\nillum 2\nmap_Kd red.png\nmap_Ka a.png\nmap_Ks s.png\nmap_Ns n.png\nmap_d d.png\nmap_refl r.png\n\
Tf 1 1 1\n\nnewmtl glass\nTr 0.25\n";

#[test]
fn a_material_library_is_read() {
    let lib = parse_mtl(PAINT.as_bytes()).unwrap();
    assert_eq!(lib.materials.len(), 2);
    let red = lib.get("red").unwrap();
    assert_eq!(red.specular_exponent, Some(Fixed::from_raw(96 * 65536 + 5140)));
    assert_eq!(red.ambient, Some(Vec3::new(fx(1.0), fx(0.0), fx(0.0))));
    assert_eq!(red.diffuse, Some(Vec3::new(Fixed::from_raw(41943), fx(0.0), fx(0.0))));
    assert_eq!(red.specular, Some(Vec3::new(fx(0.5), fx(0.5), fx(0.5))));
    assert_eq!(red.emissive_coeficient, Some(Vec3::zero()));
    assert_eq!(red.transmission_filter, Some(Vec3::new(fx(1.0), fx(1.0), fx(1.0))));
    assert_eq!(red.optical_density, Some(fx(1.5)));
    assert_eq!(red.dissolve, Some(fx(0.75)));
    assert_eq!(red.illum, Some(2));
    assert_eq!(red.texture_maps.diffuse.as_deref(), Some("red.png"));
    assert_eq!(red.texture_maps.ambient.as_deref(), Some("a.png"));
    assert_eq!(red.texture_maps.specular_color.as_deref(), Some("s.png"));
    assert_eq!(red.texture_maps.specular_highlight.as_deref(), Some("n.png"));
    assert_eq!(red.texture_maps.alpha.as_deref(), Some("d.png"));
    assert_eq!(red.texture_maps.refl.as_deref(), Some("r.png"));
    let glass = lib.get("glass").unwrap();
    // Tr is one minus d
    assert_eq!(glass.dissolve, Some(fx(0.75)));
    assert!(glass.ambient.is_none() && glass.illum.is_none() && glass.texture_maps.diffuse.is_none());
}

#[test]
fn libraries_that_cannot_be_read() {
    assert_eq!(mtl_error(""), "empty");
    assert_eq!(mtl_error("newmtl"), "incomplete");
    assert_eq!(mtl_error("Kd 1 0 0"), "incomplete");
    assert_eq!(mtl_error("illum 2"), "incomplete");
    assert_eq!(mtl_error("map_Kd x.png"), "incomplete");
    assert_eq!(mtl_error("newmtl a\nKd 1 0"), "incomplete");
    assert_eq!(mtl_error("newmtl a\nKd 1 0 zero"), "number");
    assert_eq!(mtl_error("newmtl a\nillum 300"), "number");
    assert_eq!(mtl_error("newmtl a\nmap_Kd"), "incomplete");
    assert_eq!(mtl_error("newmtl a\nKx 1 0 0"), "unknown");
    assert_eq!(mtl_error("newmtl a\nmap_bump x.png"), "unknown");
    assert!(parse_mtl(b"# nothing but a comment\n").unwrap().materials.is_empty());
}

#[test]
fn what_follows_a_statement_is_taken_for_a_keyword() {
    match parse_obj(b"v 1 2 3 4\n").err().unwrap() {
        Error::UnknownToken(word) => assert_eq!(word, b"4"),
        other => panic!("{:?}", other),
    }
}
