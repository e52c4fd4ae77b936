//! The reader of scene files.
//!
//! A scene file is read statement by statement.  A statement starts with a
//! keyword: `#` starts a comment that runs to the end of the line, `g` and
//! `o` start a model, `v`, `vt` and `vn` give a point, a texture coordinate
//! and a normal, `f` gives a face of the model that was started last,
//! `mtllib` names a material library, `usemtl` and `s` set the material and
//! the smoothing of the last model.  The first statement that cannot be read
//! ends the reading.
use crate::math::vector::{Vec2, Vec3};
use crate::obj_loader::lexer::{lex, lexemes, tokenize, Lexeme, Token};
use crate::obj_loader::syntax::{
    corners_from, lemma_words_end, small_at, spec_corners, spec_small_at, spec_vec2_at,
    spec_vec3_at, vec2_at, vec3_at, word_at, word_of, words_end, Error, ErrorView,
};
use crate::obj_loader::{Face, Model, SceneData, Vertex};
use vstd::prelude::*;
use vstd::utf8::{decode_utf8, valid_utf8};

verus! {

/// A statement of a scene file.
pub enum Statement {
    Comment,
    /// `g` or `o` with the name of the model.
    Group(Seq<u8>),
    /// `v`
    Point(Vec3),
    /// `vt`
    Texcoord(Vec2),
    /// `vn`
    Normal(Vec3),
    /// `f` with its corners.
    Face(Seq<Vertex>),
    /// `mtllib` with the name of the library, if the line gives one.
    Library(Option<Seq<u8>>),
    /// `usemtl` with the name of the material.
    Material(Seq<u8>),
    /// `s`
    Smooth(u8),
}

/// What a model holds.
pub struct ModelView {
    pub faces: Seq<Seq<Vertex>>,
    pub name: Seq<char>,
    pub mtllib: Option<u32>,
    pub material: Option<Seq<char>>,
    pub smooth_shade: u8,
}

/// What was read of a scene: its points, normals and texture coordinates,
/// the names of its material libraries, and its models.
pub struct SceneView {
    pub vertices: Seq<Vec3>,
    pub normals: Seq<Vec3>,
    pub texcoords: Seq<Vec2>,
    pub libraries: Seq<Seq<char>>,
    pub models: Seq<ModelView>,
}

/// A scene as it was read, with the names of the material libraries that it
/// asks for, in the order of the statements.  The libraries themselves are
/// for the host to read and to put into the scene, in the same order.
#[derive(Debug)]
pub struct ParsedScene {
    pub scene: SceneData,
    pub libraries: Vec<String>,
}

/// What a model holds.
pub open spec fn model_view(m: Model) -> ModelView {
    ModelView {
        faces: Seq::new(m.faces@.len(), |j: int| m.faces@[j].vertices@),
        name: m.name@,
        mtllib: m.mtllib,
        material: match m.material {
            Some(name) => Some(name@),
            None => None,
        },
        smooth_shade: m.smooth_shade,
    }
}

/// What a list of models holds.
pub open spec fn models_view(models: Seq<Model>) -> Seq<ModelView> {
    Seq::new(models.len(), |i: int| model_view(models[i]))
}

/// What a list of names holds.
pub open spec fn names_view(names: Seq<String>) -> Seq<Seq<char>> {
    Seq::new(names.len(), |i: int| names[i]@)
}

/// What was read of a scene.
pub open spec fn scene_view(p: ParsedScene) -> SceneView {
    SceneView {
        vertices: p.scene.vertices@,
        normals: p.scene.normals@,
        texcoords: p.scene.texcoords@,
        libraries: names_view(p.libraries@),
        models: models_view(p.scene.models@),
    }
}

/// The scene before anything is read.
pub open spec fn empty_scene() -> SceneView {
    SceneView {
        vertices: Seq::empty(),
        normals: Seq::empty(),
        texcoords: Seq::empty(),
        libraries: Seq::empty(),
        models: Seq::empty(),
    }
}

pub open spec fn key_comment() -> Seq<u8> {
    seq![35u8]
}

pub open spec fn key_g() -> Seq<u8> {
    seq![103u8]
}

pub open spec fn key_o() -> Seq<u8> {
    seq![111u8]
}

pub open spec fn key_v() -> Seq<u8> {
    seq![118u8]
}

pub open spec fn key_vt() -> Seq<u8> {
    seq![118u8, 116u8]
}

pub open spec fn key_vn() -> Seq<u8> {
    seq![118u8, 110u8]
}

pub open spec fn key_f() -> Seq<u8> {
    seq![102u8]
}

pub open spec fn key_mtllib() -> Seq<u8> {
    seq![109u8, 116u8, 108u8, 108u8, 105u8, 98u8]
}

pub open spec fn key_usemtl() -> Seq<u8> {
    seq![117u8, 115u8, 101u8, 109u8, 116u8, 108u8]
}

pub open spec fn key_s() -> Seq<u8> {
    seq![115u8]
}

/// The place of the first mark of a new line from `pos` on, or the end.
pub open spec fn line_end(lex: Seq<Lexeme>, pos: int) -> int
    decreases lex.len() - pos,
{
    if pos < 0 || pos >= lex.len() || lex[pos] is Nextline {
        pos
    } else {
        line_end(lex, pos + 1)
    }
}

/// The statement with a name behind its keyword, which `make` builds.
pub open spec fn spec_named(
    lex: Seq<Lexeme>,
    pos: int,
    make: spec_fn(Seq<u8>) -> Statement,
) -> Result<(Statement, int), ErrorView> {
    match word_at(lex, pos + 1) {
        Some(name) => Ok((make(name), pos + 2)),
        None => Err(ErrorView::ParseIncomplete),
    }
}

/// The face statement at `pos`: its corners run to the end of the line,
/// and the mark of the next line goes with it.
pub open spec fn spec_face(lex: Seq<Lexeme>, pos: int) -> Result<(Statement, int), ErrorView> {
    let end = words_end(lex, pos + 1);
    match spec_corners(lex, pos + 1, end) {
        Ok(corners) => Ok(
            (
                Statement::Face(corners),
                if end < lex.len() {
                    end + 1
                } else {
                    end
                },
            ),
        ),
        Err(e) => Err(e),
    }
}

/// The statement whose keyword stands at `pos`, and the place where the
/// next statement starts.
pub open spec fn spec_statement(lex: Seq<Lexeme>, pos: int) -> Result<(Statement, int), ErrorView> {
    let key = word_at(lex, pos)->Some_0;
    if key == key_comment() {
        Ok((Statement::Comment, line_end(lex, pos)))
    } else if key == key_g() || key == key_o() {
        spec_named(lex, pos, |name: Seq<u8>| Statement::Group(name))
    } else if key == key_v() {
        match spec_vec3_at(lex, pos + 1) {
            Ok(v) => Ok((Statement::Point(v), pos + 4)),
            Err(e) => Err(e),
        }
    } else if key == key_vt() {
        match spec_vec2_at(lex, pos + 1) {
            Ok(v) => Ok((Statement::Texcoord(v), pos + 3)),
            Err(e) => Err(e),
        }
    } else if key == key_vn() {
        match spec_vec3_at(lex, pos + 1) {
            Ok(v) => Ok((Statement::Normal(v), pos + 4)),
            Err(e) => Err(e),
        }
    } else if key == key_f() {
        spec_face(lex, pos)
    } else if key == key_mtllib() {
        match word_at(lex, pos + 1) {
            Some(name) => Ok((Statement::Library(Some(name)), pos + 2)),
            None => Ok((Statement::Library(None), pos + 1)),
        }
    } else if key == key_usemtl() {
        spec_named(lex, pos, |name: Seq<u8>| Statement::Material(name))
    } else if key == key_s() {
        match spec_small_at(lex, pos + 1) {
            Ok(v) => Ok((Statement::Smooth(v), pos + 2)),
            Err(e) => Err(e),
        }
    } else {
        Err(ErrorView::UnknownToken(key))
    }
}

/// The library that a model started after `count` library statements
/// belongs to: the last one.
pub open spec fn library_index(count: nat) -> Option<u32> {
    if count == 0 {
        None
    } else if count - 1 > 0xffff_ffff {
        Some(0xffff_ffffu32)
    } else {
        Some((count - 1) as u32)
    }
}

/// The scene with the last model replaced.
pub open spec fn with_last_model(scene: SceneView, model: ModelView) -> SceneView {
    SceneView { models: scene.models.drop_last().push(model), ..scene }
}

/// The scene after the statement.  A name that is no text ends the reading
/// like a file that cannot be read; a face, a material or a smoothing
/// before the first model is incomplete.
pub open spec fn spec_apply(scene: SceneView, statement: Statement) -> Result<SceneView, ErrorView> {
    match statement {
        Statement::Comment => Ok(scene),
        Statement::Group(name) => if valid_utf8(name) {
            Ok(
                SceneView {
                    models: scene.models.push(
                        ModelView {
                            faces: Seq::empty(),
                            name: decode_utf8(name),
                            mtllib: library_index(scene.libraries.len()),
                            material: None,
                            smooth_shade: 0,
                        },
                    ),
                    ..scene
                },
            )
        } else {
            Err(ErrorView::IoError)
        },
        Statement::Point(v) => Ok(SceneView { vertices: scene.vertices.push(v), ..scene }),
        Statement::Texcoord(v) => Ok(SceneView { texcoords: scene.texcoords.push(v), ..scene }),
        Statement::Normal(v) => Ok(SceneView { normals: scene.normals.push(v), ..scene }),
        Statement::Face(corners) => if scene.models.len() == 0 {
            Err(ErrorView::ParseIncomplete)
        } else {
            let last = scene.models.last();
            Ok(with_last_model(scene, ModelView { faces: last.faces.push(corners), ..last }))
        },
        Statement::Library(None) => Ok(scene),
        Statement::Library(Some(name)) => if valid_utf8(name) {
            Ok(SceneView { libraries: scene.libraries.push(decode_utf8(name)), ..scene })
        } else {
            Err(ErrorView::IoError)
        },
        Statement::Material(name) => if !valid_utf8(name) {
            Err(ErrorView::IoError)
        } else if scene.models.len() == 0 {
            Err(ErrorView::ParseIncomplete)
        } else {
            let last = scene.models.last();
            Ok(with_last_model(scene, ModelView { material: Some(decode_utf8(name)), ..last }))
        },
        Statement::Smooth(v) => if scene.models.len() == 0 {
            Err(ErrorView::ParseIncomplete)
        } else {
            let last = scene.models.last();
            Ok(with_last_model(scene, ModelView { smooth_shade: v, ..last }))
        },
    }
}

/// A statement ends behind its keyword.
pub proof fn lemma_statement_advances(lex: Seq<Lexeme>, pos: int)
    requires
        word_at(lex, pos) is Some,
    ensures
        spec_statement(lex, pos) is Ok ==> pos < spec_statement(lex, pos)->Ok_0.1 <= lex.len(),
{
    lemma_line_end(lex, pos);
    lemma_words_end(lex, pos + 1);
}

/// A line ends at or after the place where the search for its end starts.
pub proof fn lemma_line_end(lex: Seq<Lexeme>, pos: int)
    requires
        0 <= pos <= lex.len(),
    ensures
        pos <= line_end(lex, pos) <= lex.len(),
        pos < lex.len() && lex[pos] is Word ==> pos < line_end(lex, pos),
    decreases lex.len() - pos,
{
    if pos < lex.len() && !(lex[pos] is Nextline) {
        lemma_line_end(lex, pos + 1);
    }
}

/// The scene after the statements from `pos` on, or the reason why the
/// first statement that cannot be read cannot.
pub open spec fn spec_run(lex: Seq<Lexeme>, pos: int, scene: SceneView) -> Result<
    SceneView,
    ErrorView,
>
    decreases lex.len() - pos,
{
    if pos < 0 || pos >= lex.len() {
        Ok(scene)
    } else if lex[pos] is Nextline {
        spec_run(lex, pos + 1, scene)
    } else {
        match spec_statement(lex, pos) {
            Err(e) => Err(e),
            Ok((statement, next)) => match spec_apply(scene, statement) {
                Err(e) => Err(e),
                Ok(after) => {
                    proof {
                        lemma_statement_advances(lex, pos);
                    }
                    spec_run(lex, next, after)
                },
            },
        }
    }
}

/// The scene that the text of a scene file writes.  A file that holds
/// nothing is refused.
pub open spec fn spec_parse_obj(text: Seq<u8>) -> Result<SceneView, ErrorView> {
    if text.len() == 0 {
        Err(ErrorView::EmptyContent)
    } else {
        spec_run(lex(text), 0, empty_scene())
    }
}

/// Reads bytes as text with `std::str::from_utf8`.  Believed, not proved:
/// it gives the text that the bytes encode, where they encode one, and
/// nothing where they do not.
#[verifier::external_body]
pub(crate) fn text_of(bytes: &[u8]) -> (r: Option<&str>)
    ensures
        r is Some <==> valid_utf8(bytes@),
        r is Some ==> r->Some_0@ == decode_utf8(bytes@),
{
    match std::str::from_utf8(bytes) {
        Ok(text) => Some(text),
        Err(_) => None,
    }
}

/// Whether the two runs of bytes are the same.
pub fn same_bytes(a: &[u8], b: &[u8]) -> (r: bool)
    ensures
        r == (a@ == b@),
{
    if a.len() != b.len() {
        return false;
    }
    let mut k: usize = 0;
    while k < a.len()
        invariant
            k <= a@.len() == b@.len(),
            forall|i: int| 0 <= i < k ==> a@[i] == b@[i],
        decreases a@.len() - k,
    {
        if a[k] != b[k] {
            return false;
        }
        k += 1;
    }
    assert(a@ =~= b@);
    true
}

/// Whether the word is the keyword of the one given byte.
pub fn is_key1(w: &[u8], a: u8) -> (r: bool)
    ensures
        r == (w@ == seq![a]),
{
    let key = [a];
    assert(key@ =~= seq![a]);
    same_bytes(w, key.as_slice())
}

/// Whether the word is the keyword of the two given bytes.
pub fn is_key2(w: &[u8], a: u8, b: u8) -> (r: bool)
    ensures
        r == (w@ == seq![a, b]),
{
    let key = [a, b];
    assert(key@ =~= seq![a, b]);
    same_bytes(w, key.as_slice())
}

/// Whether the word is the keyword of the six given bytes.
pub fn is_key6(w: &[u8], a: u8, b: u8, c: u8, d: u8, e: u8, f: u8) -> (r: bool)
    ensures
        r == (w@ == seq![a, b, c, d, e, f]),
{
    let key = [a, b, c, d, e, f];
    assert(key@ =~= seq![a, b, c, d, e, f]);
    same_bytes(w, key.as_slice())
}

/// Whether the word is the keyword of the five given bytes.
pub fn is_key5(w: &[u8], a: u8, b: u8, c: u8, d: u8, e: u8) -> (r: bool)
    ensures
        r == (w@ == seq![a, b, c, d, e]),
{
    let key = [a, b, c, d, e];
    assert(key@ =~= seq![a, b, c, d, e]);
    same_bytes(w, key.as_slice())
}

/// Whether the word is the keyword of the eight given bytes.
pub fn is_key8(w: &[u8], a: u8, b: u8, c: u8, d: u8, e: u8, f: u8, g: u8, h: u8) -> (r: bool)
    ensures
        r == (w@ == seq![a, b, c, d, e, f, g, h]),
{
    let key = [a, b, c, d, e, f, g, h];
    assert(key@ =~= seq![a, b, c, d, e, f, g, h]);
    same_bytes(w, key.as_slice())
}

/// The place of the first mark of a new line from `pos` on, or the end.
pub fn skip_line(tokens: &Vec<Token>, pos: usize) -> (r: usize)
    requires
        pos <= tokens@.len(),
    ensures
        r == line_end(lexemes(tokens@), pos as int),
        pos <= r <= tokens@.len(),
{
    let mut at: usize = pos;
    while at < tokens.len() && word_of(tokens, at).is_some()
        invariant
            pos <= at <= tokens@.len(),
            line_end(lexemes(tokens@), pos as int) == line_end(lexemes(tokens@), at as int),
        decreases tokens@.len() - at,
    {
        at += 1;
    }
    at
}

impl ParsedScene {
    /// Nothing read yet.
    pub fn new() -> (r: ParsedScene)
        ensures
            scene_view(r) == empty_scene(),
            r.scene.materials@.len() == 0,
    {
        let r = ParsedScene { scene: SceneData::new(), libraries: Vec::new() };
        assert(scene_view(r).vertices =~= Seq::empty());
        assert(scene_view(r).normals =~= Seq::empty());
        assert(scene_view(r).texcoords =~= Seq::empty());
        assert(scene_view(r).libraries =~= Seq::empty());
        assert(scene_view(r).models =~= Seq::empty());
        r
    }

    fn library_of_next_model(&self) -> (r: Option<u32>)
        ensures
            r == library_index(self.libraries@.len()),
    {
        let count = self.libraries.len();
        if count == 0 {
            None
        } else if count - 1 > 0xffff_ffff {
            Some(0xffff_ffff)
        } else {
            Some((count - 1) as u32)
        }
    }

    fn start_model(&mut self, name: &[u8]) -> (r: Result<(), Error>)
        ensures
            final(self).scene.materials == old(self).scene.materials,
            match spec_apply(scene_view(*old(self)), Statement::Group(name@)) {
                Ok(after) => r is Ok && scene_view(*final(self)) == after,
                Err(e) => r is Err && r->Err_0@ == e,
            },
    {
        match text_of(name) {
            None => Err(Error::IoError),
            Some(text) => {
                let model = Model {
                    faces: Vec::new(),
                    name: text.to_owned(),
                    mtllib: self.library_of_next_model(),
                    material: None,
                    smooth_shade: 0,
                };
                assert(model_view(model).faces =~= Seq::empty());
                self.scene.models.push(model);
                proof {
                    let after = spec_apply(scene_view(*old(self)), Statement::Group(name@))->Ok_0;
                    assert(scene_view(*self).models =~= after.models);
                }
                Ok(())
            },
        }
    }

    fn add_library(&mut self, name: &[u8]) -> (r: Result<(), Error>)
        ensures
            final(self).scene.materials == old(self).scene.materials,
            match spec_apply(scene_view(*old(self)), Statement::Library(Some(name@))) {
                Ok(after) => r is Ok && scene_view(*final(self)) == after,
                Err(e) => r is Err && r->Err_0@ == e,
            },
    {
        match text_of(name) {
            None => Err(Error::IoError),
            Some(text) => {
                self.libraries.push(text.to_owned());
                proof {
                    let after = spec_apply(
                        scene_view(*old(self)),
                        Statement::Library(Some(name@)),
                    )->Ok_0;
                    assert(scene_view(*self).libraries =~= after.libraries);
                }
                Ok(())
            },
        }
    }

    fn add_face(&mut self, corners: Vec<Vertex>) -> (r: Result<(), Error>)
        ensures
            final(self).scene.materials == old(self).scene.materials,
            match spec_apply(scene_view(*old(self)), Statement::Face(corners@)) {
                Ok(after) => r is Ok && scene_view(*final(self)) == after,
                Err(e) => r is Err && r->Err_0@ == e,
            },
    {
        match self.scene.models.pop() {
            None => Err(Error::ParseIncomplete),
            Some(mut model) => {
                let ghost before = model_view(model);
                model.faces.push(Face { vertices: corners });
                assert(model_view(model).faces =~= before.faces.push(corners@));
                self.scene.models.push(model);
                proof {
                    let after = spec_apply(scene_view(*old(self)), Statement::Face(corners@))->Ok_0;
                    assert(scene_view(*self).models =~= after.models);
                }
                Ok(())
            },
        }
    }

    fn set_material(&mut self, name: &[u8]) -> (r: Result<(), Error>)
        ensures
            final(self).scene.materials == old(self).scene.materials,
            match spec_apply(scene_view(*old(self)), Statement::Material(name@)) {
                Ok(after) => r is Ok && scene_view(*final(self)) == after,
                Err(e) => r is Err && r->Err_0@ == e,
            },
    {
        match text_of(name) {
            None => Err(Error::IoError),
            Some(text) => match self.scene.models.pop() {
                None => Err(Error::ParseIncomplete),
                Some(mut model) => {
                    let ghost before = model_view(model);
                    model.material = Some(text.to_owned());
                    assert(model_view(model).faces =~= before.faces);
                    self.scene.models.push(model);
                    proof {
                        let after = spec_apply(
                            scene_view(*old(self)),
                            Statement::Material(name@),
                        )->Ok_0;
                        assert(scene_view(*self).models =~= after.models);
                    }
                    Ok(())
                },
            },
        }
    }

    fn set_smooth(&mut self, smooth_shade: u8) -> (r: Result<(), Error>)
        ensures
            final(self).scene.materials == old(self).scene.materials,
            match spec_apply(scene_view(*old(self)), Statement::Smooth(smooth_shade)) {
                Ok(after) => r is Ok && scene_view(*final(self)) == after,
                Err(e) => r is Err && r->Err_0@ == e,
            },
    {
        match self.scene.models.pop() {
            None => Err(Error::ParseIncomplete),
            Some(mut model) => {
                let ghost before = model_view(model);
                model.smooth_shade = smooth_shade;
                assert(model_view(model).faces =~= before.faces);
                self.scene.models.push(model);
                proof {
                    let after = spec_apply(
                        scene_view(*old(self)),
                        Statement::Smooth(smooth_shade),
                    )->Ok_0;
                    assert(scene_view(*self).models =~= after.models);
                }
                Ok(())
            },
        }
    }
}

/// Reads the statement whose keyword `key` stands at `pos` into the scene,
/// and says where the next statement starts.
fn statement(tokens: &Vec<Token>, pos: usize, key: &[u8], parsed: &mut ParsedScene) -> (r: Result<
    usize,
    Error,
>)
    requires
        pos < tokens@.len(),
        word_at(lexemes(tokens@), pos as int) == Some(key@),
    ensures
        final(parsed).scene.materials == old(parsed).scene.materials,
        match spec_statement(lexemes(tokens@), pos as int) {
            Err(e) => r is Err && r->Err_0@ == e,
            Ok((statement, next)) => match spec_apply(scene_view(*old(parsed)), statement) {
                Err(e) => r is Err && r->Err_0@ == e,
                Ok(after) => r == Ok::<usize, Error>(next as usize) && scene_view(*final(parsed))
                    == after,
            },
        },
{
    assert(tokens@.len() == tokens.len());
    if is_key1(key, 35) {
        return Ok(skip_line(tokens, pos));
    }
    if is_key1(key, 103) || is_key1(key, 111) {
        return match word_of(tokens, pos + 1) {
            Some(name) => {
                parsed.start_model(name.as_slice())?;
                Ok(pos + 2)
            },
            None => Err(Error::ParseIncomplete),
        };
    }
    if is_key1(key, 118) {
        let v = vec3_at(tokens, pos + 1)?;
        parsed.scene.vertices.push(v);
        return Ok(pos + 4);
    }
    if is_key2(key, 118, 116) {
        let v = vec2_at(tokens, pos + 1)?;
        parsed.scene.texcoords.push(v);
        return Ok(pos + 3);
    }
    if is_key2(key, 118, 110) {
        let v = vec3_at(tokens, pos + 1)?;
        parsed.scene.normals.push(v);
        return Ok(pos + 4);
    }
    if is_key1(key, 102) {
        proof {
            lemma_words_end(lexemes(tokens@), pos as int + 1);
        }
        let (corners, end) = corners_from(tokens, pos + 1)?;
        parsed.add_face(corners)?;
        return Ok(if end < tokens.len() { end + 1 } else { end });
    }
    if is_key6(key, 109, 116, 108, 108, 105, 98) {
        return match word_of(tokens, pos + 1) {
            Some(name) => {
                parsed.add_library(name.as_slice())?;
                Ok(pos + 2)
            },
            None => Ok(pos + 1),
        };
    }
    if is_key6(key, 117, 115, 101, 109, 116, 108) {
        return match word_of(tokens, pos + 1) {
            Some(name) => {
                parsed.set_material(name.as_slice())?;
                Ok(pos + 2)
            },
            None => Err(Error::ParseIncomplete),
        };
    }
    if is_key1(key, 115) {
        let v = small_at(tokens, pos + 1)?;
        parsed.set_smooth(v)?;
        return Ok(pos + 2);
    }
    let word = crate::obj_loader::lexer::copy_range(key, 0, key.len());
    assert(word@ =~= key@);
    Err(Error::UnknownToken(word))
}

/// Reads the text of a scene file.  What comes back holds the scene
/// without its material libraries, and the names of the libraries that the
/// scene asks for.
pub fn parse_obj(text: &[u8]) -> (r: Result<ParsedScene, Error>)
    ensures
        match spec_parse_obj(text@) {
            Ok(scene) => r is Ok && scene_view(r->Ok_0) == scene && r->Ok_0.scene.materials@.len()
                == 0,
            Err(e) => r is Err && r->Err_0@ == e,
        },
{
    if text.len() == 0 {
        return Err(Error::EmptyContent);
    }
    let tokens = tokenize(text);
    let mut parsed = ParsedScene::new();
    let mut pos: usize = 0;
    while pos < tokens.len()
        invariant
            pos <= tokens@.len(),
            lexemes(tokens@) == lex(text@),
            parsed.scene.materials@.len() == 0,
            spec_run(lex(text@), pos as int, scene_view(parsed)) == spec_run(
                lex(text@),
                0,
                empty_scene(),
            ),
        decreases tokens@.len() - pos,
    {
        match word_of(&tokens, pos) {
            None => {
                pos += 1;
            },
            Some(key) => {
                proof {
                    lemma_statement_advances(lex(text@), pos as int);
                }
                pos = statement(&tokens, pos, key.as_slice(), &mut parsed)?;
            },
        }
    }
    Ok(parsed)
}

} // verus!
