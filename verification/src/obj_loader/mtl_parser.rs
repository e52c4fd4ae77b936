//! The reader of material libraries.
//!
//! A library is read statement by statement.  `newmtl` starts a material;
//! every other statement but a comment sets a field of the material that
//! was started last.
use crate::fixed::Fixed;
use crate::math::vector::Vec3;
use crate::obj_loader::lexer::{copy_range, lex, lexemes, tokenize, Lexeme, Token};
use crate::obj_loader::obj_parser::{
    is_key1, is_key2, is_key5, is_key6, is_key8, key_comment, lemma_line_end, line_end, skip_line,
    text_of,
};
use crate::obj_loader::syntax::{
    number_at, small_at, spec_number_at, spec_small_at, spec_vec3_at, vec3_at, word_at, word_of,
    Error, ErrorView,
};
use crate::obj_loader::{Material, Mtllib};
use vstd::prelude::*;
use vstd::utf8::{decode_utf8, valid_utf8};

verus! {

/// The fields of a material that hold a number.
#[derive(Clone, Copy, Debug, PartialEq, Eq, Structural)]
pub enum NumberField {
    /// `Ns`
    SpecularExponent,
    /// `Ni`
    OpticalDensity,
    /// `d`, and `Tr` with one minus its number
    Dissolve,
}

/// The fields of a material that hold a colour.
#[derive(Clone, Copy, Debug, PartialEq, Eq, Structural)]
pub enum ColorField {
    /// `Ka`
    Ambient,
    /// `Kd`
    Diffuse,
    /// `Ks`
    Specular,
    /// `Ke`
    Emissive,
    /// `Tf`
    Transmission,
}

/// The fields of a material that hold the name of a texture map.
#[derive(Clone, Copy, Debug, PartialEq, Eq, Structural)]
pub enum MapField {
    /// `map_Ka`
    Ambient,
    /// `map_Kd`
    Diffuse,
    /// `map_Ks`
    SpecularColor,
    /// `map_Ns`
    SpecularHighlight,
    /// `map_d`
    Alpha,
    /// `map_refl`
    Refl,
}

/// A statement of a material library.
pub enum MtlStatement {
    Comment,
    /// `newmtl` with the name of the material.
    New(Seq<u8>),
    Number(NumberField, Fixed),
    Color(ColorField, Vec3),
    /// `illum`
    Illum(u8),
    Texture(MapField, Seq<u8>),
}

/// What a material holds.
pub struct MaterialView {
    pub name: Seq<char>,
    pub ambient: Option<Vec3>,
    pub diffuse: Option<Vec3>,
    pub specular: Option<Vec3>,
    pub emissive_coeficient: Option<Vec3>,
    pub specular_exponent: Option<Fixed>,
    pub dissolve: Option<Fixed>,
    pub transmission_filter: Option<Vec3>,
    pub optical_density: Option<Fixed>,
    pub illum: Option<u8>,
    pub map_ambient: Option<Seq<char>>,
    pub map_diffuse: Option<Seq<char>>,
    pub map_specular_color: Option<Seq<char>>,
    pub map_specular_highlight: Option<Seq<char>>,
    pub map_alpha: Option<Seq<char>>,
    pub map_refl: Option<Seq<char>>,
}

/// What a name that may be missing holds.
pub open spec fn optional_text(name: Option<String>) -> Option<Seq<char>> {
    match name {
        Some(name) => Some(name@),
        None => None,
    }
}

/// What a material holds.
pub open spec fn material_view(m: Material) -> MaterialView {
    MaterialView {
        name: m.name@,
        ambient: m.ambient,
        diffuse: m.diffuse,
        specular: m.specular,
        emissive_coeficient: m.emissive_coeficient,
        specular_exponent: m.specular_exponent,
        dissolve: m.dissolve,
        transmission_filter: m.transmission_filter,
        optical_density: m.optical_density,
        illum: m.illum,
        map_ambient: optional_text(m.texture_maps.ambient),
        map_diffuse: optional_text(m.texture_maps.diffuse),
        map_specular_color: optional_text(m.texture_maps.specular_color),
        map_specular_highlight: optional_text(m.texture_maps.specular_highlight),
        map_alpha: optional_text(m.texture_maps.alpha),
        map_refl: optional_text(m.texture_maps.refl),
    }
}

/// What a list of materials holds.
pub open spec fn materials_view(materials: Seq<Material>) -> Seq<MaterialView> {
    Seq::new(materials.len(), |i: int| material_view(materials[i]))
}

/// A material of the given name with nothing set.
pub open spec fn new_material(name: Seq<char>) -> MaterialView {
    MaterialView {
        name,
        ambient: None,
        diffuse: None,
        specular: None,
        emissive_coeficient: None,
        specular_exponent: None,
        dissolve: None,
        transmission_filter: None,
        optical_density: None,
        illum: None,
        map_ambient: None,
        map_diffuse: None,
        map_specular_color: None,
        map_specular_highlight: None,
        map_alpha: None,
        map_refl: None,
    }
}

pub open spec fn key_newmtl() -> Seq<u8> {
    seq![110u8, 101u8, 119u8, 109u8, 116u8, 108u8]
}

pub open spec fn key_illum() -> Seq<u8> {
    seq![105u8, 108u8, 108u8, 117u8, 109u8]
}

pub open spec fn key_tr() -> Seq<u8> {
    seq![84u8, 114u8]
}

/// The field that the keyword of a number names.
pub open spec fn number_field(key: Seq<u8>) -> Option<NumberField> {
    if key == seq![78u8, 115u8] {
        Some(NumberField::SpecularExponent)
    } else if key == seq![78u8, 105u8] {
        Some(NumberField::OpticalDensity)
    } else if key == seq![100u8] {
        Some(NumberField::Dissolve)
    } else {
        None
    }
}

/// The field that the keyword of a colour names.
pub open spec fn color_field(key: Seq<u8>) -> Option<ColorField> {
    if key == seq![75u8, 97u8] {
        Some(ColorField::Ambient)
    } else if key == seq![75u8, 100u8] {
        Some(ColorField::Diffuse)
    } else if key == seq![75u8, 115u8] {
        Some(ColorField::Specular)
    } else if key == seq![75u8, 101u8] {
        Some(ColorField::Emissive)
    } else if key == seq![84u8, 102u8] {
        Some(ColorField::Transmission)
    } else {
        None
    }
}

/// The field that the keyword of a texture map names.
pub open spec fn map_field(key: Seq<u8>) -> Option<MapField> {
    if key == seq![109u8, 97u8, 112u8, 95u8, 75u8, 97u8] {
        Some(MapField::Ambient)
    } else if key == seq![109u8, 97u8, 112u8, 95u8, 75u8, 100u8] {
        Some(MapField::Diffuse)
    } else if key == seq![109u8, 97u8, 112u8, 95u8, 75u8, 115u8] {
        Some(MapField::SpecularColor)
    } else if key == seq![109u8, 97u8, 112u8, 95u8, 78u8, 115u8] {
        Some(MapField::SpecularHighlight)
    } else if key == seq![109u8, 97u8, 112u8, 95u8, 100u8] {
        Some(MapField::Alpha)
    } else if key == seq![109u8, 97u8, 112u8, 95u8, 114u8, 101u8, 102u8, 108u8] {
        Some(MapField::Refl)
    } else {
        None
    }
}

/// The statement whose keyword stands at `pos`, and the place where the
/// next statement starts.
pub open spec fn spec_mtl_statement(lex: Seq<Lexeme>, pos: int) -> Result<
    (MtlStatement, int),
    ErrorView,
> {
    let key = word_at(lex, pos)->Some_0;
    if key == key_comment() {
        Ok((MtlStatement::Comment, line_end(lex, pos)))
    } else if key == key_newmtl() {
        match word_at(lex, pos + 1) {
            Some(name) => Ok((MtlStatement::New(name), pos + 2)),
            None => Err(ErrorView::ParseIncomplete),
        }
    } else if number_field(key) is Some {
        match spec_number_at(lex, pos + 1) {
            Ok(v) => Ok((MtlStatement::Number(number_field(key)->Some_0, v), pos + 2)),
            Err(e) => Err(e),
        }
    } else if key == key_tr() {
        match spec_number_at(lex, pos + 1) {
            Ok(v) => Ok(
                (
                    MtlStatement::Number(NumberField::Dissolve, Fixed { raw: 65536 }.minus(v)),
                    pos + 2,
                ),
            ),
            Err(e) => Err(e),
        }
    } else if color_field(key) is Some {
        match spec_vec3_at(lex, pos + 1) {
            Ok(v) => Ok((MtlStatement::Color(color_field(key)->Some_0, v), pos + 4)),
            Err(e) => Err(e),
        }
    } else if key == key_illum() {
        match spec_small_at(lex, pos + 1) {
            Ok(v) => Ok((MtlStatement::Illum(v), pos + 2)),
            Err(e) => Err(e),
        }
    } else if map_field(key) is Some {
        match word_at(lex, pos + 1) {
            Some(name) => Ok((MtlStatement::Texture(map_field(key)->Some_0, name), pos + 2)),
            None => Err(ErrorView::ParseIncomplete),
        }
    } else {
        Err(ErrorView::UnknownToken(key))
    }
}

/// The material with the number set.
pub open spec fn with_number(m: MaterialView, field: NumberField, v: Fixed) -> MaterialView {
    match field {
        NumberField::SpecularExponent => MaterialView { specular_exponent: Some(v), ..m },
        NumberField::OpticalDensity => MaterialView { optical_density: Some(v), ..m },
        NumberField::Dissolve => MaterialView { dissolve: Some(v), ..m },
    }
}

/// The material with the colour set.
pub open spec fn with_color(m: MaterialView, field: ColorField, v: Vec3) -> MaterialView {
    match field {
        ColorField::Ambient => MaterialView { ambient: Some(v), ..m },
        ColorField::Diffuse => MaterialView { diffuse: Some(v), ..m },
        ColorField::Specular => MaterialView { specular: Some(v), ..m },
        ColorField::Emissive => MaterialView { emissive_coeficient: Some(v), ..m },
        ColorField::Transmission => MaterialView { transmission_filter: Some(v), ..m },
    }
}

/// The material with the name of the texture map set.
pub open spec fn with_map(m: MaterialView, field: MapField, name: Seq<char>) -> MaterialView {
    match field {
        MapField::Ambient => MaterialView { map_ambient: Some(name), ..m },
        MapField::Diffuse => MaterialView { map_diffuse: Some(name), ..m },
        MapField::SpecularColor => MaterialView { map_specular_color: Some(name), ..m },
        MapField::SpecularHighlight => MaterialView { map_specular_highlight: Some(name), ..m },
        MapField::Alpha => MaterialView { map_alpha: Some(name), ..m },
        MapField::Refl => MaterialView { map_refl: Some(name), ..m },
    }
}

/// The materials with the last one replaced, where there is one.
pub open spec fn with_last(materials: Seq<MaterialView>, m: MaterialView) -> Result<
    Seq<MaterialView>,
    ErrorView,
> {
    if materials.len() == 0 {
        Err(ErrorView::ParseIncomplete)
    } else {
        Ok(materials.drop_last().push(m))
    }
}

/// The materials after the statement.  A name that is no text ends the
/// reading like a file that cannot be read; a field before the first
/// material is incomplete.
pub open spec fn spec_mtl_apply(materials: Seq<MaterialView>, statement: MtlStatement) -> Result<
    Seq<MaterialView>,
    ErrorView,
> {
    match statement {
        MtlStatement::Comment => Ok(materials),
        MtlStatement::New(name) => if valid_utf8(name) {
            Ok(materials.push(new_material(decode_utf8(name))))
        } else {
            Err(ErrorView::IoError)
        },
        MtlStatement::Number(field, v) => if materials.len() == 0 {
            Err(ErrorView::ParseIncomplete)
        } else {
            with_last(materials, with_number(materials.last(), field, v))
        },
        MtlStatement::Color(field, v) => if materials.len() == 0 {
            Err(ErrorView::ParseIncomplete)
        } else {
            with_last(materials, with_color(materials.last(), field, v))
        },
        MtlStatement::Illum(v) => if materials.len() == 0 {
            Err(ErrorView::ParseIncomplete)
        } else {
            with_last(materials, MaterialView { illum: Some(v), ..materials.last() })
        },
        MtlStatement::Texture(field, name) => if !valid_utf8(name) {
            Err(ErrorView::IoError)
        } else if materials.len() == 0 {
            Err(ErrorView::ParseIncomplete)
        } else {
            with_last(materials, with_map(materials.last(), field, decode_utf8(name)))
        },
    }
}

/// A statement ends behind its keyword.
pub proof fn lemma_mtl_statement_advances(lex: Seq<Lexeme>, pos: int)
    requires
        word_at(lex, pos) is Some,
    ensures
        spec_mtl_statement(lex, pos) is Ok ==> pos < spec_mtl_statement(lex, pos)->Ok_0.1
            <= lex.len(),
{
    lemma_line_end(lex, pos);
}

/// The materials after the statements from `pos` on, or the reason why
/// the first statement that cannot be read cannot.
pub open spec fn spec_mtl_run(lex: Seq<Lexeme>, pos: int, materials: Seq<MaterialView>) -> Result<
    Seq<MaterialView>,
    ErrorView,
>
    decreases lex.len() - pos,
{
    if pos < 0 || pos >= lex.len() {
        Ok(materials)
    } else if lex[pos] is Nextline {
        spec_mtl_run(lex, pos + 1, materials)
    } else {
        match spec_mtl_statement(lex, pos) {
            Err(e) => Err(e),
            Ok((statement, next)) => match spec_mtl_apply(materials, statement) {
                Err(e) => Err(e),
                Ok(after) => {
                    proof {
                        lemma_mtl_statement_advances(lex, pos);
                    }
                    spec_mtl_run(lex, next, after)
                },
            },
        }
    }
}

/// The materials that the text of a material library writes.  A file that
/// holds nothing is refused.
pub open spec fn spec_parse_mtl(text: Seq<u8>) -> Result<Seq<MaterialView>, ErrorView> {
    if text.len() == 0 {
        Err(ErrorView::EmptyContent)
    } else {
        spec_mtl_run(lex(text), 0, Seq::empty())
    }
}

fn number_field_of(key: &[u8]) -> (r: Option<NumberField>)
    ensures
        r == number_field(key@),
{
    if is_key2(key, 78, 115) {
        Some(NumberField::SpecularExponent)
    } else if is_key2(key, 78, 105) {
        Some(NumberField::OpticalDensity)
    } else if is_key1(key, 100) {
        Some(NumberField::Dissolve)
    } else {
        None
    }
}

fn color_field_of(key: &[u8]) -> (r: Option<ColorField>)
    ensures
        r == color_field(key@),
{
    if is_key2(key, 75, 97) {
        Some(ColorField::Ambient)
    } else if is_key2(key, 75, 100) {
        Some(ColorField::Diffuse)
    } else if is_key2(key, 75, 115) {
        Some(ColorField::Specular)
    } else if is_key2(key, 75, 101) {
        Some(ColorField::Emissive)
    } else if is_key2(key, 84, 102) {
        Some(ColorField::Transmission)
    } else {
        None
    }
}

fn map_field_of(key: &[u8]) -> (r: Option<MapField>)
    ensures
        r == map_field(key@),
{
    if is_key6(key, 109, 97, 112, 95, 75, 97) {
        Some(MapField::Ambient)
    } else if is_key6(key, 109, 97, 112, 95, 75, 100) {
        Some(MapField::Diffuse)
    } else if is_key6(key, 109, 97, 112, 95, 75, 115) {
        Some(MapField::SpecularColor)
    } else if is_key6(key, 109, 97, 112, 95, 78, 115) {
        Some(MapField::SpecularHighlight)
    } else if is_key5(key, 109, 97, 112, 95, 100) {
        Some(MapField::Alpha)
    } else if is_key8(key, 109, 97, 112, 95, 114, 101, 102, 108) {
        Some(MapField::Refl)
    } else {
        None
    }
}

fn start_material(materials: &mut Vec<Material>, name: &[u8]) -> (r: Result<(), Error>)
    ensures
        match spec_mtl_apply(materials_view(old(materials)@), MtlStatement::New(name@)) {
            Ok(after) => r is Ok && materials_view(final(materials)@) == after,
            Err(e) => r is Err && r->Err_0@ == e,
        },
{
    match text_of(name) {
        None => Err(Error::IoError),
        Some(text) => {
            let material = Material::new(text);
            materials.push(material);
            proof {
                let after = spec_mtl_apply(
                    materials_view(old(materials)@),
                    MtlStatement::New(name@),
                )->Ok_0;
                assert(materials_view(materials@) =~= after);
            }
            Ok(())
        },
    }
}

fn set_number(materials: &mut Vec<Material>, field: NumberField, v: Fixed) -> (r: Result<
    (),
    Error,
>)
    ensures
        match spec_mtl_apply(materials_view(old(materials)@), MtlStatement::Number(field, v)) {
            Ok(after) => r is Ok && materials_view(final(materials)@) == after,
            Err(e) => r is Err && r->Err_0@ == e,
        },
{
    match materials.pop() {
        None => Err(Error::ParseIncomplete),
        Some(mut m) => {
            match field {
                NumberField::SpecularExponent => {
                    m.specular_exponent = Some(v);
                },
                NumberField::OpticalDensity => {
                    m.optical_density = Some(v);
                },
                NumberField::Dissolve => {
                    m.dissolve = Some(v);
                },
            }
            materials.push(m);
            proof {
                let after = spec_mtl_apply(
                    materials_view(old(materials)@),
                    MtlStatement::Number(field, v),
                )->Ok_0;
                assert(materials_view(materials@) =~= after);
            }
            Ok(())
        },
    }
}

fn set_color(materials: &mut Vec<Material>, field: ColorField, v: Vec3) -> (r: Result<(), Error>)
    ensures
        match spec_mtl_apply(materials_view(old(materials)@), MtlStatement::Color(field, v)) {
            Ok(after) => r is Ok && materials_view(final(materials)@) == after,
            Err(e) => r is Err && r->Err_0@ == e,
        },
{
    match materials.pop() {
        None => Err(Error::ParseIncomplete),
        Some(mut m) => {
            match field {
                ColorField::Ambient => {
                    m.ambient = Some(v);
                },
                ColorField::Diffuse => {
                    m.diffuse = Some(v);
                },
                ColorField::Specular => {
                    m.specular = Some(v);
                },
                ColorField::Emissive => {
                    m.emissive_coeficient = Some(v);
                },
                ColorField::Transmission => {
                    m.transmission_filter = Some(v);
                },
            }
            materials.push(m);
            proof {
                let after = spec_mtl_apply(
                    materials_view(old(materials)@),
                    MtlStatement::Color(field, v),
                )->Ok_0;
                assert(materials_view(materials@) =~= after);
            }
            Ok(())
        },
    }
}

fn set_illum(materials: &mut Vec<Material>, v: u8) -> (r: Result<(), Error>)
    ensures
        match spec_mtl_apply(materials_view(old(materials)@), MtlStatement::Illum(v)) {
            Ok(after) => r is Ok && materials_view(final(materials)@) == after,
            Err(e) => r is Err && r->Err_0@ == e,
        },
{
    match materials.pop() {
        None => Err(Error::ParseIncomplete),
        Some(mut m) => {
            m.illum = Some(v);
            materials.push(m);
            proof {
                let after = spec_mtl_apply(
                    materials_view(old(materials)@),
                    MtlStatement::Illum(v),
                )->Ok_0;
                assert(materials_view(materials@) =~= after);
            }
            Ok(())
        },
    }
}

fn set_map(materials: &mut Vec<Material>, field: MapField, name: &[u8]) -> (r: Result<(), Error>)
    ensures
        match spec_mtl_apply(materials_view(old(materials)@), MtlStatement::Texture(field, name@)) {
            Ok(after) => r is Ok && materials_view(final(materials)@) == after,
            Err(e) => r is Err && r->Err_0@ == e,
        },
{
    match text_of(name) {
        None => Err(Error::IoError),
        Some(text) => match materials.pop() {
            None => Err(Error::ParseIncomplete),
            Some(mut m) => {
                let owned = text.to_owned();
                match field {
                    MapField::Ambient => {
                        m.texture_maps.ambient = Some(owned);
                    },
                    MapField::Diffuse => {
                        m.texture_maps.diffuse = Some(owned);
                    },
                    MapField::SpecularColor => {
                        m.texture_maps.specular_color = Some(owned);
                    },
                    MapField::SpecularHighlight => {
                        m.texture_maps.specular_highlight = Some(owned);
                    },
                    MapField::Alpha => {
                        m.texture_maps.alpha = Some(owned);
                    },
                    MapField::Refl => {
                        m.texture_maps.refl = Some(owned);
                    },
                }
                materials.push(m);
                proof {
                    let after = spec_mtl_apply(
                        materials_view(old(materials)@),
                        MtlStatement::Texture(field, name@),
                    )->Ok_0;
                    assert(materials_view(materials@) =~= after);
                }
                Ok(())
            },
        },
    }
}

/// Reads the statement whose keyword `key` stands at `pos` into the
/// materials, and says where the next statement starts.
fn mtl_statement(tokens: &Vec<Token>, pos: usize, key: &[u8], materials: &mut Vec<Material>) -> (r:
    Result<usize, Error>)
    requires
        pos < tokens@.len(),
        word_at(lexemes(tokens@), pos as int) == Some(key@),
    ensures
        match spec_mtl_statement(lexemes(tokens@), pos as int) {
            Err(e) => r is Err && r->Err_0@ == e,
            Ok((statement, next)) => match spec_mtl_apply(
                materials_view(old(materials)@),
                statement,
            ) {
                Err(e) => r is Err && r->Err_0@ == e,
                Ok(after) => r == Ok::<usize, Error>(next as usize) && materials_view(
                    final(materials)@,
                ) == after,
            },
        },
{
    assert(tokens@.len() == tokens.len());
    if is_key1(key, 35) {
        return Ok(skip_line(tokens, pos));
    }
    if is_key6(key, 110, 101, 119, 109, 116, 108) {
        return match word_of(tokens, pos + 1) {
            Some(name) => {
                start_material(materials, name.as_slice())?;
                Ok(pos + 2)
            },
            None => Err(Error::ParseIncomplete),
        };
    }
    match number_field_of(key) {
        Some(field) => {
            let v = number_at(tokens, pos + 1)?;
            set_number(materials, field, v)?;
            return Ok(pos + 2);
        },
        None => {},
    }
    if is_key2(key, 84, 114) {
        let v = number_at(tokens, pos + 1)?;
        set_number(materials, NumberField::Dissolve, Fixed::one() - v)?;
        return Ok(pos + 2);
    }
    match color_field_of(key) {
        Some(field) => {
            let v = vec3_at(tokens, pos + 1)?;
            set_color(materials, field, v)?;
            return Ok(pos + 4);
        },
        None => {},
    }
    if is_key5(key, 105, 108, 108, 117, 109) {
        let v = small_at(tokens, pos + 1)?;
        set_illum(materials, v)?;
        return Ok(pos + 2);
    }
    match map_field_of(key) {
        Some(field) => {
            return match word_of(tokens, pos + 1) {
                Some(name) => {
                    set_map(materials, field, name.as_slice())?;
                    Ok(pos + 2)
                },
                None => Err(Error::ParseIncomplete),
            };
        },
        None => {},
    }
    let word = copy_range(key, 0, key.len());
    assert(word@ =~= key@);
    Err(Error::UnknownToken(word))
}

/// Reads the text of a material library.
pub fn parse_mtl(text: &[u8]) -> (r: Result<Mtllib, Error>)
    ensures
        match spec_parse_mtl(text@) {
            Ok(materials) => r is Ok && materials_view(r->Ok_0.materials@) == materials,
            Err(e) => r is Err && r->Err_0@ == e,
        },
{
    if text.len() == 0 {
        return Err(Error::EmptyContent);
    }
    let tokens = tokenize(text);
    let mut materials: Vec<Material> = Vec::new();
    assert(materials_view(materials@) =~= Seq::empty());
    let mut pos: usize = 0;
    while pos < tokens.len()
        invariant
            pos <= tokens@.len(),
            lexemes(tokens@) == lex(text@),
            spec_mtl_run(lex(text@), pos as int, materials_view(materials@)) == spec_mtl_run(
                lex(text@),
                0,
                Seq::empty(),
            ),
        decreases tokens@.len() - pos,
    {
        match word_of(&tokens, pos) {
            None => {
                pos += 1;
            },
            Some(key) => {
                proof {
                    lemma_mtl_statement_advances(lex(text@), pos as int);
                }
                pos = mtl_statement(&tokens, pos, key.as_slice(), &mut materials)?;
            },
        }
    }
    Ok(Mtllib { materials })
}

} // verus!
