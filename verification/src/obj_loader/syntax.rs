//! What the statements of a scene file are made of: words at a place of the
//! token list, numbers, and the corners of a face.
use crate::fixed::Fixed;
use crate::math::vector::{Vec2, Vec3};
use crate::obj_loader::lexer::{copy_range, Lexeme, Token};
use crate::obj_loader::number::{parse_decimal, parse_unsigned, spec_decimal, spec_unsigned};
use crate::obj_loader::Vertex;
use vstd::prelude::*;

verus! {

/// Why a scene file could not be read.
#[derive(Debug)]
pub enum Error {
    /// The file could not be read, or a name in it is no text.
    IoError,
    /// A word that should be a number is none.
    CantCvt2Num,
    /// A statement starts with a word that is no keyword.
    UnknownToken(Vec<u8>),
    /// A statement gives more numbers than it may.  The readers of the
    /// library take what follows a statement for the next keyword, and do
    /// not raise this.
    ExccedComponent,
    /// The file holds nothing.
    EmptyContent,
    /// A statement ends before it is complete, or comes before the model
    /// or the material that it belongs to.
    ParseIncomplete,
    /// A corner of a face is not of the form `v/vt/vn`.
    InvalidSyntax,
    /// A material library that the scene names cannot be looked for,
    /// because the scene file has no directory.  For the host to raise.
    PathNotFount,
}

/// What an error stands for.
pub enum ErrorView {
    IoError,
    CantCvt2Num,
    UnknownToken(Seq<u8>),
    ExccedComponent,
    EmptyContent,
    ParseIncomplete,
    InvalidSyntax,
    PathNotFount,
}

impl View for Error {
    type V = ErrorView;

    open spec fn view(&self) -> ErrorView {
        match self {
            Error::IoError => ErrorView::IoError,
            Error::CantCvt2Num => ErrorView::CantCvt2Num,
            Error::UnknownToken(word) => ErrorView::UnknownToken(word@),
            Error::ExccedComponent => ErrorView::ExccedComponent,
            Error::EmptyContent => ErrorView::EmptyContent,
            Error::ParseIncomplete => ErrorView::ParseIncomplete,
            Error::InvalidSyntax => ErrorView::InvalidSyntax,
            Error::PathNotFount => ErrorView::PathNotFount,
        }
    }
}

/// The word at the place `pos`, if a word stands there.
pub open spec fn word_at(lex: Seq<Lexeme>, pos: int) -> Option<Seq<u8>> {
    if 0 <= pos < lex.len() {
        match lex[pos] {
            Lexeme::Word(w) => Some(w),
            Lexeme::Nextline => None,
        }
    } else {
        None
    }
}

/// The number at the place `pos`: a statement that ends before it is
/// incomplete, and a word that is no number cannot be converted.
pub open spec fn spec_number_at(lex: Seq<Lexeme>, pos: int) -> Result<Fixed, ErrorView> {
    match word_at(lex, pos) {
        None => Err(ErrorView::ParseIncomplete),
        Some(w) => match spec_decimal(w) {
            Some(v) => Ok(v),
            None => Err(ErrorView::CantCvt2Num),
        },
    }
}

/// The two numbers from the place `pos` on.
pub open spec fn spec_vec2_at(lex: Seq<Lexeme>, pos: int) -> Result<Vec2, ErrorView> {
    match spec_number_at(lex, pos) {
        Err(e) => Err(e),
        Ok(x) => match spec_number_at(lex, pos + 1) {
            Err(e) => Err(e),
            Ok(y) => Ok(Vec2 { x, y }),
        },
    }
}

/// The three numbers from the place `pos` on.
pub open spec fn spec_vec3_at(lex: Seq<Lexeme>, pos: int) -> Result<Vec3, ErrorView> {
    match spec_number_at(lex, pos) {
        Err(e) => Err(e),
        Ok(x) => match spec_number_at(lex, pos + 1) {
            Err(e) => Err(e),
            Ok(y) => match spec_number_at(lex, pos + 2) {
                Err(e) => Err(e),
                Ok(z) => Ok(Vec3 { x, y, z }),
            },
        },
    }
}

/// The small number at the place `pos`: an integer up to 255.
pub open spec fn spec_small_at(lex: Seq<Lexeme>, pos: int) -> Result<u8, ErrorView> {
    match word_at(lex, pos) {
        None => Err(ErrorView::ParseIncomplete),
        Some(w) => match spec_unsigned(w, 255) {
            Some(v) => Ok(v as u8),
            None => Err(ErrorView::CantCvt2Num),
        },
    }
}

/// The place of the first slash from `i` on, or the end of the word.
pub open spec fn slash_place(s: Seq<u8>, i: int) -> int
    decreases s.len() - i,
{
    if i < 0 || i >= s.len() || s[i] == 47 {
        i
    } else {
        slash_place(s, i + 1)
    }
}

/// An index of a corner, which the file counts from one: the word must be
/// an integer from one on.
pub open spec fn spec_index(w: Seq<u8>) -> Result<u32, ErrorView> {
    match spec_unsigned(w, 0xffff_ffff) {
        Some(v) => if v >= 1 {
            Ok((v - 1) as u32)
        } else {
            Err(ErrorView::CantCvt2Num)
        },
        None => Err(ErrorView::CantCvt2Num),
    }
}

/// An index that may be left out.
pub open spec fn spec_optional_index(w: Seq<u8>) -> Result<Option<u32>, ErrorView> {
    if w.len() == 0 {
        Ok(None)
    } else {
        match spec_index(w) {
            Ok(v) => Ok(Some(v)),
            Err(e) => Err(e),
        }
    }
}

/// The corner that a word of a face writes: three parts that two slashes
/// keep apart, the point, the texture coordinate and the normal, of which
/// the last two may be empty.
pub open spec fn spec_corner_of(w: Seq<u8>) -> Result<Vertex, ErrorView> {
    let first = slash_place(w, 0);
    let rest = w.skip(first + 1);
    let second = slash_place(rest, 0);
    let last = rest.skip(second + 1);
    if first >= w.len() || second >= rest.len() || slash_place(last, 0) < last.len() {
        Err(ErrorView::InvalidSyntax)
    } else {
        match spec_index(w.take(first)) {
            Err(e) => Err(e),
            Ok(vertex) => match spec_optional_index(rest.take(second)) {
                Err(e) => Err(e),
                Ok(texcoord) => match spec_optional_index(last) {
                    Err(e) => Err(e),
                    Ok(normal) => Ok(Vertex { vertex, normal, texcoord }),
                },
            },
        }
    }
}

/// The place of the first token from `pos` on that is no word, or the end.
pub open spec fn words_end(lex: Seq<Lexeme>, pos: int) -> int
    decreases lex.len() - pos,
{
    if word_at(lex, pos) is None {
        pos
    } else {
        words_end(lex, pos + 1)
    }
}

/// The corners that the words from `pos` up to `end` write.
pub open spec fn spec_corners(lex: Seq<Lexeme>, pos: int, end: int) -> Result<
    Seq<Vertex>,
    ErrorView,
>
    decreases end - pos,
{
    if pos >= end {
        Ok(Seq::empty())
    } else {
        match spec_corners(lex, pos, end - 1) {
            Err(e) => Err(e),
            Ok(before) => match word_at(lex, end - 1) {
                None => Err(ErrorView::InvalidSyntax),
                Some(w) => match spec_corner_of(w) {
                    Err(e) => Err(e),
                    Ok(corner) => Ok(before.push(corner)),
                },
            },
        }
    }
}

/// The word at the place `pos`.
pub fn word_of(tokens: &Vec<Token>, pos: usize) -> (r: Option<&Vec<u8>>)
    ensures
        r is Some <==> word_at(crate::obj_loader::lexer::lexemes(tokens@), pos as int) is Some,
        r is Some ==> r->Some_0@ == word_at(
            crate::obj_loader::lexer::lexemes(tokens@),
            pos as int,
        )->Some_0,
{
    if pos < tokens.len() {
        match &tokens[pos] {
            Token::Word(w) => Some(w),
            Token::Nextline => None,
        }
    } else {
        None
    }
}

/// Reads the number at the place `pos`.
pub fn number_at(tokens: &Vec<Token>, pos: usize) -> (r: Result<Fixed, Error>)
    ensures
        match spec_number_at(crate::obj_loader::lexer::lexemes(tokens@), pos as int) {
            Ok(v) => r == Ok::<Fixed, Error>(v),
            Err(e) => r is Err && r->Err_0@ == e,
        },
{
    match word_of(tokens, pos) {
        None => Err(Error::ParseIncomplete),
        Some(w) => match parse_decimal(w.as_slice()) {
            Some(v) => Ok(v),
            None => Err(Error::CantCvt2Num),
        },
    }
}

/// Reads the two numbers from the place `pos` on.
pub fn vec2_at(tokens: &Vec<Token>, pos: usize) -> (r: Result<Vec2, Error>)
    ensures
        match spec_vec2_at(crate::obj_loader::lexer::lexemes(tokens@), pos as int) {
            Ok(v) => r == Ok::<Vec2, Error>(v),
            Err(e) => r is Err && r->Err_0@ == e,
        },
{
    let x = number_at(tokens, pos)?;
    assert(pos < crate::obj_loader::lexer::lexemes(tokens@).len() == tokens.len());
    let y = number_at(tokens, pos + 1)?;
    Ok(Vec2 { x, y })
}

/// Reads the three numbers from the place `pos` on.
pub fn vec3_at(tokens: &Vec<Token>, pos: usize) -> (r: Result<Vec3, Error>)
    ensures
        match spec_vec3_at(crate::obj_loader::lexer::lexemes(tokens@), pos as int) {
            Ok(v) => r == Ok::<Vec3, Error>(v),
            Err(e) => r is Err && r->Err_0@ == e,
        },
{
    let x = number_at(tokens, pos)?;
    assert(pos < crate::obj_loader::lexer::lexemes(tokens@).len() == tokens.len());
    let y = number_at(tokens, pos + 1)?;
    assert(pos + 1 < crate::obj_loader::lexer::lexemes(tokens@).len());
    let z = number_at(tokens, pos + 2)?;
    Ok(Vec3 { x, y, z })
}

/// Reads the small number at the place `pos`.
pub fn small_at(tokens: &Vec<Token>, pos: usize) -> (r: Result<u8, Error>)
    ensures
        match spec_small_at(crate::obj_loader::lexer::lexemes(tokens@), pos as int) {
            Ok(v) => r == Ok::<u8, Error>(v),
            Err(e) => r is Err && r->Err_0@ == e,
        },
{
    match word_of(tokens, pos) {
        None => Err(Error::ParseIncomplete),
        Some(w) => match parse_unsigned(w.as_slice(), 255) {
            Some(v) => Ok(v as u8),
            None => Err(Error::CantCvt2Num),
        },
    }
}

fn find_slash(s: &[u8]) -> (r: usize)
    ensures
        r == slash_place(s@, 0),
        r <= s@.len(),
{
    let mut k: usize = 0;
    while k < s.len() && s[k] != 47
        invariant
            k <= s@.len(),
            slash_place(s@, 0) == slash_place(s@, k as int),
        decreases s@.len() - k,
    {
        k += 1;
    }
    k
}

fn index_of(w: &[u8]) -> (r: Result<u32, Error>)
    ensures
        match spec_index(w@) {
            Ok(v) => r == Ok::<u32, Error>(v),
            Err(e) => r is Err && r->Err_0@ == e,
        },
{
    match parse_unsigned(w, 0xffff_ffff) {
        Some(v) => if v >= 1 {
            Ok(v - 1)
        } else {
            Err(Error::CantCvt2Num)
        },
        None => Err(Error::CantCvt2Num),
    }
}

fn optional_index_of(w: &[u8]) -> (r: Result<Option<u32>, Error>)
    ensures
        match spec_optional_index(w@) {
            Ok(v) => r == Ok::<Option<u32>, Error>(v),
            Err(e) => r is Err && r->Err_0@ == e,
        },
{
    if w.len() == 0 {
        Ok(None)
    } else {
        match index_of(w) {
            Ok(v) => Ok(Some(v)),
            Err(e) => Err(e),
        }
    }
}

/// Reads a corner of a face.
pub fn corner_of(w: &[u8]) -> (r: Result<Vertex, Error>)
    ensures
        match spec_corner_of(w@) {
            Ok(v) => r == Ok::<Vertex, Error>(v),
            Err(e) => r is Err && r->Err_0@ == e,
        },
{
    let first = find_slash(w);
    if first >= w.len() {
        return Err(Error::InvalidSyntax);
    }
    let rest = copy_range(w, first + 1, w.len());
    assert(rest@ =~= w@.skip(first + 1));
    let second = find_slash(rest.as_slice());
    if second >= rest.len() {
        return Err(Error::InvalidSyntax);
    }
    let last = copy_range(rest.as_slice(), second + 1, rest.len());
    assert(last@ =~= rest@.skip(second + 1));
    if find_slash(last.as_slice()) < last.len() {
        return Err(Error::InvalidSyntax);
    }
    let head = copy_range(w, 0, first);
    assert(head@ =~= w@.take(first as int));
    let middle = copy_range(rest.as_slice(), 0, second);
    assert(middle@ =~= rest@.take(second as int));
    let vertex = index_of(head.as_slice())?;
    let texcoord = optional_index_of(middle.as_slice())?;
    let normal = optional_index_of(last.as_slice())?;
    Ok(Vertex { vertex, normal, texcoord })
}

/// Reads the corners of a face from the place `pos` on, up to the first
/// token that is no word, and says where that token stands.
pub fn corners_from(tokens: &Vec<Token>, pos: usize) -> (r: Result<(Vec<Vertex>, usize), Error>)
    requires
        pos <= tokens@.len(),
    ensures
        ({
            let lex = crate::obj_loader::lexer::lexemes(tokens@);
            let end = words_end(lex, pos as int);
            match spec_corners(lex, pos as int, end) {
                Ok(corners) => r is Ok && r->Ok_0.0@ == corners && r->Ok_0.1 == end,
                Err(e) => r is Err && r->Err_0@ == e,
            }
        }),
{
    let ghost lex = crate::obj_loader::lexer::lexemes(tokens@);
    let mut corners: Vec<Vertex> = Vec::new();
    let mut at: usize = pos;
    loop
        invariant
            pos <= at <= tokens@.len() == tokens.len(),
            lex == crate::obj_loader::lexer::lexemes(tokens@),
            words_end(lex, pos as int) == words_end(lex, at as int),
            spec_corners(lex, pos as int, at as int) == Ok::<Seq<Vertex>, ErrorView>(corners@),
            forall|k: int| pos <= k < at ==> word_at(lex, k) is Some,
        decreases tokens@.len() - at,
    {
        match word_of(tokens, at) {
            None => {
                return Ok((corners, at));
            },
            Some(w) => {
                assert(at < lex.len() == tokens@.len());
                match corner_of(w.as_slice()) {
                    Ok(corner) => {
                        corners.push(corner);
                    },
                    Err(e) => {
                        proof {
                            lemma_words_end(lex, at as int + 1);
                            assert(spec_corners(lex, pos as int, at as int + 1) is Err);
                            lemma_corners_fail_early(
                                lex,
                                pos as int,
                                at as int + 1,
                                words_end(lex, pos as int),
                            );
                        }
                        return Err(e);
                    },
                }
                at += 1;
            },
        }
    }
}

/// Where the corners up to some place cannot be read, the corners up to a
/// later place cannot be read for the same reason.
pub proof fn lemma_corners_fail_early(lex: Seq<Lexeme>, pos: int, mid: int, end: int)
    requires
        pos <= mid <= end,
        spec_corners(lex, pos, mid) is Err,
    ensures
        spec_corners(lex, pos, end) == spec_corners(lex, pos, mid),
    decreases end - mid,
{
    if mid < end {
        lemma_corners_fail_early(lex, pos, mid, end - 1);
    }
}

/// The words end at or after the place where the search for their end
/// starts, and up to their end stand words only.
pub proof fn lemma_words_end(lex: Seq<Lexeme>, pos: int)
    requires
        0 <= pos <= lex.len(),
    ensures
        pos <= words_end(lex, pos) <= lex.len(),
        word_at(lex, words_end(lex, pos)) is None,
        forall|k: int| pos <= k < words_end(lex, pos) ==> word_at(lex, k) is Some,
    decreases lex.len() - pos,
{
    if word_at(lex, pos) is Some {
        lemma_words_end(lex, pos + 1);
    }
}

} // verus!
