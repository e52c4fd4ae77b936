//! The tokens of a scene file.
//!
//! A file is a run of lines; a line is a run of words that blanks keep
//! apart.  The tokens are the words of the first line, then, for every
//! further line, a mark of the new line and its words.  A line break at the
//! very end of the file starts no line.
use vstd::prelude::*;

verus! {

/// A token of a scene file.
#[derive(Debug)]
pub enum Token {
    /// A run of bytes without a blank.
    Word(Vec<u8>),
    /// The start of a further line.
    Nextline,
}

/// What a token stands for.
pub enum Lexeme {
    Word(Seq<u8>),
    Nextline,
}

impl View for Token {
    type V = Lexeme;

    open spec fn view(&self) -> Lexeme {
        match self {
            Token::Word(bytes) => Lexeme::Word(bytes@),
            Token::Nextline => Lexeme::Nextline,
        }
    }
}

/// What a list of tokens stands for.
pub open spec fn lexemes(tokens: Seq<Token>) -> Seq<Lexeme> {
    Seq::new(tokens.len(), |i: int| tokens[i]@)
}

/// Whether the byte is a blank: a space, a tabulator, a line feed, a
/// vertical tabulator, a form feed or a carriage return.
pub open spec fn is_space(b: u8) -> bool {
    b == 32 || (9 <= b <= 13)
}

/// The end of the word that starts at `i`: the place of the first blank
/// from `i` on, or the end of the text.
pub open spec fn word_end(text: Seq<u8>, i: int) -> int
    decreases text.len() - i,
{
    if i < 0 || i >= text.len() || is_space(text[i]) {
        i
    } else {
        word_end(text, i + 1)
    }
}

/// The end of a word is not before its start and not beyond the text, and
/// no blank stands in the word.
pub proof fn lemma_word_end(text: Seq<u8>, i: int)
    requires
        0 <= i <= text.len(),
    ensures
        i <= word_end(text, i) <= text.len(),
        i < text.len() && !is_space(text[i]) ==> i < word_end(text, i),
        forall|k: int| i <= k < word_end(text, i) ==> !is_space(#[trigger] text[k]),
        word_end(text, i) < text.len() ==> is_space(text[word_end(text, i)]),
    decreases text.len() - i,
{
    if i < text.len() && !is_space(text[i]) {
        lemma_word_end(text, i + 1);
    }
}

/// The tokens of the text from the place `i` on.
pub open spec fn lex_from(text: Seq<u8>, i: int) -> Seq<Lexeme>
    decreases text.len() - i,
{
    if i < 0 || i >= text.len() {
        Seq::empty()
    } else if text[i] == 10 {
        if i + 1 < text.len() {
            seq![Lexeme::Nextline] + lex_from(text, i + 1)
        } else {
            Seq::empty()
        }
    } else if is_space(text[i]) {
        lex_from(text, i + 1)
    } else {
        proof {
            lemma_word_end(text, i);
        }
        seq![Lexeme::Word(text.subrange(i, word_end(text, i)))] + lex_from(text, word_end(text, i))
    }
}

/// The tokens of the text.
pub open spec fn lex(text: Seq<u8>) -> Seq<Lexeme> {
    lex_from(text, 0)
}

fn blank(b: u8) -> (r: bool)
    ensures
        r == is_space(b),
{
    b == 32 || (9 <= b && b <= 13)
}

/// The bytes of `text` from `from` up to `to`.
pub fn copy_range(text: &[u8], from: usize, to: usize) -> (r: Vec<u8>)
    requires
        from <= to <= text@.len(),
    ensures
        r@ == text@.subrange(from as int, to as int),
{
    let mut out: Vec<u8> = Vec::new();
    let mut k: usize = from;
    while k < to
        invariant
            from <= k <= to <= text@.len(),
            out@ == text@.subrange(from as int, k as int),
        decreases to - k,
    {
        out.push(text[k]);
        k += 1;
        assert(out@ =~= text@.subrange(from as int, k as int));
    }
    assert(out@ =~= text@.subrange(from as int, to as int));
    out
}

/// Splits the text of a scene file into its tokens.
pub fn tokenize(text: &[u8]) -> (r: Vec<Token>)
    ensures
        lexemes(r@) == lex(text@),
{
    let mut out: Vec<Token> = Vec::new();
    let mut i: usize = 0;
    while i < text.len()
        invariant
            i <= text@.len(),
            lexemes(out@) + lex_from(text@, i as int) == lex(text@),
        decreases text@.len() - i,
    {
        let ghost before = lexemes(out@);
        let b = text[i];
        if b == 10 {
            if i + 1 < text.len() {
                out.push(Token::Nextline);
                assert(lexemes(out@) =~= before + seq![Lexeme::Nextline]);
                assert(before + (seq![Lexeme::Nextline] + lex_from(text@, i + 1)) =~= (before
                    + seq![Lexeme::Nextline]) + lex_from(text@, i + 1));
                i += 1;
            } else {
                assert(lex_from(text@, i as int) =~= Seq::<Lexeme>::empty());
                assert(lex_from(text@, i + 1) =~= Seq::<Lexeme>::empty());
                i += 1;
            }
        } else if blank(b) {
            i += 1;
        } else {
            let mut end: usize = i + 1;
            proof {
                lemma_word_end(text@, i as int);
            }
            while end < text.len() && !blank(text[end])
                invariant
                    i < end <= text@.len(),
                    !is_space(text@[i as int]),
                    word_end(text@, i as int) == word_end(text@, end as int),
                decreases text@.len() - end,
            {
                end += 1;
            }
            let word = copy_range(text, i, end);
            out.push(Token::Word(word));
            proof {
                let w = Lexeme::Word(text@.subrange(i as int, end as int));
                assert(word_end(text@, end as int) == end);
                assert(lexemes(out@) =~= before + seq![w]);
                assert(before + (seq![w] + lex_from(text@, end as int)) =~= (before + seq![w])
                    + lex_from(text@, end as int));
            }
            i = end;
        }
    }
    assert(lex_from(text@, i as int) =~= Seq::<Lexeme>::empty());
    assert(lexemes(out@) + Seq::<Lexeme>::empty() =~= lexemes(out@));
    out
}

} // verus!
