//! The lexer: schema text to a flat sequence of tokens.
//!
//! The text is read once, left to right. Blanks separate tokens, each
//! punctuation character is a token of its own, and every other run of
//! characters is a keyword or an identifier.

use crate::text::str_eq;
use std::str::Chars;
use vstd::pervasive::unreached;
use vstd::prelude::*;
use vstd::seq_lib::lemma_flatten_concat;
use vstd::std_specs::iter::IteratorSpec;

verus! {

/// What a token is.
#[derive(Debug, Clone, Copy, PartialEq, Eq, Structural)]
pub enum TokenType {
    Keyword,
    Identifier,
    Punctuation,
}

/// One lexical unit of a schema: its kind and its text.
#[derive(Debug, Clone, PartialEq, Eq)]
pub struct Token {
    pub ty: TokenType,
    pub value: String,
}

/// The mathematical value of a [`Token`].
pub struct TokenView {
    pub ty: TokenType,
    pub value: Seq<char>,
}

impl View for Token {
    type V = TokenView;

    open spec fn view(&self) -> TokenView {
        TokenView { ty: self.ty, value: self.value@ }
    }
}

impl DeepView for Token {
    type V = TokenView;

    open spec fn deep_view(&self) -> TokenView {
        self@
    }
}

/// Why a text cannot be made a token.
#[derive(Debug, Clone, Copy, PartialEq, Eq, Structural)]
pub enum LexError {
    /// The text is empty.
    EmptyToken,
    /// The text starts with a punctuation character and goes on after it.
    MalformedPunctuationToken,
}

/// Blanks end a token and are dropped.
pub open spec fn is_whitespace(c: char) -> bool {
    c == ' ' || c == '\t' || c == '\n'
}

/// The characters that are tokens by themselves.
pub open spec fn is_punctuation(c: char) -> bool {
    c == '{' || c == '}' || c == '.' || c == ',' || c == ':' || c == ';'
}

/// The reserved words.
pub open spec fn is_keyword(text: Seq<char>) -> bool {
    text == "type"@ || text == "streaming"@ || text == "sync"@
}

/// The kind of a finished token with the given text, or the reason why there
/// is no such token.
pub open spec fn classify(text: Seq<char>) -> Result<TokenType, LexError> {
    if text.len() == 0 {
        Err(LexError::EmptyToken)
    } else if is_keyword(text) {
        Ok(TokenType::Keyword)
    } else if is_punctuation(text[0]) {
        if text.len() == 1 {
            Ok(TokenType::Punctuation)
        } else {
            Err(LexError::MalformedPunctuationToken)
        }
    } else {
        Ok(TokenType::Identifier)
    }
}

/// The token that a run of ordinary characters becomes.
pub open spec fn word_token(text: Seq<char>) -> TokenView {
    TokenView {
        ty: if is_keyword(text) {
            TokenType::Keyword
        } else {
            TokenType::Identifier
        },
        value: text,
    }
}

/// The token that a punctuation character becomes.
pub open spec fn punctuation_token(c: char) -> TokenView {
    TokenView { ty: TokenType::Punctuation, value: seq![c] }
}

/// The tokens that pending text gives when it ends: none if it is empty.
pub open spec fn flush(pending: Seq<char>) -> Seq<TokenView> {
    if pending.len() == 0 {
        Seq::empty()
    } else {
        seq![word_token(pending)]
    }
}

/// The tokens of `text` when `pending` holds the ordinary characters read
/// since the last separator.
pub open spec fn scan(text: Seq<char>, pending: Seq<char>) -> Seq<TokenView>
    decreases text.len(),
{
    if text.len() == 0 {
        flush(pending)
    } else if is_whitespace(text[0]) {
        flush(pending) + scan(text.drop_first(), Seq::empty())
    } else if is_punctuation(text[0]) {
        flush(pending) + seq![punctuation_token(text[0])] + scan(text.drop_first(), Seq::empty())
    } else {
        scan(text.drop_first(), pending.push(text[0]))
    }
}

/// The tokens of a schema text.
pub open spec fn tokenize_spec(text: Seq<char>) -> Seq<TokenView> {
    scan(text, Seq::empty())
}

/// Every token carries the kind that its own text classifies as.
pub open spec fn well_classified(tokens: Seq<TokenView>) -> bool {
    forall|i: int|
        0 <= i < tokens.len() ==> classify(#[trigger] tokens[i].value) == Ok::<
            TokenType,
            LexError,
        >(tokens[i].ty)
}

/// No reserved word is a lone punctuation character, and none starts with one.
pub proof fn lemma_keywords_are_words(text: Seq<char>)
    requires
        is_keyword(text),
    ensures
        text.len() > 1,
        !is_punctuation(text[0]),
{
    reveal_strlit("type");
    reveal_strlit("streaming");
    reveal_strlit("sync");
}

/// Neither a blank nor a punctuation character.
pub open spec fn is_ordinary(c: char) -> bool {
    !is_whitespace(c) && !is_punctuation(c)
}

/// Ordinary characters and nothing else.
pub open spec fn all_ordinary(text: Seq<char>) -> bool {
    forall|i: int| 0 <= i < text.len() ==> is_ordinary(#[trigger] text[i])
}

/// What the lexer makes: one punctuation character, or a run of ordinary
/// characters, which is a keyword exactly when it is a reserved word.
pub open spec fn is_lexeme(token: TokenView) -> bool {
    match token.ty {
        TokenType::Punctuation => token.value.len() == 1 && is_punctuation(token.value[0]),
        TokenType::Keyword => token.value.len() > 0 && all_ordinary(token.value) && is_keyword(
            token.value,
        ),
        TokenType::Identifier => token.value.len() > 0 && all_ordinary(token.value) && !is_keyword(
            token.value,
        ),
    }
}

/// Every token is a lexeme.
pub open spec fn all_lexemes(tokens: Seq<TokenView>) -> bool {
    forall|i: int| 0 <= i < tokens.len() ==> is_lexeme(#[trigger] tokens[i])
}

/// The characters of the tokens, in order.
pub open spec fn spelling(tokens: Seq<TokenView>) -> Seq<char> {
    tokens.map_values(|token: TokenView| token.value).flatten()
}

/// The text without its blanks.
pub open spec fn without_blanks(text: Seq<char>) -> Seq<char> {
    text.filter(|c: char| !is_whitespace(c))
}

/// A lexeme carries the kind that its text classifies as.
pub proof fn lemma_lexeme_is_classified(token: TokenView)
    requires
        is_lexeme(token),
    ensures
        classify(token.value) == Ok::<TokenType, LexError>(token.ty),
{
    if is_keyword(token.value) {
        lemma_keywords_are_words(token.value);
    }
}

/// Tokens one after the other spell what each of them spells.
proof fn lemma_spelling_concat(front: Seq<TokenView>, back: Seq<TokenView>)
    ensures
        spelling(front + back) == spelling(front) + spelling(back),
{
    let text = |token: TokenView| token.value;
    assert((front + back).map_values(text) =~= front.map_values(text) + back.map_values(text));
    lemma_flatten_concat(front.map_values(text), back.map_values(text));
}

/// One token spells its own text.
proof fn lemma_spelling_one(token: TokenView)
    ensures
        spelling(seq![token]) == token.value,
{
    let text = |token: TokenView| token.value;
    assert(seq![token].map_values(text) =~= seq![token.value]);
    seq![token.value].lemma_flatten_one_element();
}

/// The text without its blanks is its first character, unless that is a
/// blank, and then the rest without its blanks.
proof fn lemma_without_blanks_first(text: Seq<char>)
    requires
        text.len() > 0,
    ensures
        without_blanks(text) == if is_whitespace(text[0]) {
            without_blanks(text.drop_first())
        } else {
            seq![text[0]] + without_blanks(text.drop_first())
        },
{
    let keep = |c: char| !is_whitespace(c);
    let head = seq![text[0]];
    assert(text =~= head + text.drop_first());
    Seq::filter_distributes_over_add(head, text.drop_first(), keep);
    reveal_with_fuel(Seq::filter, 2);
    assert(head.drop_last() =~= Seq::<char>::empty());
    assert(head.last() == text[0]);
    assert(head.filter(keep) =~= if is_whitespace(text[0]) {
        Seq::<char>::empty()
    } else {
        head
    });
}

/// Scanning makes lexemes, and they spell the pending characters and then
/// the text without its blanks.
pub proof fn lemma_scan(text: Seq<char>, pending: Seq<char>)
    requires
        all_ordinary(pending),
    ensures
        all_lexemes(scan(text, pending)),
        spelling(scan(text, pending)) == pending + without_blanks(text),
    decreases text.len(),
{
    let word = flush(pending);
    assert(all_lexemes(word) && spelling(word) == pending) by {
        if pending.len() == 0 {
            assert(word.map_values(|token: TokenView| token.value) =~= Seq::empty());
            assert(spelling(word) =~= pending);
        } else {
            lemma_spelling_one(word_token(pending));
        }
    }
    if text.len() == 0 {
        reveal_with_fuel(Seq::filter, 1);
        assert(pending + without_blanks(text) =~= pending);
    } else {
        let c = text[0];
        let rest = text.drop_first();
        lemma_without_blanks_first(text);
        if is_whitespace(c) {
            lemma_scan(rest, Seq::empty());
            lemma_spelling_concat(word, scan(rest, Seq::empty()));
            assert(pending + (Seq::<char>::empty() + without_blanks(rest)) =~= pending
                + without_blanks(text));
        } else if is_punctuation(c) {
            let mark = seq![punctuation_token(c)];
            lemma_scan(rest, Seq::empty());
            lemma_spelling_one(punctuation_token(c));
            lemma_spelling_concat(word, mark);
            lemma_spelling_concat(word + mark, scan(rest, Seq::empty()));
            assert(pending + seq![c] + (Seq::<char>::empty() + without_blanks(rest)) =~= pending
                + without_blanks(text));
        } else {
            lemma_scan(rest, pending.push(c));
            assert(pending.push(c) + without_blanks(rest) =~= pending + without_blanks(text));
        }
    }
}

/// The tokens of a text are lexemes, each of the kind that its text
/// classifies as, and together they spell the text without its blanks.
pub proof fn lemma_tokens_spell_text(text: Seq<char>)
    ensures
        all_lexemes(tokenize_spec(text)),
        well_classified(tokenize_spec(text)),
        spelling(tokenize_spec(text)) == without_blanks(text),
{
    let tokens = tokenize_spec(text);
    lemma_scan(text, Seq::empty());
    assert(Seq::<char>::empty() + without_blanks(text) =~= without_blanks(text));
    assert forall|i: int| 0 <= i < tokens.len() implies classify(#[trigger] tokens[i].value)
        == Ok::<TokenType, LexError>(tokens[i].ty) by {
        lemma_lexeme_is_classified(tokens[i]);
    }
}

/// Whether `c` is a blank.
pub fn is_whitespace_char(c: char) -> (yes: bool)
    ensures
        yes == is_whitespace(c),
{
    c == ' ' || c == '\t' || c == '\n'
}

/// Whether `c` is a punctuation character.
pub fn is_punctuation_char(c: char) -> (yes: bool)
    ensures
        yes == is_punctuation(c),
{
    c == '{' || c == '}' || c == '.' || c == ',' || c == ':' || c == ';'
}

/// Whether `text` is a reserved word.
pub fn is_keyword_text(text: &str) -> (yes: bool)
    ensures
        yes == is_keyword(text@),
{
    str_eq(text, "type") || str_eq(text, "streaming") || str_eq(text, "sync")
}

/// Text that the lexer has read and not yet classified.
#[derive(Debug, Clone, PartialEq, Eq)]
pub struct PendingToken {
    pub value: String,
}

impl View for PendingToken {
    type V = Seq<char>;

    open spec fn view(&self) -> Seq<char> {
        self.value@
    }
}

impl PendingToken {
    /// Starts with no text.
    pub fn new() -> (pending: PendingToken)
        ensures
            pending@ == Seq::<char>::empty(),
    {
        PendingToken { value: String::new() }
    }

    /// Appends one character.
    pub fn push(&mut self, c: char)
        ensures
            final(self)@ == old(self)@.push(c),
    {
        self.value.push(c);
    }

    /// Whether no character has been read.
    pub fn is_empty(&self) -> (empty: bool)
        ensures
            empty == (self@.len() == 0),
    {
        self.value.as_str().is_empty()
    }

    /// Turns the text into a token of the kind that [`classify`] gives it.
    pub fn finish(self) -> (done: Result<Token, LexError>)
        ensures
            match classify(self@) {
                Ok(ty) => done is Ok && done->Ok_0@ == (TokenView { ty, value: self@ }),
                Err(e) => done == Err::<Token, LexError>(e),
            },
    {
        let mut chars: Chars = self.value.as_str().chars();
        let first = chars.next();
        let second = chars.next();
        match first {
            None => Err(LexError::EmptyToken),
            Some(c) => {
                assert(self@[0] == c);
                if is_keyword_text(self.value.as_str()) {
                    Ok(Token { ty: TokenType::Keyword, value: self.value })
                } else if is_punctuation_char(c) {
                    match second {
                        None => {
                            assert(self@.len() == 1);
                            Ok(Token { ty: TokenType::Punctuation, value: self.value })
                        },
                        Some(_) => {
                            assert(self@.len() > 1);
                            Err(LexError::MalformedPunctuationToken)
                        },
                    }
                } else {
                    Ok(Token { ty: TokenType::Identifier, value: self.value })
                }
            },
        }
    }
}

/// Finishes `pending` and appends the token to `tokens`.
fn emit(tokens: &mut Vec<Token>, pending: PendingToken)
    requires
        classify(pending@) is Ok,
    ensures
        final(tokens).deep_view() == old(tokens).deep_view().push(
            TokenView { ty: classify(pending@)->Ok_0, value: pending@ },
        ),
{
    let ghost before = tokens.deep_view();
    match pending.finish() {
        Ok(token) => {
            tokens.push(token);
            assert(tokens.deep_view() =~= before.push(token@));
        },
        Err(_) => unreached(),
    }
}

/// Splits a schema text into its tokens.
pub fn tokenize(schema: &str) -> (tokens: Vec<Token>)
    ensures
        tokens.deep_view() == tokenize_spec(schema@),
        all_lexemes(tokens.deep_view()),
        well_classified(tokens.deep_view()),
        spelling(tokens.deep_view()) == without_blanks(schema@),
{
    proof {
        lemma_tokens_spell_text(schema@);
    }
    let mut tokens: Vec<Token> = Vec::new();
    let mut current = PendingToken::new();
    let mut chars: Chars = schema.chars();
    assert(tokens.deep_view() + scan(schema@, current@) =~= tokenize_spec(schema@));
    loop
        invariant_except_break
            tokenize_spec(schema@) == tokens.deep_view() + scan(chars.remaining(), current@),
        invariant
            current@.len() > 0 ==> !is_punctuation(current@[0]),
            chars.decrease() is Some,
        ensures
            tokenize_spec(schema@) == tokens.deep_view() + flush(current@),
        decreases chars.decrease()->0,
    {
        let ghost before = tokens.deep_view();
        let ghost word = current@;
        let ghost rest = chars.remaining();
        match chars.next() {
            None => {
                break ;
            },
            Some(c) => {
                let ghost tail = chars.remaining();
                assert(rest.len() > 0 && rest[0] == c && tail == rest.drop_first());
                if is_whitespace_char(c) {
                    if !current.is_empty() {
                        emit(&mut tokens, current);
                        current = PendingToken::new();
                    }
                    assert(current@ =~= Seq::<char>::empty());
                    assert(before + (flush(word) + scan(tail, Seq::empty())) =~= tokens.deep_view()
                        + scan(tail, current@));
                } else if is_punctuation_char(c) {
                    if !current.is_empty() {
                        emit(&mut tokens, current);
                        current = PendingToken::new();
                    }
                    current.push(c);
                    assert(current@ =~= seq![c]);
                    proof {
                        if is_keyword(current@) {
                            lemma_keywords_are_words(current@);
                        }
                    }
                    emit(&mut tokens, current);
                    current = PendingToken::new();
                    assert(before + (flush(word) + seq![punctuation_token(c)] + scan(
                        tail,
                        Seq::empty(),
                    )) =~= tokens.deep_view() + scan(tail, current@));
                } else {
                    current.push(c);
                }
            },
        }
    }
    if !current.is_empty() {
        emit(&mut tokens, current);
    }
    tokens
}

} // verus!
