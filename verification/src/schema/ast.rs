//! The parser: tokens to a syntax tree.
//!
//! The grammar is one state machine. [`Cursor`] says where the machine stands
//! and holds what it has read of the type definition that is open there;
//! [`step_spec`] is its transition function and [`parse_spec`] its run over a
//! whole input.

use crate::schema::tokenize::{Token, TokenType, TokenView};
use crate::text::str_eq;
use vstd::prelude::*;

verus! {

/// The access mode of a field.
#[derive(Debug, Clone, Copy, PartialEq, Eq, Structural)]
pub enum ASTTypeKind {
    Normal,
    Streaming,
    Sync,
}

/// The type of a field as written: its mode and the name of its type.
#[derive(Debug, Clone, PartialEq, Eq)]
pub struct ASTType {
    pub kind: ASTTypeKind,
    pub name: String,
}

/// The mathematical value of a [`ASTType`].
pub struct ASTTypeView {
    pub kind: ASTTypeKind,
    pub name: Seq<char>,
}

impl View for ASTType {
    type V = ASTTypeView;

    open spec fn view(&self) -> ASTTypeView {
        ASTTypeView { kind: self.kind, name: self.name@ }
    }
}

/// One field of a type definition.
#[derive(Debug, Clone, PartialEq, Eq)]
pub struct ASTField {
    pub name: String,
    pub ty: ASTType,
}

/// The mathematical value of a [`ASTField`].
pub struct ASTFieldView {
    pub name: Seq<char>,
    pub ty: ASTTypeView,
}

impl View for ASTField {
    type V = ASTFieldView;

    open spec fn view(&self) -> ASTFieldView {
        ASTFieldView { name: self.name@, ty: self.ty@ }
    }
}

impl DeepView for ASTField {
    type V = ASTFieldView;

    open spec fn deep_view(&self) -> ASTFieldView {
        self@
    }
}

/// A type definition: its name and its fields in source order.
#[derive(Debug, Clone, PartialEq, Eq)]
pub struct ASTTypeDef {
    pub name: String,
    pub fields: Vec<ASTField>,
}

/// The mathematical value of a [`ASTTypeDef`].
pub struct ASTTypeDefView {
    pub name: Seq<char>,
    pub fields: Seq<ASTFieldView>,
}

impl View for ASTTypeDef {
    type V = ASTTypeDefView;

    open spec fn view(&self) -> ASTTypeDefView {
        ASTTypeDefView { name: self.name@, fields: self.fields.deep_view() }
    }
}

/// A top-level item of a schema.
#[non_exhaustive]
#[derive(Debug, Clone, PartialEq, Eq)]
pub enum ASTRootBlock {
    TypeDef(ASTTypeDef),
}

/// The mathematical value of a [`ASTRootBlock`].
pub enum ASTRootBlockView {
    TypeDef(ASTTypeDefView),
}

impl View for ASTRootBlock {
    type V = ASTRootBlockView;

    open spec fn view(&self) -> ASTRootBlockView {
        match self {
            ASTRootBlock::TypeDef(def) => ASTRootBlockView::TypeDef(def@),
        }
    }
}

impl DeepView for ASTRootBlock {
    type V = ASTRootBlockView;

    open spec fn deep_view(&self) -> ASTRootBlockView {
        self@
    }
}

/// A parsed schema: its top-level items in source order.
#[derive(Debug, Clone, PartialEq, Eq)]
pub struct ASTRoot {
    pub blocks: Vec<ASTRootBlock>,
}

/// The mathematical value of a [`ASTRoot`].
pub struct ASTRootView {
    pub blocks: Seq<ASTRootBlockView>,
}

impl View for ASTRoot {
    type V = ASTRootView;

    open spec fn view(&self) -> ASTRootView {
        ASTRootView { blocks: self.blocks.deep_view() }
    }
}

/// The states of the parser.
#[derive(Debug, Clone, Copy, PartialEq, Eq, Structural)]
pub enum ParserState {
    /// Between type definitions.
    Root,
    /// After `type`.
    ExpectTypeName,
    /// After the name of a type.
    ExpectBlockOpen,
    /// Inside the braces, where a field may start.
    InBlock,
    /// After the name of a field.
    ExpectFieldColon,
    /// After the colon of a field.
    ExpectFieldTypeOrMode,
    /// After the mode of a field.
    ExpectFieldTypeName,
    /// After the type name of a field.
    ExpectFieldComma,
}

/// Why a token sequence is no schema.
#[derive(Debug, Clone, PartialEq, Eq)]
pub enum ParseError {
    /// The token cannot follow what was read before it.
    UnexpectedToken(Token, ParserState),
    /// The input ends inside a type definition.
    UnexpectedEndOfInput(ParserState),
}

/// The mathematical value of a [`ParseError`].
pub enum ParseErrorView {
    UnexpectedToken(TokenView, ParserState),
    UnexpectedEndOfInput(ParserState),
}

impl View for ParseError {
    type V = ParseErrorView;

    open spec fn view(&self) -> ParseErrorView {
        match self {
            ParseError::UnexpectedToken(token, state) => ParseErrorView::UnexpectedToken(
                token@,
                *state,
            ),
            ParseError::UnexpectedEndOfInput(state) => ParseErrorView::UnexpectedEndOfInput(*state),
        }
    }
}

/// Where the parser stands, with the part of the open type definition that it
/// has read. A field is added to the definition once its type name is read.
#[derive(Debug, Clone, PartialEq, Eq)]
pub enum Cursor {
    Root,
    ExpectTypeName,
    ExpectBlockOpen(ASTTypeDef),
    InBlock(ASTTypeDef),
    /// The definition and the name of the open field.
    ExpectFieldColon(ASTTypeDef, String),
    /// The definition and the name of the open field.
    ExpectFieldTypeOrMode(ASTTypeDef, String),
    /// The definition, the name of the open field and its mode.
    ExpectFieldTypeName(ASTTypeDef, String, ASTTypeKind),
    ExpectFieldComma(ASTTypeDef),
}

/// The mathematical value of a [`Cursor`].
pub enum CursorView {
    Root,
    ExpectTypeName,
    ExpectBlockOpen(ASTTypeDefView),
    InBlock(ASTTypeDefView),
    ExpectFieldColon(ASTTypeDefView, Seq<char>),
    ExpectFieldTypeOrMode(ASTTypeDefView, Seq<char>),
    ExpectFieldTypeName(ASTTypeDefView, Seq<char>, ASTTypeKind),
    ExpectFieldComma(ASTTypeDefView),
}

impl View for Cursor {
    type V = CursorView;

    open spec fn view(&self) -> CursorView {
        match self {
            Cursor::Root => CursorView::Root,
            Cursor::ExpectTypeName => CursorView::ExpectTypeName,
            Cursor::ExpectBlockOpen(def) => CursorView::ExpectBlockOpen(def@),
            Cursor::InBlock(def) => CursorView::InBlock(def@),
            Cursor::ExpectFieldColon(def, name) => CursorView::ExpectFieldColon(def@, name@),
            Cursor::ExpectFieldTypeOrMode(def, name) => CursorView::ExpectFieldTypeOrMode(
                def@,
                name@,
            ),
            Cursor::ExpectFieldTypeName(def, name, kind) => CursorView::ExpectFieldTypeName(
                def@,
                name@,
                *kind,
            ),
            Cursor::ExpectFieldComma(def) => CursorView::ExpectFieldComma(def@),
        }
    }
}

impl CursorView {
    /// The state that the cursor is in.
    pub open spec fn state(self) -> ParserState {
        match self {
            CursorView::Root => ParserState::Root,
            CursorView::ExpectTypeName => ParserState::ExpectTypeName,
            CursorView::ExpectBlockOpen(_) => ParserState::ExpectBlockOpen,
            CursorView::InBlock(_) => ParserState::InBlock,
            CursorView::ExpectFieldColon(_, _) => ParserState::ExpectFieldColon,
            CursorView::ExpectFieldTypeOrMode(_, _) => ParserState::ExpectFieldTypeOrMode,
            CursorView::ExpectFieldTypeName(_, _, _) => ParserState::ExpectFieldTypeName,
            CursorView::ExpectFieldComma(_) => ParserState::ExpectFieldComma,
        }
    }
}

impl Cursor {
    /// The state that the cursor is in.
    pub fn state(&self) -> (state: ParserState)
        ensures
            state == self@.state(),
    {
        match self {
            Cursor::Root => ParserState::Root,
            Cursor::ExpectTypeName => ParserState::ExpectTypeName,
            Cursor::ExpectBlockOpen(_) => ParserState::ExpectBlockOpen,
            Cursor::InBlock(_) => ParserState::InBlock,
            Cursor::ExpectFieldColon(_, _) => ParserState::ExpectFieldColon,
            Cursor::ExpectFieldTypeOrMode(_, _) => ParserState::ExpectFieldTypeOrMode,
            Cursor::ExpectFieldTypeName(_, _, _) => ParserState::ExpectFieldTypeName,
            Cursor::ExpectFieldComma(_) => ParserState::ExpectFieldComma,
        }
    }
}

/// The parser between two tokens: the definitions that are closed, and the
/// cursor.
#[derive(Debug, Clone, PartialEq, Eq)]
pub struct Parser {
    pub blocks: Vec<ASTRootBlock>,
    pub cursor: Cursor,
}

/// The mathematical value of a [`Parser`].
pub struct ParserView {
    pub blocks: Seq<ASTRootBlockView>,
    pub cursor: CursorView,
}

impl View for Parser {
    type V = ParserView;

    open spec fn view(&self) -> ParserView {
        ParserView { blocks: self.blocks.deep_view(), cursor: self.cursor@ }
    }
}

/// The token is the keyword `word`.
pub open spec fn is_keyword_token(token: TokenView, word: Seq<char>) -> bool {
    token.ty == TokenType::Keyword && token.value == word
}

/// The token is the punctuation `mark`.
pub open spec fn is_punctuation_token(token: TokenView, mark: Seq<char>) -> bool {
    token.ty == TokenType::Punctuation && token.value == mark
}

/// The mode that the token names, if it is a mode keyword.
pub open spec fn mode_of(token: TokenView) -> Option<ASTTypeKind> {
    if is_keyword_token(token, "normal"@) {
        Some(ASTTypeKind::Normal)
    } else if is_keyword_token(token, "streaming"@) {
        Some(ASTTypeKind::Streaming)
    } else if is_keyword_token(token, "sync"@) {
        Some(ASTTypeKind::Sync)
    } else {
        None
    }
}

/// The definition with one more field at its end.
pub open spec fn with_field(
    def: ASTTypeDefView,
    name: Seq<char>,
    kind: ASTTypeKind,
    target: Seq<char>,
) -> ASTTypeDefView {
    ASTTypeDefView {
        name: def.name,
        fields: def.fields.push(
            ASTFieldView { name, ty: ASTTypeView { kind, name: target } },
        ),
    }
}

/// The parser before the first token.
pub open spec fn initial() -> ParserView {
    ParserView { blocks: Seq::empty(), cursor: CursorView::Root }
}

/// The cursor after `token`, where the token only moves the cursor, or `None`.
/// The closing brace of a definition is not handled here.
pub open spec fn advance(cursor: CursorView, token: TokenView) -> Option<CursorView> {
    match cursor {
        CursorView::Root => if is_keyword_token(token, "type"@) {
            Some(CursorView::ExpectTypeName)
        } else {
            None
        },
        CursorView::ExpectTypeName => if token.ty == TokenType::Identifier {
            Some(
                CursorView::ExpectBlockOpen(
                    ASTTypeDefView { name: token.value, fields: Seq::empty() },
                ),
            )
        } else {
            None
        },
        CursorView::ExpectBlockOpen(def) => if is_punctuation_token(token, "{"@) {
            Some(CursorView::InBlock(def))
        } else {
            None
        },
        CursorView::InBlock(def) => if token.ty == TokenType::Identifier {
            Some(CursorView::ExpectFieldColon(def, token.value))
        } else {
            None
        },
        CursorView::ExpectFieldColon(def, name) => if is_punctuation_token(token, ":"@) {
            Some(CursorView::ExpectFieldTypeOrMode(def, name))
        } else {
            None
        },
        CursorView::ExpectFieldTypeOrMode(def, name) => match mode_of(token) {
            Some(kind) => Some(CursorView::ExpectFieldTypeName(def, name, kind)),
            None => if token.ty == TokenType::Identifier {
                Some(
                    CursorView::ExpectFieldComma(
                        with_field(def, name, ASTTypeKind::Normal, token.value),
                    ),
                )
            } else {
                None
            },
        },
        CursorView::ExpectFieldTypeName(def, name, kind) => if token.ty
            == TokenType::Identifier {
            Some(CursorView::ExpectFieldComma(with_field(def, name, kind, token.value)))
        } else {
            None
        },
        CursorView::ExpectFieldComma(def) => if is_punctuation_token(token, ","@) {
            Some(CursorView::InBlock(def))
        } else {
            None
        },
    }
}

/// The definition that a closing brace would close at this cursor, if a
/// definition can end there.
pub open spec fn closable(cursor: CursorView) -> Option<ASTTypeDefView> {
    match cursor {
        CursorView::InBlock(def) => Some(def),
        CursorView::ExpectFieldComma(def) => Some(def),
        _ => None,
    }
}

/// One transition of the parser.
pub open spec fn step_spec(parser: ParserView, token: TokenView) -> Result<
    ParserView,
    ParseErrorView,
> {
    if closable(parser.cursor) is Some && is_punctuation_token(token, "}"@) {
        Ok(
            ParserView {
                blocks: parser.blocks.push(
                    ASTRootBlockView::TypeDef(closable(parser.cursor)->Some_0),
                ),
                cursor: CursorView::Root,
            },
        )
    } else {
        match advance(parser.cursor, token) {
            Some(cursor) => Ok(ParserView { blocks: parser.blocks, cursor }),
            None => Err(ParseErrorView::UnexpectedToken(token, parser.cursor.state())),
        }
    }
}

/// The parser after all of `tokens`, or the first error.
pub open spec fn run(parser: ParserView, tokens: Seq<TokenView>) -> Result<
    ParserView,
    ParseErrorView,
>
    decreases tokens.len(),
{
    if tokens.len() == 0 {
        Ok(parser)
    } else {
        match step_spec(parser, tokens[0]) {
            Ok(next) => run(next, tokens.drop_first()),
            Err(e) => Err(e),
        }
    }
}

/// The tree that the parser holds at the end of the input: the input may end
/// only between definitions.
pub open spec fn finish_spec(parser: ParserView) -> Result<ASTRootView, ParseErrorView> {
    if parser.cursor is Root {
        Ok(ASTRootView { blocks: parser.blocks })
    } else {
        Err(ParseErrorView::UnexpectedEndOfInput(parser.cursor.state()))
    }
}

/// The syntax tree of a token sequence, or the first error.
pub open spec fn parse_spec(tokens: Seq<TokenView>) -> Result<ASTRootView, ParseErrorView> {
    match run(initial(), tokens) {
        Ok(parser) => finish_spec(parser),
        Err(e) => Err(e),
    }
}

/// The number of `type` keywords among the tokens.
pub open spec fn type_keyword_count(tokens: Seq<TokenView>) -> nat {
    tokens.filter(|token: TokenView| is_keyword_token(token, "type"@)).len()
}

/// The number of definitions that the parser has started: those that are
/// closed, and the one that is open, if any.
pub open spec fn started(parser: ParserView) -> nat {
    if parser.cursor is Root {
        parser.blocks.len()
    } else {
        parser.blocks.len() + 1
    }
}

/// A `type` keyword starts a definition, and no other token does.
pub proof fn lemma_step_starts(parser: ParserView, token: TokenView)
    requires
        step_spec(parser, token) is Ok,
    ensures
        started(step_spec(parser, token)->Ok_0) == started(parser) + if is_keyword_token(
            token,
            "type"@,
        ) {
            1nat
        } else {
            0nat
        },
{
    reveal_strlit("type");
    reveal_strlit("normal");
    reveal_strlit("streaming");
    reveal_strlit("sync");
    assert("type"@[0] != "sync"@[0]);
    assert(is_keyword_token(token, "type"@) ==> mode_of(token) is None);
}

/// The first token counts by itself, the others as they do alone.
proof fn lemma_count_first(tokens: Seq<TokenView>)
    requires
        tokens.len() > 0,
    ensures
        type_keyword_count(tokens) == type_keyword_count(tokens.drop_first()) + if is_keyword_token(
            tokens[0],
            "type"@,
        ) {
            1nat
        } else {
            0nat
        },
{
    let pred = |token: TokenView| is_keyword_token(token, "type"@);
    let head = seq![tokens[0]];
    assert(tokens =~= head + tokens.drop_first());
    Seq::filter_distributes_over_add(head, tokens.drop_first(), pred);
    reveal_with_fuel(Seq::filter, 2);
    assert(head.drop_last() =~= Seq::<TokenView>::empty());
    assert(head.last() == tokens[0]);
}

/// A run that reads all of `tokens` starts as many definitions as there are
/// `type` keywords among them.
pub proof fn lemma_run_starts(parser: ParserView, tokens: Seq<TokenView>)
    requires
        run(parser, tokens) is Ok,
    ensures
        started(run(parser, tokens)->Ok_0) == started(parser) + type_keyword_count(tokens),
    decreases tokens.len(),
{
    if tokens.len() == 0 {
        reveal_with_fuel(Seq::filter, 1);
    } else {
        lemma_step_starts(parser, tokens[0]);
        lemma_run_starts(step_spec(parser, tokens[0])->Ok_0, tokens.drop_first());
        lemma_count_first(tokens);
    }
}

/// A syntax tree has as many type definitions as its input has `type`
/// keywords.
pub proof fn lemma_definitions_match_type_keywords(tokens: Seq<TokenView>)
    requires
        parse_spec(tokens) is Ok,
    ensures
        parse_spec(tokens)->Ok_0.blocks.len() == type_keyword_count(tokens),
{
    lemma_run_starts(initial(), tokens);
}

fn is_keyword(token: &Token, word: &str) -> (yes: bool)
    ensures
        yes == is_keyword_token(token@, word@),
{
    token.ty == TokenType::Keyword && str_eq(token.value.as_str(), word)
}

fn is_punctuation(token: &Token, mark: &str) -> (yes: bool)
    ensures
        yes == is_punctuation_token(token@, mark@),
{
    token.ty == TokenType::Punctuation && str_eq(token.value.as_str(), mark)
}

fn is_identifier(token: &Token) -> (yes: bool)
    ensures
        yes == (token@.ty == TokenType::Identifier),
{
    token.ty == TokenType::Identifier
}

fn mode(token: &Token) -> (kind: Option<ASTTypeKind>)
    ensures
        kind == mode_of(token@),
{
    if is_keyword(token, "normal") {
        Some(ASTTypeKind::Normal)
    } else if is_keyword(token, "streaming") {
        Some(ASTTypeKind::Streaming)
    } else if is_keyword(token, "sync") {
        Some(ASTTypeKind::Sync)
    } else {
        None
    }
}

fn unexpected(token: &Token, state: ParserState) -> (e: ParseError)
    ensures
        e@ == ParseErrorView::UnexpectedToken(token@, state),
{
    ParseError::UnexpectedToken(Token { ty: token.ty, value: token.value.clone() }, state)
}

fn add_field(def: ASTTypeDef, name: String, kind: ASTTypeKind, target: &Token) -> (out:
    ASTTypeDef)
    ensures
        out@ == with_field(def@, name@, kind, target@.value),
{
    let mut out = def;
    out.fields.push(ASTField { name, ty: ASTType { kind, name: target.value.clone() } });
    assert(out.fields.deep_view() =~= def.fields.deep_view().push(
        ASTFieldView { name: name@, ty: ASTTypeView { kind, name: target@.value } },
    ));
    out
}

impl Parser {
    /// The parser before the first token.
    pub fn new() -> (parser: Parser)
        ensures
            parser@ == initial(),
    {
        let parser = Parser { blocks: Vec::new(), cursor: Cursor::Root };
        assert(parser.blocks.deep_view() =~= Seq::empty());
        parser
    }

    /// Takes one token.
    pub fn step(self, token: &Token) -> (next: Result<Parser, ParseError>)
        ensures
            match step_spec(self@, token@) {
                Ok(parser) => next is Ok && next->Ok_0@ == parser,
                Err(e) => next is Err && next->Err_0@ == e,
            },
    {
        let blocks = self.blocks;
        match self.cursor {
            Cursor::Root => {
                if is_keyword(token, "type") {
                    Ok(Parser { blocks, cursor: Cursor::ExpectTypeName })
                } else {
                    Err(unexpected(token, ParserState::Root))
                }
            },
            Cursor::ExpectTypeName => {
                if is_identifier(token) {
                    let def = ASTTypeDef { name: token.value.clone(), fields: Vec::new() };
                    assert(def.fields.deep_view() =~= Seq::empty());
                    Ok(Parser { blocks, cursor: Cursor::ExpectBlockOpen(def) })
                } else {
                    Err(unexpected(token, ParserState::ExpectTypeName))
                }
            },
            Cursor::ExpectBlockOpen(def) => {
                if is_punctuation(token, "{") {
                    Ok(Parser { blocks, cursor: Cursor::InBlock(def) })
                } else {
                    Err(unexpected(token, ParserState::ExpectBlockOpen))
                }
            },
            Cursor::InBlock(def) => {
                if is_punctuation(token, "}") {
                    Ok(close(blocks, def))
                } else if is_identifier(token) {
                    let name = token.value.clone();
                    Ok(Parser { blocks, cursor: Cursor::ExpectFieldColon(def, name) })
                } else {
                    Err(unexpected(token, ParserState::InBlock))
                }
            },
            Cursor::ExpectFieldColon(def, name) => {
                if is_punctuation(token, ":") {
                    Ok(Parser { blocks, cursor: Cursor::ExpectFieldTypeOrMode(def, name) })
                } else {
                    Err(unexpected(token, ParserState::ExpectFieldColon))
                }
            },
            Cursor::ExpectFieldTypeOrMode(def, name) => {
                match mode(token) {
                    Some(kind) => Ok(
                        Parser { blocks, cursor: Cursor::ExpectFieldTypeName(def, name, kind) },
                    ),
                    None => {
                        if is_identifier(token) {
                            let def = add_field(def, name, ASTTypeKind::Normal, token);
                            Ok(Parser { blocks, cursor: Cursor::ExpectFieldComma(def) })
                        } else {
                            Err(unexpected(token, ParserState::ExpectFieldTypeOrMode))
                        }
                    },
                }
            },
            Cursor::ExpectFieldTypeName(def, name, kind) => {
                if is_identifier(token) {
                    let def = add_field(def, name, kind, token);
                    Ok(Parser { blocks, cursor: Cursor::ExpectFieldComma(def) })
                } else {
                    Err(unexpected(token, ParserState::ExpectFieldTypeName))
                }
            },
            Cursor::ExpectFieldComma(def) => {
                if is_punctuation(token, "}") {
                    Ok(close(blocks, def))
                } else if is_punctuation(token, ",") {
                    Ok(Parser { blocks, cursor: Cursor::InBlock(def) })
                } else {
                    Err(unexpected(token, ParserState::ExpectFieldComma))
                }
            },
        }
    }

    /// Ends the input.
    pub fn finish(self) -> (tree: Result<ASTRoot, ParseError>)
        ensures
            match finish_spec(self@) {
                Ok(root) => tree is Ok && tree->Ok_0@ == root,
                Err(e) => tree is Err && tree->Err_0@ == e,
            },
    {
        match self.cursor {
            Cursor::Root => Ok(ASTRoot { blocks: self.blocks }),
            other => Err(ParseError::UnexpectedEndOfInput(other.state())),
        }
    }
}

/// Closes `def`: it joins the closed definitions, and the parser is between
/// definitions again.
fn close(blocks: Vec<ASTRootBlock>, def: ASTTypeDef) -> (parser: Parser)
    ensures
        parser@ == (ParserView {
            blocks: blocks.deep_view().push(ASTRootBlockView::TypeDef(def@)),
            cursor: CursorView::Root,
        }),
{
    let mut blocks = blocks;
    let ghost before = blocks.deep_view();
    blocks.push(ASTRootBlock::TypeDef(def));
    assert(blocks.deep_view() =~= before.push(ASTRootBlockView::TypeDef(def@)));
    Parser { blocks, cursor: Cursor::Root }
}

/// Parses a token sequence into its syntax tree.
pub fn gen_ast(tokens: &[Token]) -> (tree: Result<ASTRoot, ParseError>)
    ensures
        match parse_spec(tokens.deep_view()) {
            Ok(root) => tree is Ok && tree->Ok_0@ == root,
            Err(e) => tree is Err && tree->Err_0@ == e,
        },
        tree is Ok ==> tree->Ok_0@.blocks.len() == type_keyword_count(tokens.deep_view()),
{
    proof {
        if parse_spec(tokens.deep_view()) is Ok {
            lemma_definitions_match_type_keywords(tokens.deep_view());
        }
    }
    let mut parser = Parser::new();
    let mut i: usize = 0;
    assert(tokens.deep_view().skip(0) =~= tokens.deep_view());
    while i < tokens.len()
        invariant
            i <= tokens.len(),
            run(initial(), tokens.deep_view()) == run(parser@, tokens.deep_view().skip(i as int)),
        decreases tokens.len() - i,
    {
        let ghost rest = tokens.deep_view().skip(i as int);
        assert(rest[0] == tokens[i as int]@);
        assert(rest.drop_first() =~= tokens.deep_view().skip(i + 1));
        match parser.step(&tokens[i]) {
            Ok(next) => {
                parser = next;
            },
            Err(e) => {
                return Err(e);
            },
        }
        i += 1;
    }
    parser.finish()
}

} // verus!
