//! The schema pipeline, one module per stage, and [`parse`], which runs them
//! all on a schema text.

pub mod assembly;
pub mod ast;
pub mod module;
pub mod tokenize;

pub use assembly::Assembly;

use assembly::{
    generate, lemma_resolve, resolve_spec, AssemblyView, ResolveError, ResolveErrorView,
};
use ast::{
    gen_ast, lemma_definitions_match_type_keywords, parse_spec, type_keyword_count, ASTRootView,
    ParseError, ParseErrorView,
};
use module::{create_module, lower_spec, SchemeModuleView};
use tokenize::{tokenize, tokenize_spec, TokenView};
use vstd::prelude::*;

verus! {

/// Why a schema text has no assembly.
#[derive(Debug, Clone, PartialEq, Eq)]
pub enum SchemaError {
    /// The text does not follow the grammar.
    Parse(ParseError),
    /// The text refers to a type that it does not define.
    Resolve(ResolveError),
}

/// The mathematical value of a [`SchemaError`].
pub enum SchemaErrorView {
    Parse(ParseErrorView),
    Resolve(ResolveErrorView),
}

impl View for SchemaError {
    type V = SchemaErrorView;

    open spec fn view(&self) -> SchemaErrorView {
        match self {
            SchemaError::Parse(e) => SchemaErrorView::Parse(e@),
            SchemaError::Resolve(e) => SchemaErrorView::Resolve(e@),
        }
    }
}

/// The module of a schema text: its tokens, parsed and lowered.
pub open spec fn module_spec(text: Seq<char>) -> Result<SchemeModuleView, ParseErrorView> {
    match parse_spec(tokenize_spec(text)) {
        Ok(root) => Ok(lower_spec(root)),
        Err(e) => Err(e),
    }
}

/// The assembly of a schema text, or the error of the first stage that has
/// one.
pub open spec fn assembly_spec(text: Seq<char>) -> Result<AssemblyView, SchemaErrorView> {
    match module_spec(text) {
        Ok(module) => match resolve_spec(module) {
            Ok(assembly) => Ok(assembly),
            Err(e) => Err(SchemaErrorView::Resolve(e)),
        },
        Err(e) => Err(SchemaErrorView::Parse(e)),
    }
}

/// The tokens, the syntax tree and the module are those of `text`, each made
/// from the one before it.
pub open spec fn front_end_run(
    text: Seq<char>,
    tokens: Seq<TokenView>,
    tree: ASTRootView,
    module: SchemeModuleView,
) -> bool {
    &&& tokens == tokenize_spec(text)
    &&& parse_spec(tokens) == Ok::<ASTRootView, ParseErrorView>(tree)
    &&& module == lower_spec(tree)
}

/// A text that follows the grammar has one module: two runs of the lexer,
/// the parser and the lowering pass on it end in equal modules.
pub proof fn lemma_front_end_deterministic(
    text: Seq<char>,
    tokens: Seq<TokenView>,
    tree: ASTRootView,
    module: SchemeModuleView,
    tokens_again: Seq<TokenView>,
    tree_again: ASTRootView,
    module_again: SchemeModuleView,
)
    requires
        front_end_run(text, tokens, tree, module),
        front_end_run(text, tokens_again, tree_again, module_again),
    ensures
        module == module_again,
        module_spec(text) == Ok::<SchemeModuleView, ParseErrorView>(module),
{
}

/// The assembly of a text has one type for each `type` keyword of the text.
pub proof fn lemma_types_match_type_keywords(text: Seq<char>)
    requires
        assembly_spec(text) is Ok,
    ensures
        assembly_spec(text)->Ok_0.types.len() == type_keyword_count(tokenize_spec(text)),
{
    let tokens = tokenize_spec(text);
    lemma_definitions_match_type_keywords(tokens);
    lemma_resolve(lower_spec(parse_spec(tokens)->Ok_0));
}

/// Turns a schema text into its assembly.
pub fn parse(schema: &str) -> (out: Result<Assembly, SchemaError>)
    ensures
        match assembly_spec(schema@) {
            Ok(assembly) => out is Ok && out->Ok_0@ == assembly,
            Err(e) => out is Err && out->Err_0@ == e,
        },
        out matches Ok(assembly) ==> assembly@.closed() && assembly@.types.len()
            == type_keyword_count(tokenize_spec(schema@)),
{
    proof {
        if assembly_spec(schema@) is Ok {
            lemma_types_match_type_keywords(schema@);
        }
    }
    let tokens = tokenize(schema);
    let ast = match gen_ast(tokens.as_slice()) {
        Ok(ast) => ast,
        Err(e) => {
            return Err(SchemaError::Parse(e));
        },
    };
    let module = create_module(&ast);
    match generate(&module) {
        Ok(assembly) => Ok(assembly),
        Err(e) => Err(SchemaError::Resolve(e)),
    }
}

} // verus!
