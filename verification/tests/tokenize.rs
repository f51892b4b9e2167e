//! Tests of the lexer.

use idl_schema::schema::tokenize::{
    is_keyword_text, is_punctuation_char, is_whitespace_char, tokenize, LexError, PendingToken,
    Token, TokenType,
};

const SIMPLE_SCHEMA: &str = r#"
    type Post {
        id: integer,
        title: string,
        body: string,
        author: string
    }
"#;

const STREAMING_SCHEMA: &str = r#"
    type Post {
        id: integer,
        title: string,
        body: streaming string,
        author: string
    }
"#;

const SYNC_SCHEMA: &str = r#"
    type Post {
        id: integer,
        title: string,
        body: string,
        author: string,
        likes: sync integer
    }
"#;

#[test]
fn main_test_simple_tokenize() {
    let tokens = tokenize(SIMPLE_SCHEMA);
    let target_tokens = vec![
        Token {
            ty: TokenType::Keyword,
            value: "type".to_string(),
        },
        Token {
            ty: TokenType::Identifier,
            value: "Post".to_string(),
        },
        Token {
            ty: TokenType::Punctuation,
            value: "{".to_string(),
        },
        Token {
            ty: TokenType::Identifier,
            value: "id".to_string(),
        },
        Token {
            ty: TokenType::Punctuation,
            value: ":".to_string(),
        },
        Token {
            ty: TokenType::Identifier,
            value: "integer".to_string(),
        },
        Token {
            ty: TokenType::Punctuation,
            value: ",".to_string(),
        },
        Token {
            ty: TokenType::Identifier,
            value: "title".to_string(),
        },
        Token {
            ty: TokenType::Punctuation,
            value: ":".to_string(),
        },
        Token {
            ty: TokenType::Identifier,
            value: "string".to_string(),
        },
        Token {
            ty: TokenType::Punctuation,
            value: ",".to_string(),
        },
        Token {
            ty: TokenType::Identifier,
            value: "body".to_string(),
        },
        Token {
            ty: TokenType::Punctuation,
            value: ":".to_string(),
        },
        Token {
            ty: TokenType::Identifier,
            value: "string".to_string(),
        },
        Token {
            ty: TokenType::Punctuation,
            value: ",".to_string(),
        },
        Token {
            ty: TokenType::Identifier,
            value: "author".to_string(),
        },
        Token {
            ty: TokenType::Punctuation,
            value: ":".to_string(),
        },
        Token {
            ty: TokenType::Identifier,
            value: "string".to_string(),
        },
        Token {
            ty: TokenType::Punctuation,
            value: "}".to_string(),
        },
    ];

    for i in 0..tokens.len() {
        if tokens[i] != target_tokens[i] {
            let offset = if (i as i32 - 2) < 0 { 0 } else { i - 2 };
            let size = if i + 2 >= tokens.len() {
                tokens.len() - i
            } else {
                2
            };
            let context = &tokens[offset..i + size];

            println!("Context: {:?}", context);
            panic!(
                "Tokens are not equal at index {}: {:?} != {:?}",
                i, tokens[i], target_tokens[i]
            );
        }
    }
}

#[test]
fn test_streaming_tokenize() {
    let tokens = tokenize(STREAMING_SCHEMA);
    let target_tokens = vec![
        Token {
            ty: TokenType::Keyword,
            value: "type".to_string(),
        },
        Token {
            ty: TokenType::Identifier,
            value: "Post".to_string(),
        },
        Token {
            ty: TokenType::Punctuation,
            value: "{".to_string(),
        },
        Token {
            ty: TokenType::Identifier,
            value: "id".to_string(),
        },
        Token {
            ty: TokenType::Punctuation,
            value: ":".to_string(),
        },
        Token {
            ty: TokenType::Identifier,
            value: "integer".to_string(),
        },
        Token {
            ty: TokenType::Punctuation,
            value: ",".to_string(),
        },
        Token {
            ty: TokenType::Identifier,
            value: "title".to_string(),
        },
        Token {
            ty: TokenType::Punctuation,
            value: ":".to_string(),
        },
        Token {
            ty: TokenType::Identifier,
            value: "string".to_string(),
        },
        Token {
            ty: TokenType::Punctuation,
            value: ",".to_string(),
        },
        Token {
            ty: TokenType::Identifier,
            value: "body".to_string(),
        },
        Token {
            ty: TokenType::Punctuation,
            value: ":".to_string(),
        },
        Token {
            ty: TokenType::Keyword,
            value: "streaming".to_string(),
        },
        Token {
            ty: TokenType::Identifier,
            value: "string".to_string(),
        },
        Token {
            ty: TokenType::Punctuation,
            value: ",".to_string(),
        },
        Token {
            ty: TokenType::Identifier,
            value: "author".to_string(),
        },
        Token {
            ty: TokenType::Punctuation,
            value: ":".to_string(),
        },
        Token {
            ty: TokenType::Identifier,
            value: "string".to_string(),
        },
        Token {
            ty: TokenType::Punctuation,
            value: "}".to_string(),
        },
    ];

    for i in 0..tokens.len() {
        if tokens[i] != target_tokens[i] {
            let offset = if (i as i32 - 2) < 0 { 0 } else { i - 2 };
            let size = if i + 2 >= tokens.len() {
                tokens.len() - i
            } else {
                2
            };
            let context = &tokens[offset..i + size];

            println!("Context: {:?}", context);
            panic!(
                "Tokens are not equal at index {}: {:?} != {:?}",
                i, tokens[i], target_tokens[i]
            );
        }
    }
}

#[test]
fn main_test_sync_tokenize() {
    let tokens = tokenize(SYNC_SCHEMA);
    let target_tokens = vec![
        Token {
            ty: TokenType::Keyword,
            value: "type".to_string(),
        },
        Token {
            ty: TokenType::Identifier,
            value: "Post".to_string(),
        },
        Token {
            ty: TokenType::Punctuation,
            value: "{".to_string(),
        },
        Token {
            ty: TokenType::Identifier,
            value: "id".to_string(),
        },
        Token {
            ty: TokenType::Punctuation,
            value: ":".to_string(),
        },
        Token {
            ty: TokenType::Identifier,
            value: "integer".to_string(),
        },
        Token {
            ty: TokenType::Punctuation,
            value: ",".to_string(),
        },
        Token {
            ty: TokenType::Identifier,
            value: "title".to_string(),
        },
        Token {
            ty: TokenType::Punctuation,
            value: ":".to_string(),
        },
        Token {
            ty: TokenType::Identifier,
            value: "string".to_string(),
        },
        Token {
            ty: TokenType::Punctuation,
            value: ",".to_string(),
        },
        Token {
            ty: TokenType::Identifier,
            value: "body".to_string(),
        },
        Token {
            ty: TokenType::Punctuation,
            value: ":".to_string(),
        },
        Token {
            ty: TokenType::Identifier,
            value: "string".to_string(),
        },
        Token {
            ty: TokenType::Punctuation,
            value: ",".to_string(),
        },
        Token {
            ty: TokenType::Identifier,
            value: "author".to_string(),
        },
        Token {
            ty: TokenType::Punctuation,
            value: ":".to_string(),
        },
        Token {
            ty: TokenType::Identifier,
            value: "string".to_string(),
        },
        Token {
            ty: TokenType::Punctuation,
            value: ",".to_string(),
        },
        Token {
            ty: TokenType::Identifier,
            value: "likes".to_string(),
        },
        Token {
            ty: TokenType::Punctuation,
            value: ":".to_string(),
        },
        Token {
            ty: TokenType::Keyword,
            value: "sync".to_string(),
        },
        Token {
            ty: TokenType::Identifier,
            value: "integer".to_string(),
        },
        Token {
            ty: TokenType::Punctuation,
            value: "}".to_string(),
        },
    ];

    for i in 0..tokens.len() {
        if tokens[i] != target_tokens[i] {
            let offset = if (i as i32 - 2) < 0 { 0 } else { i - 2 };
            let size = if i + 2 >= tokens.len() {
                tokens.len() - i
            } else {
                2
            };
            let context = &tokens[offset..i + size];

            println!("Context: {:?}", context);
            panic!(
                "Tokens are not equal at index {}: {:?} != {:?}",
                i, tokens[i], target_tokens[i]
            );
        }
    }
}

#[test]
fn tests_test_simple_tokenize() {
    let tokens = tokenize(SIMPLE_SCHEMA);
    let target_tokens = vec![
        Token {
            ty: TokenType::Keyword,
            value: "type".to_string(),
        },
        Token {
            ty: TokenType::Identifier,
            value: "Post".to_string(),
        },
        Token {
            ty: TokenType::Punctuation,
            value: "{".to_string(),
        },
        Token {
            ty: TokenType::Identifier,
            value: "id".to_string(),
        },
        Token {
            ty: TokenType::Punctuation,
            value: ":".to_string(),
        },
        Token {
            ty: TokenType::Identifier,
            value: "integer".to_string(),
        },
        Token {
            ty: TokenType::Punctuation,
            value: ",".to_string(),
        },
        Token {
            ty: TokenType::Identifier,
            value: "title".to_string(),
        },
        Token {
            ty: TokenType::Punctuation,
            value: ":".to_string(),
        },
        Token {
            ty: TokenType::Identifier,
            value: "string".to_string(),
        },
        Token {
            ty: TokenType::Punctuation,
            value: ",".to_string(),
        },
        Token {
            ty: TokenType::Identifier,
            value: "body".to_string(),
        },
        Token {
            ty: TokenType::Punctuation,
            value: ":".to_string(),
        },
        Token {
            ty: TokenType::Identifier,
            value: "string".to_string(),
        },
        Token {
            ty: TokenType::Punctuation,
            value: ",".to_string(),
        },
        Token {
            ty: TokenType::Identifier,
            value: "author".to_string(),
        },
        Token {
            ty: TokenType::Punctuation,
            value: ":".to_string(),
        },
        Token {
            ty: TokenType::Identifier,
            value: "string".to_string(),
        },
        Token {
            ty: TokenType::Punctuation,
            value: "}".to_string(),
        },
    ];

    for i in 0..tokens.len() {
        if tokens[i] != target_tokens[i] {
            let offset = if (i as i32 - 2) < 0 { 0 } else { i - 2 };
            let size = if i + 2 >= tokens.len() {
                tokens.len() - i
            } else {
                2
            };
            let context = &tokens[offset..i + size];

            println!("Context: {:?}", context);
            panic!(
                "Tokens are not equal at index {}: {:?} != {:?}",
                i, tokens[i], target_tokens[i]
            );
        }
    }
}

#[test]
fn tests_test_sync_tokenize() {
    let tokens = tokenize(SYNC_SCHEMA);
    let target_tokens = vec![
        Token {
            ty: TokenType::Keyword,
            value: "type".to_string(),
        },
        Token {
            ty: TokenType::Identifier,
            value: "Post".to_string(),
        },
        Token {
            ty: TokenType::Punctuation,
            value: "{".to_string(),
        },
        Token {
            ty: TokenType::Identifier,
            value: "id".to_string(),
        },
        Token {
            ty: TokenType::Punctuation,
            value: ":".to_string(),
        },
        Token {
            ty: TokenType::Identifier,
            value: "integer".to_string(),
        },
        Token {
            ty: TokenType::Punctuation,
            value: ",".to_string(),
        },
        Token {
            ty: TokenType::Identifier,
            value: "title".to_string(),
        },
        Token {
            ty: TokenType::Punctuation,
            value: ":".to_string(),
        },
        Token {
            ty: TokenType::Identifier,
            value: "string".to_string(),
        },
        Token {
            ty: TokenType::Punctuation,
            value: ",".to_string(),
        },
        Token {
            ty: TokenType::Identifier,
            value: "body".to_string(),
        },
        Token {
            ty: TokenType::Punctuation,
            value: ":".to_string(),
        },
        Token {
            ty: TokenType::Identifier,
            value: "string".to_string(),
        },
        Token {
            ty: TokenType::Punctuation,
            value: ",".to_string(),
        },
        Token {
            ty: TokenType::Identifier,
            value: "author".to_string(),
        },
        Token {
            ty: TokenType::Punctuation,
            value: ":".to_string(),
        },
        Token {
            ty: TokenType::Identifier,
            value: "string".to_string(),
        },
        Token {
            ty: TokenType::Punctuation,
            value: ",".to_string(),
        },
        Token {
            ty: TokenType::Identifier,
            value: "likes".to_string(),
        },
        Token {
            ty: TokenType::Punctuation,
            value: ":".to_string(),
        },
        Token {
            ty: TokenType::Keyword,
            value: "sync".to_string(),
        },
        Token {
            ty: TokenType::Identifier,
            value: "integer".to_string(),
        },
        Token {
            ty: TokenType::Punctuation,
            value: "}".to_string(),
        },
    ];

    for i in 0..tokens.len() {
        if tokens[i] != target_tokens[i] {
            let offset = if (i as i32 - 2) < 0 { 0 } else { i - 2 };
            let size = if i + 2 >= tokens.len() {
                tokens.len() - i
            } else {
                2
            };
            let context = &tokens[offset..i + size];

            println!("Context: {:?}", context);
            panic!(
                "Tokens are not equal at index {}: {:?} != {:?}",
                i, tokens[i], target_tokens[i]
            );
        }
    }
}

fn keyword(text: &str) -> Token {
    Token { ty: TokenType::Keyword, value: text.to_string() }
}

fn identifier(text: &str) -> Token {
    Token { ty: TokenType::Identifier, value: text.to_string() }
}

fn punctuation(text: &str) -> Token {
    Token { ty: TokenType::Punctuation, value: text.to_string() }
}

fn pending(text: &str) -> PendingToken {
    let mut out = PendingToken::new();
    for c in text.chars() {
        out.push(c);
    }
    out
}

#[test]
fn simple_schema_gives_exactly_these_tokens() {
    assert_eq!(
        tokenize(SIMPLE_SCHEMA),
        vec![
            keyword("type"),
            identifier("Post"),
            punctuation("{"),
            identifier("id"),
            punctuation(":"),
            identifier("integer"),
            punctuation(","),
            identifier("title"),
            punctuation(":"),
            identifier("string"),
            punctuation(","),
            identifier("body"),
            punctuation(":"),
            identifier("string"),
            punctuation(","),
            identifier("author"),
            punctuation(":"),
            identifier("string"),
            punctuation("}"),
        ]
    );
}

#[test]
fn streaming_schema_has_the_streaming_keyword() {
    let tokens = tokenize(STREAMING_SCHEMA);
    assert_eq!(tokens.len(), 20);
    assert_eq!(tokens[13], keyword("streaming"));
    assert_eq!(tokens[14], identifier("string"));
}

#[test]
fn sync_schema_has_the_sync_keyword() {
    let tokens = tokenize(SYNC_SCHEMA);
    assert_eq!(tokens.len(), 24);
    assert_eq!(tokens[21], keyword("sync"));
    assert_eq!(tokens[22], identifier("integer"));
    assert_eq!(tokens[23], punctuation("}"));
}

#[test]
fn empty_text_has_no_tokens() {
    assert_eq!(tokenize(""), Vec::<Token>::new());
}

#[test]
fn blanks_alone_have_no_tokens() {
    assert_eq!(tokenize(" \t\n \n\t "), Vec::<Token>::new());
}

#[test]
fn a_word_at_the_end_of_the_text_is_a_token() {
    assert_eq!(tokenize("abc"), vec![identifier("abc")]);
    assert_eq!(tokenize("  type"), vec![keyword("type")]);
}

#[test]
fn punctuation_needs_no_blank_around_it() {
    assert_eq!(
        tokenize("a:b,c"),
        vec![identifier("a"), punctuation(":"), identifier("b"), punctuation(","), identifier("c")]
    );
    assert_eq!(
        tokenize("type{}"),
        vec![keyword("type"), punctuation("{"), punctuation("}")]
    );
}

#[test]
fn each_of_the_six_punctuation_characters_is_a_token() {
    assert_eq!(
        tokenize("{}.,:;"),
        vec![
            punctuation("{"),
            punctuation("}"),
            punctuation("."),
            punctuation(","),
            punctuation(":"),
            punctuation(";"),
        ]
    );
}

#[test]
fn the_keywords_are_type_streaming_and_sync() {
    assert_eq!(
        tokenize("type streaming sync normal stream"),
        vec![
            keyword("type"),
            keyword("streaming"),
            keyword("sync"),
            identifier("normal"),
            identifier("stream"),
        ]
    );
}

#[test]
fn keywords_are_matched_exactly() {
    assert_eq!(
        tokenize("Type TYPE types typ Sync"),
        vec![
            identifier("Type"),
            identifier("TYPE"),
            identifier("types"),
            identifier("typ"),
            identifier("Sync"),
        ]
    );
}

#[test]
fn tab_and_newline_separate_tokens() {
    assert_eq!(tokenize("a\tb\nc d"), vec![
        identifier("a"),
        identifier("b"),
        identifier("c"),
        identifier("d"),
    ]);
}

#[test]
fn other_control_characters_are_ordinary() {
    assert_eq!(tokenize("a\rb"), vec![identifier("a\rb")]);
}

#[test]
fn angle_brackets_are_ordinary_characters() {
    assert_eq!(
        tokenize("posts: Array<Post>"),
        vec![identifier("posts"), punctuation(":"), identifier("Array<Post>")]
    );
}

#[test]
fn characters_outside_ascii_are_ordinary() {
    assert_eq!(
        tokenize("größe: zahl"),
        vec![identifier("größe"), punctuation(":"), identifier("zahl")]
    );
}

#[test]
fn tokenizing_twice_gives_the_same_tokens() {
    assert_eq!(tokenize(SYNC_SCHEMA), tokenize(SYNC_SCHEMA));
}

#[test]
fn pending_token_starts_empty() {
    assert!(PendingToken::new().is_empty());
    assert_eq!(PendingToken::new().value, "");
}

#[test]
fn pending_token_keeps_characters_in_order() {
    let mut token = PendingToken::new();
    token.push('a');
    assert!(!token.is_empty());
    token.push('b');
    token.push('c');
    assert_eq!(token.value, "abc");
}

#[test]
fn finishing_empty_text_fails() {
    assert_eq!(PendingToken::new().finish(), Err(LexError::EmptyToken));
}

#[test]
fn finishing_punctuation_with_more_text_fails() {
    assert_eq!(pending("{x").finish(), Err(LexError::MalformedPunctuationToken));
    assert_eq!(pending("::").finish(), Err(LexError::MalformedPunctuationToken));
    assert_eq!(pending(",type").finish(), Err(LexError::MalformedPunctuationToken));
}

#[test]
fn finishing_classifies_the_text() {
    assert_eq!(pending("type").finish(), Ok(keyword("type")));
    assert_eq!(pending("streaming").finish(), Ok(keyword("streaming")));
    assert_eq!(pending("sync").finish(), Ok(keyword("sync")));
    assert_eq!(pending(";").finish(), Ok(punctuation(";")));
    assert_eq!(pending("x{").finish(), Ok(identifier("x{")));
    assert_eq!(pending("integer").finish(), Ok(identifier("integer")));
}

#[test]
fn character_classes() {
    for c in [' ', '\t', '\n'] {
        assert!(is_whitespace_char(c));
        assert!(!is_punctuation_char(c));
    }
    for c in ['{', '}', '.', ',', ':', ';'] {
        assert!(is_punctuation_char(c));
        assert!(!is_whitespace_char(c));
    }
    for c in ['a', 'Z', '0', '_', '<', '>', '(', '\r', 'é'] {
        assert!(!is_punctuation_char(c));
        assert!(!is_whitespace_char(c));
    }
}

#[test]
fn keyword_texts() {
    assert!(is_keyword_text("type"));
    assert!(is_keyword_text("streaming"));
    assert!(is_keyword_text("sync"));
    assert!(!is_keyword_text("normal"));
    assert!(!is_keyword_text(""));
    assert!(!is_keyword_text("typ"));
    assert!(!is_keyword_text("typee"));
}

#[test]
fn the_tokens_spell_the_text_without_its_blanks() {
    for text in [SIMPLE_SCHEMA, STREAMING_SCHEMA, SYNC_SCHEMA, "a b\tc\nd", "type{x:sync y,}", ""] {
        let spelled: String = tokenize(text).iter().map(|t| t.value.as_str()).collect();
        let kept: String = text.chars().filter(|c| !matches!(c, ' ' | '\t' | '\n')).collect();
        assert_eq!(spelled, kept);
    }
}

#[test]
fn no_token_is_empty_or_holds_a_separator() {
    for token in tokenize("type Post { id: integer, body: streaming string ; . }") {
        assert!(!token.value.is_empty());
        match token.ty {
            TokenType::Punctuation => {
                assert_eq!(token.value.chars().count(), 1);
                assert!(is_punctuation_char(token.value.chars().next().unwrap()));
            }
            TokenType::Keyword => assert!(is_keyword_text(&token.value)),
            TokenType::Identifier => assert!(!is_keyword_text(&token.value)),
        }
        if token.ty != TokenType::Punctuation {
            assert!(token.value.chars().all(|c| !is_punctuation_char(c) && !is_whitespace_char(c)));
        }
    }
}
