//! Whole runs, driven the way a caller drives them, against a small
//! tokenizer and parser for assignments such as `x = 1`.

use compile_pipeline::{Lexing, Next, Outcome, Parsed, Payload, Scanned, Token};

#[derive(Debug, Clone, PartialEq)]
enum Tok {
    Ident(String),
    Assign,
    Number(i64),
}

#[derive(Debug, Clone, PartialEq)]
enum Stmt {
    Assign { name: String, value: i64 },
}

struct Lexer {
    chars: Vec<char>,
    at: usize,
}

impl Lexer {
    fn new(code: &str) -> Lexer {
        Lexer { chars: code.chars().collect(), at: 0 }
    }

    /// The next token, or a fault at a character that starts no token.
    fn next_token(&mut self) -> Scanned<Tok> {
        while self.at < self.chars.len() && self.chars[self.at].is_whitespace() {
            self.at += 1;
        }
        if self.at == self.chars.len() {
            return Scanned::Token(Token::End);
        }
        let first = self.chars[self.at];
        let from = self.at;
        if first == '=' {
            self.at += 1;
            Scanned::Token(Token::Item(Tok::Assign))
        } else if first.is_ascii_digit() {
            while self.at < self.chars.len() && self.chars[self.at].is_ascii_digit() {
                self.at += 1;
            }
            let digits: String = self.chars[from..self.at].iter().collect();
            Scanned::Token(Token::Item(Tok::Number(digits.parse().unwrap())))
        } else if first.is_alphabetic() {
            while self.at < self.chars.len() && self.chars[self.at].is_alphanumeric() {
                self.at += 1;
            }
            Scanned::Token(Token::Item(Tok::Ident(self.chars[from..self.at].iter().collect())))
        } else {
            Scanned::Fault
        }
    }
}

/// Parses a sequence of assignments. A syntax error is a failure that
/// carries its description.
fn parse(tokens: Vec<Token<Tok>>) -> Parsed<Stmt> {
    let mut stmts = Vec::new();
    let mut rest = tokens.into_iter();
    loop {
        let name = match rest.next() {
            Some(Token::End) | None => return Parsed::Tree(stmts),
            Some(Token::Item(Tok::Ident(name))) => name,
            Some(Token::Item(_)) => return Parsed::Fault(Payload::Literal("identificador esperado")),
        };
        match rest.next() {
            Some(Token::Item(Tok::Assign)) => {}
            _ => return Parsed::Fault(Payload::Owned(format!("'=' esperado depois de {}", name))),
        }
        match rest.next() {
            Some(Token::Item(Tok::Number(value))) => stmts.push(Stmt::Assign { name, value }),
            _ => return Parsed::Fault(Payload::Owned(format!("valor esperado para {}", name))),
        }
    }
}

/// Lexing alone: the tokens of `code`, or the failure message.
fn tokenize(code: &str) -> Result<Vec<Token<Tok>>, String> {
    let mut lexer = Lexer::new(code);
    let mut state = Lexing::start();
    loop {
        match state.step(lexer.next_token()) {
            Next::Scan(more) => state = more,
            Next::Fail(message) => return Err(message),
            Next::Parse { state, input: _ } => return Ok(state.tokens().clone()),
        }
    }
}

/// One whole run over `code`.
fn compile(code: &str) -> Result<Outcome<Tok, Stmt>, String> {
    let mut lexer = Lexer::new(code);
    let mut state = Lexing::start();
    loop {
        match state.step(lexer.next_token()) {
            Next::Scan(more) => state = more,
            Next::Fail(message) => return Err(message),
            Next::Parse { state, input } => return Ok(state.step(parse(input))),
        }
    }
}

fn ident(name: &str) -> Token<Tok> {
    Token::Item(Tok::Ident(name.to_string()))
}

fn sentinel_positions(tokens: &[Token<Tok>]) -> Vec<usize> {
    let mut found = Vec::new();
    for (i, token) in tokens.iter().enumerate() {
        if token.is_end() {
            found.push(i);
        }
    }
    found
}

#[test]
fn assignment_gives_tokens_and_tree() {
    let outcome = compile("x = 1").unwrap();
    assert_eq!(
        outcome.tokens,
        vec![ident("x"), Token::Item(Tok::Assign), Token::Item(Tok::Number(1)), Token::End]
    );
    assert_eq!(outcome.ast, Some(vec![Stmt::Assign { name: "x".to_string(), value: 1 }]));
    assert_eq!(outcome.error, None);
}

#[test]
fn incomplete_expression_gives_tokens_and_message() {
    let outcome = compile("x = ").unwrap();
    assert_eq!(outcome.tokens, vec![ident("x"), Token::Item(Tok::Assign), Token::End]);
    assert_eq!(outcome.ast, None);
    assert_eq!(outcome.error, Some("Erro de Sintaxe: valor esperado para x".to_string()));
}

#[test]
fn empty_input_gives_only_the_sentinel() {
    let outcome = compile("").unwrap();
    assert_eq!(outcome.tokens, vec![Token::End]);
    assert_eq!(outcome.ast, Some(vec![]));
    assert_eq!(outcome.error, None);
}

#[test]
fn empty_input_with_a_failing_parser_still_succeeds() {
    let state: Lexing<Tok> = Lexing::start();
    let outcome: Outcome<Tok, Stmt> = match state.step(Scanned::Token(Token::End)) {
        Next::Parse { state, input } => {
            assert_eq!(input, vec![Token::End]);
            state.step(Parsed::Fault(Payload::Literal("programa vazio")))
        }
        other => panic!("the sentinel gave {:?}", other),
    };
    assert_eq!(outcome.tokens, vec![Token::End]);
    assert_eq!(outcome.ast, None);
    assert_eq!(outcome.error, Some("Erro de Sintaxe: programa vazio".to_string()));
}

#[test]
fn blank_input_gives_only_the_sentinel() {
    assert_eq!(tokenize("  \n\t ").unwrap(), vec![Token::End]);
}

#[test]
fn tokenizer_failure_fails_the_call() {
    let failed = compile("x = #");
    assert_eq!(failed.err(), Some("Erro fatal durante a análise léxica.".to_string()));
}

#[test]
fn tokenizer_failure_at_the_first_request_fails_the_call() {
    let state: Lexing<Tok> = Lexing::start();
    match state.step(Scanned::Fault) {
        Next::Fail(message) => assert_eq!(message, "Erro fatal durante a análise léxica."),
        other => panic!("a failure of the tokenizer gave {:?}", other),
    }
}

#[test]
fn tokenizer_failure_differs_from_syntax_failure() {
    let fatal = compile("?");
    let syntax = compile("= 1");
    assert!(fatal.is_err());
    let outcome = syntax.unwrap();
    assert_eq!(outcome.error, Some("Erro de Sintaxe: identificador esperado".to_string()));
    assert_ne!(outcome.error, fatal.err());
}

#[test]
fn lexed_tokens_end_with_the_only_sentinel() {
    for code in ["", "x", "x = 1", "a = 1 b = 2", "= = =", "7 seven 7"] {
        let tokens = tokenize(code).unwrap();
        assert!(!tokens.is_empty());
        assert_eq!(sentinel_positions(&tokens), vec![tokens.len() - 1]);
    }
}

#[test]
fn lexing_stops_at_the_sentinel() {
    let state: Lexing<Tok> = Lexing::start();
    let state = match state.step(Scanned::Token(ident("a"))) {
        Next::Scan(more) => more,
        other => panic!("an item gave {:?}", other),
    };
    assert_eq!(state.tokens(), &vec![ident("a")]);
    match state.step(Scanned::Token(Token::End)) {
        Next::Parse { state, input } => {
            assert_eq!(state.tokens(), &vec![ident("a"), Token::End]);
            assert_eq!(input, vec![ident("a"), Token::End]);
        }
        other => panic!("the sentinel gave {:?}", other),
    }
}

#[test]
fn a_new_run_holds_no_token() {
    let state: Lexing<Tok> = Lexing::start();
    assert!(state.tokens().is_empty());
}

#[test]
fn an_item_keeps_the_run_lexing() {
    let mut state: Lexing<Tok> = Lexing::start();
    for n in 0..100i64 {
        state = match state.step(Scanned::Token(Token::Item(Tok::Number(n)))) {
            Next::Scan(more) => more,
            other => panic!("an item gave {:?}", other),
        };
    }
    assert_eq!(state.tokens().len(), 100);
    assert_eq!(state.tokens()[99], Token::Item(Tok::Number(99)));
    assert_eq!(sentinel_positions(state.tokens()), Vec::<usize>::new());
}

#[test]
fn tokens_survive_a_parser_failure() {
    for code in ["x = ", "x 1", "= 1", "x = 1 y", "1"] {
        let outcome = compile(code).unwrap();
        assert!(outcome.error.is_some());
        assert_eq!(outcome.tokens, tokenize(code).unwrap());
    }
}

#[test]
fn tokens_survive_a_parser_success() {
    for code in ["", "x = 1", "a = 1 b = 22 c = 333"] {
        let outcome = compile(code).unwrap();
        assert!(outcome.ast.is_some());
        assert_eq!(outcome.tokens, tokenize(code).unwrap());
    }
}

#[test]
fn exactly_one_of_tree_and_message() {
    for code in ["", "x = 1", "x = ", "x", "= 1", "a = 1 b = 2", "a = 1 b"] {
        let outcome = compile(code).unwrap();
        assert_ne!(outcome.ast.is_some(), outcome.error.is_some());
    }
}

#[test]
fn same_source_gives_equal_outcomes() {
    for code in ["", "x = 1", "x = ", "a = 1 b = 2", "2 = a"] {
        let first = compile(code).unwrap();
        let second = compile(code).unwrap();
        assert_eq!(first.tokens, second.tokens);
        assert_eq!(first.ast, second.ast);
        assert_eq!(first.error, second.error);
    }
    assert_eq!(compile("a = $").err(), compile("a = $").err());
}

#[test]
fn literal_and_owned_text_give_the_same_outcome() {
    let as_literal = finish(Parsed::Fault(Payload::Literal("fim inesperado")));
    let as_owned = finish(Parsed::Fault(Payload::Owned("fim inesperado".to_string())));
    assert_eq!(as_literal.tokens, as_owned.tokens);
    assert_eq!(as_literal.ast, as_owned.ast);
    assert_eq!(as_literal.error, as_owned.error);
    assert_eq!(as_literal.error, Some("Erro de Sintaxe: fim inesperado".to_string()));
}

/// The outcome of a run over `x =` whose parser gave `answer`.
fn finish(answer: Parsed<Stmt>) -> Outcome<Tok, Stmt> {
    let mut lexer = Lexer::new("x =");
    let mut state = Lexing::start();
    loop {
        match state.step(lexer.next_token()) {
            Next::Scan(more) => state = more,
            Next::Fail(message) => panic!("lexing failed: {}", message),
            Next::Parse { state, input: _ } => return state.step(answer),
        }
    }
}

#[test]
fn parser_failure_without_text_gives_the_fixed_text_behind_the_prefix() {
    let outcome = finish(Parsed::Fault(Payload::Other));
    assert_eq!(outcome.tokens, vec![ident("x"), Token::Item(Tok::Assign), Token::End]);
    assert_eq!(outcome.ast, None);
    assert_eq!(
        outcome.error,
        Some("Erro de Sintaxe: Erro de compilação desconhecido.".to_string())
    );
}

#[test]
fn tree_is_returned_as_it_came() {
    let tree = vec![
        Stmt::Assign { name: "b".to_string(), value: 2 },
        Stmt::Assign { name: "a".to_string(), value: 1 },
        Stmt::Assign { name: "b".to_string(), value: 2 },
    ];
    let outcome = finish(Parsed::Tree(tree.clone()));
    assert_eq!(outcome.ast, Some(tree));
    assert_eq!(outcome.error, None);
}

#[test]
fn parser_gets_a_copy_of_its_own() {
    let mut lexer = Lexer::new("x = 1");
    let mut state = Lexing::start();
    let (state, mut input) = loop {
        match state.step(lexer.next_token()) {
            Next::Scan(more) => state = more,
            Next::Fail(message) => panic!("lexing failed: {}", message),
            Next::Parse { state, input } => break (state, input),
        }
    };
    assert_eq!(&input, state.tokens());
    input.clear();
    let outcome: Outcome<Tok, Stmt> = state.step(Parsed::Tree(Vec::new()));
    assert_eq!(outcome.tokens.len(), 4);
}
