use pendora::token::{tokenise, Token};

#[test]
fn words_and_punctuation() {
    let tokens = tokenise(String::from("Object User { }; "));
    assert_eq!(
        tokens,
        vec![
            Token::Word(String::from("Object")),
            Token::Word(String::from("User")),
            Token::Encapsulator('{'),
            Token::Encapsulator('}'),
            Token::Split(';'),
        ]
    );
}

#[test]
fn booleans_are_special_cased() {
    let tokens = tokenise(String::from("true True false False truthy"));
    assert_eq!(
        tokens,
        vec![
            Token::Boolean(true),
            Token::Boolean(true),
            Token::Boolean(false),
            Token::Boolean(false),
            Token::Word(String::from("truthy")),
        ]
    );
}

#[test]
fn word_characters_inside_a_word() {
    let tokens = tokenise(String::from("GLOBAL.id int? snake_case-x"));
    assert_eq!(
        tokens,
        vec![
            Token::Word(String::from("GLOBAL.id")),
            Token::Word(String::from("int?")),
            Token::Word(String::from("snake_case-x")),
        ]
    );
}

#[test]
fn a_word_cannot_start_with_a_digit_or_punctuation() {
    // the digit run is taken first, then the letter run
    let tokens = tokenise(String::from("12abc"));
    assert_eq!(
        tokens,
        vec![Token::Integer(12), Token::Word(String::from("abc"))]
    );
}

#[test]
fn string_literals_take_everything_to_the_closing_quote() {
    let tokens = tokenise(String::from("route(\"/user/{id}\")"));
    assert_eq!(
        tokens,
        vec![
            Token::Word(String::from("route")),
            Token::Encapsulator('('),
            Token::StringLiteral(String::from("/user/{id}")),
            Token::Encapsulator(')'),
        ]
    );
}

#[test]
fn unterminated_quote_takes_the_rest_of_the_input() {
    let tokens = tokenise(String::from("x \"abc"));
    assert_eq!(
        tokens,
        vec![
            Token::Word(String::from("x")),
            Token::StringLiteral(String::from("abc")),
        ]
    );
}

#[test]
fn digit_runs_become_integers() {
    let tokens = tokenise(String::from("0 42 007"));
    assert_eq!(
        tokens,
        vec![Token::Integer(0), Token::Integer(42), Token::Integer(7)]
    );
}

#[test]
fn overlong_numerals_wrap_modulo_two_to_the_thirty_two() {
    let tokens = tokenise(String::from("99999999999"));
    assert_eq!(tokens, vec![Token::Integer(1215752191)]);
}

#[test]
fn unrecognised_characters_are_discarded() {
    let tokens = tokenise(String::from("a & b ! c\t\n% d"));
    assert_eq!(
        tokens,
        vec![
            Token::Word(String::from("a")),
            Token::Word(String::from("b")),
            Token::Word(String::from("c")),
            Token::Word(String::from("d")),
        ]
    );
}

#[test]
fn empty_input_gives_no_tokens() {
    let tokens = tokenise(String::new());
    assert!(tokens.is_empty());
}

#[test]
fn lexing_is_deterministic_across_calls() {
    let text = "Global App { headRoute(\"/api\") shape({id: int,}) };";
    let first = tokenise(String::from(text));
    let second = tokenise(String::from(text));
    assert_eq!(first, second);
}

#[test]
fn word_run_at_end_of_input_still_yields_its_token() {
    let tokens = tokenise(String::from("abc"));
    assert_eq!(tokens, vec![Token::Word(String::from("abc"))]);
}
