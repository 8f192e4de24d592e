use pendora::errors::{ParserError, ParserErrorLocation};
use pendora::parser::{parse_method, parse_type};
use pendora::token::{tokenise, Token};

#[test]
fn location_phrases() {
    assert_eq!(
        ParserErrorLocation::Project { file_name: String::from("x.pendora") }.describe(),
        "a project (x.pendora)"
    );
    assert_eq!(ParserErrorLocation::Global.describe(), "a global object");
    assert_eq!(ParserErrorLocation::Object.describe(), "an object");
    assert_eq!(ParserErrorLocation::Method.describe(), "a method");
    assert_eq!(
        ParserErrorLocation::MethodInternal.describe(),
        "a method's internal"
    );
    assert_eq!(
        ParserErrorLocation::MethodArguments.describe(),
        "a method's arguments"
    );
    assert_eq!(ParserErrorLocation::Type.describe(), "a Pendora type");
    assert_eq!(
        ParserErrorLocation::RequestType.describe(),
        "a HTTP request type"
    );
    assert_eq!(
        ParserErrorLocation::RequestShape.describe(),
        "a method's request shape"
    );
    assert_eq!(
        ParserErrorLocation::MethodShapeValue.describe(),
        "a method shape value"
    );
    assert_eq!(ParserErrorLocation::ReturnShape.describe(), "a method's shape");
    assert_eq!(
        ParserErrorLocation::ObjectMethods.describe(),
        "an object's methods list"
    );
    assert_eq!(ParserErrorLocation::ObjectShape.describe(), "an object's shape");
}

#[test]
fn token_descriptions() {
    assert_eq!(Token::Integer(42).describe(), "Integer(42)");
    assert_eq!(Token::Integer(0).describe(), "Integer(0)");
    assert_eq!(Token::Integer(4294967295).describe(), "Integer(4294967295)");
    assert_eq!(Token::Boolean(true).describe(), "Boolean(true)");
    assert_eq!(Token::Boolean(false).describe(), "Boolean(false)");
    assert_eq!(
        Token::StringLiteral(String::from("/api")).describe(),
        "StringLiteral(\"/api\")"
    );
    assert_eq!(Token::Word(String::from("shape")).describe(), "Word(shape)");
    assert_eq!(Token::Encapsulator('{').describe(), "Encapsulator('{')");
    assert_eq!(Token::Split(';').describe(), "Split(';')");
}

#[test]
fn a_poor_closure_renders_found_and_expected() {
    let tokens = tokenise(String::from("Method Bad userId,){ };"));
    let err = parse_method(tokens).unwrap_err();
    assert_eq!(
        err.describe(),
        "Incomplete or poor closure found while parsing a method. \
         Expected Encapsulator('(') but found Word(userId)"
    );
}

#[test]
fn an_invalid_symbol_renders_the_accepted_spellings() {
    let err = parse_type(String::from("float")).unwrap_err();
    assert_eq!(
        err.describe(),
        "Invalid symbol content found while parsing a Pendora type. \
         Found Word(float) but expected [\"int\", \"bool\", \"str\", \"Integer\", \"Boolean\", \"String\"]."
    );
}

#[test]
fn a_bad_length_renders_the_accepted_lengths() {
    let err = ParserError::BadLength {
        location: ParserErrorLocation::MethodArguments,
        incorrect_length: 1,
        valid_lengths: vec![3, 2],
    };
    assert_eq!(
        err.describe(),
        "Incorrectly sized chunk found while parsing a method's arguments. \
         Expected length(s) [3, 2] but found length 1."
    );
}

#[test]
fn a_misplaced_symbol_renders_both_tokens() {
    let err = ParserError::MisplacedSymbol {
        location: ParserErrorLocation::Method,
        incorrect_symbol: Token::Split(','),
        correct_symbol: Token::Word(String::from("method_name")),
    };
    assert_eq!(
        err.describe(),
        "Wrong symbol found while parsing a method. \
         Expected Word(method_name) but found Split(',')."
    );
}

#[test]
fn a_missing_field_renders_its_name() {
    let err = ParserError::FieldNotExistent {
        location: ParserErrorLocation::Project { file_name: String::from("entire project") },
        missing_field: String::from("Global"),
    };
    assert_eq!(
        err.describe(),
        "Required field (Global) unable to be found while parsing a project (entire project)."
    );
}

#[test]
fn an_unexpected_end_renders_the_expected_token() {
    let err = ParserError::UnexpectedEnd {
        location: ParserErrorLocation::Method,
        expected: Token::Split(';'),
    };
    assert_eq!(
        err.describe(),
        "Unexpected end of input while parsing a method. Expected Split(';')."
    );
}
