use pendora::errors::{ParserError, ParserErrorLocation};
use pendora::parser::{parse_global, parse_method, parse_method_internal, parse_object};
use pendora::token::{tokenise, Token};
use pendora::types::{RequestType, Type, Value};

#[test]
fn scenario_object() {
    let tokens = tokenise(String::from(
        "Object User { shape({id: int, name: str,}) methods([GetUser,]) };",
    ));
    let object = parse_object(tokens).unwrap();
    assert_eq!(object.name, "User");
    assert_eq!(object.shape.get("id"), Some(&Type::Integer));
    assert_eq!(object.shape.get("name"), Some(&Type::String));
    assert_eq!(object.methods, vec![String::from("GetUser")]);
}

#[test]
fn scenario_method() {
    let tokens = tokenise(String::from(
        "Method GetUser(int userId,){ route(\"/user\") request<GET>({id: userId,}) return<User>({name, email: \"emailAlias\",}) };",
    ));
    let method = parse_method(tokens).unwrap();
    assert_eq!(method.name, "GetUser");
    assert_eq!(method.arguments.get("userId"), Some(&Type::Integer));
    assert_eq!(method.arguments.entry_count(), 1);
    assert_eq!(method.route, "/user");
    assert_eq!(method.request_type, RequestType::GET);
    assert_eq!(
        method.request_shape.get("id"),
        Some(&Value::Argument(String::from("userId")))
    );
    assert_eq!(method.return_object, "User");
    assert_eq!(method.return_shape.get("name"), Some(&None));
    assert_eq!(
        method.return_shape.get("email"),
        Some(&Some(String::from("emailAlias")))
    );
}

#[test]
fn scenario_global() {
    let tokens = tokenise(String::from(
        "Global App { headRoute(\"/api\") shape({id: int,}) methods([GetUser,]) };",
    ));
    let global = parse_global(tokens).unwrap();
    assert_eq!(global.name, "App");
    assert_eq!(global.head_route, "/api");
    assert_eq!(global.shape.get("id"), Some(&Type::Integer));
    assert_eq!(global.methods, vec![String::from("GetUser")]);
}

#[test]
fn scenario_method_missing_paren() {
    let tokens = tokenise(String::from("Method Bad userId,){ route(\"/x\") };"));
    let err = parse_method(tokens).unwrap_err();
    assert_eq!(
        err,
        ParserError::PoorClosure {
            location: ParserErrorLocation::Method,
            incorrect_encap: Token::Word(String::from("userId")),
            correct_encap: Token::Encapsulator('('),
        }
    );
}

#[test]
fn method_keyword_must_open_the_declaration() {
    let tokens = tokenise(String::from("Methodx GetUser(){};"));
    let err = parse_method(tokens).unwrap_err();
    assert_eq!(
        err,
        ParserError::InvalidSymbolBody {
            location: ParserErrorLocation::Method,
            incorrect_symbol: Token::Word(String::from("Methodx")),
            valid_symbols: vec![String::from("Method")],
        }
    );
}

#[test]
fn object_missing_brace_is_a_poor_closure() {
    let tokens = tokenise(String::from("Object User shape({id: int,}) };"));
    let err = parse_object(tokens).unwrap_err();
    assert_eq!(
        err,
        ParserError::PoorClosure {
            location: ParserErrorLocation::Object,
            incorrect_encap: Token::Word(String::from("shape")),
            correct_encap: Token::Encapsulator('{'),
        }
    );
}

#[test]
fn global_missing_brace_is_a_poor_closure() {
    let tokens = tokenise(String::from("Global App headRoute(\"/api\") };"));
    let err = parse_global(tokens).unwrap_err();
    assert_eq!(
        err,
        ParserError::PoorClosure {
            location: ParserErrorLocation::Global,
            incorrect_encap: Token::Word(String::from("headRoute")),
            correct_encap: Token::Encapsulator('{'),
        }
    );
}

#[test]
fn method_directives_may_come_in_any_order() {
    let tokens = tokenise(String::from(
        "Method M(){ return<User>({name,}) route(\"/m\") request<POST>({id: PARENT.id,}) };",
    ));
    let method = parse_method(tokens).unwrap();
    assert_eq!(method.route, "/m");
    assert_eq!(method.request_type, RequestType::POST);
    assert_eq!(method.return_object, "User");
}

#[test]
fn method_directives_default_when_absent() {
    let tokens = tokenise(String::from("Method M(){ route(\"/m\") };"));
    let method = parse_method(tokens).unwrap();
    assert_eq!(method.route, "/m");
    assert_eq!(method.request_type, RequestType::GET);
    assert_eq!(method.return_object, "");
    assert_eq!(method.request_shape.entry_count(), 0);
    assert_eq!(method.return_shape.entry_count(), 0);
}

#[test]
fn repeated_directive_overwrites_the_earlier_value() {
    let tokens = tokenise(String::from(
        "Method M(){ route(\"/first\") route(\"/second\") };",
    ));
    let method = parse_method(tokens).unwrap();
    assert_eq!(method.route, "/second");
}

#[test]
fn unknown_method_directive_lists_the_three_directives() {
    let tokens = tokenise(String::from("Method M(){ paths(\"/m\") };"));
    let err = parse_method(tokens).unwrap_err();
    assert_eq!(
        err,
        ParserError::InvalidSymbolBody {
            location: ParserErrorLocation::MethodInternal,
            incorrect_symbol: Token::Word(String::from("paths")),
            valid_symbols: vec![
                String::from("route"),
                String::from("request"),
                String::from("return"),
            ],
        }
    );
}

#[test]
fn unknown_object_directive_lists_the_two_directives() {
    let tokens = tokenise(String::from("Object User { fields({id: int,}) };"));
    let err = parse_object(tokens).unwrap_err();
    assert_eq!(
        err,
        ParserError::InvalidSymbolBody {
            location: ParserErrorLocation::Object,
            incorrect_symbol: Token::Word(String::from("fields")),
            valid_symbols: vec![String::from("shape"), String::from("methods")],
        }
    );
}

#[test]
fn unknown_global_directive_lists_the_three_directives() {
    let tokens = tokenise(String::from("Global App { baseRoute(\"/api\") };"));
    let err = parse_global(tokens).unwrap_err();
    assert_eq!(
        err,
        ParserError::InvalidSymbolBody {
            location: ParserErrorLocation::Global,
            incorrect_symbol: Token::Word(String::from("baseRoute")),
            valid_symbols: vec![
                String::from("headRoute"),
                String::from("methods"),
                String::from("shape"),
            ],
        }
    );
}

#[test]
fn request_directive_needs_its_opening_angle() {
    let tokens = tokenise(String::from("Method M(){ request(GET)({id: x,}) };"));
    let err = parse_method(tokens).unwrap_err();
    assert_eq!(
        err,
        ParserError::PoorClosure {
            location: ParserErrorLocation::MethodInternal,
            incorrect_encap: Token::Encapsulator('('),
            correct_encap: Token::Encapsulator('<'),
        }
    );
}

#[test]
fn input_ending_before_the_terminator_is_an_unexpected_end() {
    let tokens = tokenise(String::from("Method M(){ route(\"/m\") }"));
    let err = parse_method(tokens).unwrap_err();
    assert_eq!(
        err,
        ParserError::UnexpectedEnd {
            location: ParserErrorLocation::Method,
            expected: Token::Split(';'),
        }
    );
}

#[test]
fn unclosed_argument_list_is_an_unexpected_end() {
    let tokens = tokenise(String::from("Method M(int x,"));
    let err = parse_method(tokens).unwrap_err();
    assert_eq!(
        err,
        ParserError::UnexpectedEnd {
            location: ParserErrorLocation::Method,
            expected: Token::Encapsulator(')'),
        }
    );
}

#[test]
fn empty_method_body_is_an_unexpected_end() {
    // the captured block is only its own closing brace, which is dropped,
    // so the body decoder sees no tokens at all
    let tokens = tokenise(String::from("Method M(){};"));
    let err = parse_method(tokens).unwrap_err();
    assert_eq!(
        err,
        ParserError::UnexpectedEnd {
            location: ParserErrorLocation::MethodInternal,
            expected: Token::Word(String::new()),
        }
    );
}

#[test]
fn terminator_directly_after_the_brace_is_an_unexpected_end() {
    let tokens = tokenise(String::from("Method M(){;"));
    let err = parse_method(tokens).unwrap_err();
    assert_eq!(
        err,
        ParserError::UnexpectedEnd {
            location: ParserErrorLocation::Method,
            expected: Token::Encapsulator('}'),
        }
    );
}

#[test]
fn route_directive_requires_a_string_literal() {
    let tokens = tokenise(String::from("Method M(){ route(bare) };"));
    let err = parse_method(tokens).unwrap_err();
    assert_eq!(
        err,
        ParserError::MisplacedSymbol {
            location: ParserErrorLocation::MethodInternal,
            incorrect_symbol: Token::Word(String::from("bare")),
            correct_symbol: Token::StringLiteral(String::from("route")),
        }
    );
}

#[test]
fn method_internal_decodes_a_flat_directive_sequence() {
    let tokens = tokenise(String::from("route(\"/r\") request<DELETE>({id: GLOBAL.id,})"));
    let internal = parse_method_internal(tokens).unwrap();
    assert_eq!(internal.route, "/r");
    assert_eq!(internal.request_type, RequestType::DELETE);
    assert_eq!(
        internal.request_shape.get("id"),
        Some(&Value::Global(String::from("id")))
    );
}
