use pendora::errors::{ParserError, ParserErrorLocation};
use pendora::parser::{
    parse_method_arguments, parse_method_shape_value, parse_object_methods, parse_object_shape,
    parse_request_shape, parse_request_type, parse_return_shape, parse_type,
};
use pendora::token::{tokenise, Token};
use pendora::types::{RequestType, Type, Value};

#[test]
fn type_table_accepts_both_spellings() {
    assert_eq!(parse_type(String::from("int")).unwrap(), Type::Integer);
    assert_eq!(parse_type(String::from("Integer")).unwrap(), Type::Integer);
    assert_eq!(parse_type(String::from("bool")).unwrap(), Type::Boolean);
    assert_eq!(parse_type(String::from("Boolean")).unwrap(), Type::Boolean);
    assert_eq!(parse_type(String::from("str")).unwrap(), Type::String);
    assert_eq!(parse_type(String::from("String")).unwrap(), Type::String);
    assert_eq!(parse_type(String::from("int?")).unwrap(), Type::NullableInteger);
    assert_eq!(parse_type(String::from("Integer?")).unwrap(), Type::NullableInteger);
    assert_eq!(parse_type(String::from("bool?")).unwrap(), Type::NullableBoolean);
    assert_eq!(parse_type(String::from("Boolean?")).unwrap(), Type::NullableBoolean);
    assert_eq!(parse_type(String::from("str?")).unwrap(), Type::NullableString);
    assert_eq!(parse_type(String::from("String?")).unwrap(), Type::NullableString);
}

#[test]
fn unknown_type_lists_the_six_base_spellings() {
    let err = parse_type(String::from("float")).unwrap_err();
    assert_eq!(
        err,
        ParserError::InvalidSymbolBody {
            location: ParserErrorLocation::Type,
            incorrect_symbol: Token::Word(String::from("float")),
            valid_symbols: vec![
                String::from("int"),
                String::from("bool"),
                String::from("str"),
                String::from("Integer"),
                String::from("Boolean"),
                String::from("String"),
            ],
        }
    );
}

#[test]
fn verb_table_accepts_the_four_verbs() {
    assert_eq!(parse_request_type(String::from("GET")).unwrap(), RequestType::GET);
    assert_eq!(parse_request_type(String::from("POST")).unwrap(), RequestType::POST);
    assert_eq!(parse_request_type(String::from("PATCH")).unwrap(), RequestType::PATCH);
    assert_eq!(parse_request_type(String::from("DELETE")).unwrap(), RequestType::DELETE);
}

#[test]
fn unknown_verb_lists_the_four_verbs() {
    let err = parse_request_type(String::from("PUT")).unwrap_err();
    assert_eq!(
        err,
        ParserError::InvalidSymbolBody {
            location: ParserErrorLocation::RequestType,
            incorrect_symbol: Token::Word(String::from("PUT")),
            valid_symbols: vec![
                String::from("GET"),
                String::from("POST"),
                String::from("PATCH"),
                String::from("DELETE"),
            ],
        }
    );
}

#[test]
fn shape_value_prefixes_select_the_source() {
    assert_eq!(
        parse_method_shape_value(String::from("GLOBAL.token")),
        Value::Global(String::from("token"))
    );
    assert_eq!(
        parse_method_shape_value(String::from("PARENT.id")),
        Value::Parent(String::from("id"))
    );
    assert_eq!(
        parse_method_shape_value(String::from("userId")),
        Value::Argument(String::from("userId"))
    );
    // the prefix must match exactly; a shorter word is an argument name
    assert_eq!(
        parse_method_shape_value(String::from("GLOBAL")),
        Value::Argument(String::from("GLOBAL"))
    );
}

#[test]
fn argument_list_decodes_in_chunks_of_three() {
    let tokens = tokenise(String::from("int userId, str name,"));
    let args = parse_method_arguments(tokens).unwrap();
    assert_eq!(args.entry_count(), 2);
    assert_eq!(args.get("userId"), Some(&Type::Integer));
    assert_eq!(args.get("name"), Some(&Type::String));
}

#[test]
fn argument_list_final_comma_is_optional() {
    let tokens = tokenise(String::from("int userId, bool? flag"));
    let args = parse_method_arguments(tokens).unwrap();
    assert_eq!(args.get("userId"), Some(&Type::Integer));
    assert_eq!(args.get("flag"), Some(&Type::NullableBoolean));
}

#[test]
fn argument_list_bad_chunk_length() {
    let tokens = tokenise(String::from("int userId, str"));
    let err = parse_method_arguments(tokens).unwrap_err();
    assert_eq!(
        err,
        ParserError::BadLength {
            location: ParserErrorLocation::MethodArguments,
            incorrect_length: 1,
            valid_lengths: vec![3, 2],
        }
    );
}

#[test]
fn argument_list_propagates_an_unknown_type() {
    let tokens = tokenise(String::from("float x,"));
    let err = parse_method_arguments(tokens).unwrap_err();
    assert!(matches!(
        err,
        ParserError::InvalidSymbolBody { location: ParserErrorLocation::Type, .. }
    ));
}

#[test]
fn object_shape_decodes_names_and_types() {
    let tokens = tokenise(String::from("{id: int, name: str,}"));
    let shape = parse_object_shape(tokens).unwrap();
    assert_eq!(shape.get("id"), Some(&Type::Integer));
    assert_eq!(shape.get("name"), Some(&Type::String));
}

#[test]
fn object_shape_needs_its_opening_brace() {
    let tokens = tokenise(String::from("(id: int,)"));
    let err = parse_object_shape(tokens).unwrap_err();
    assert_eq!(
        err,
        ParserError::PoorClosure {
            location: ParserErrorLocation::ObjectShape,
            incorrect_encap: Token::Encapsulator('('),
            correct_encap: Token::Encapsulator('{'),
        }
    );
}

#[test]
fn object_shape_bad_chunk_length() {
    let tokens = tokenise(String::from("{id: int, name:}"));
    let err = parse_object_shape(tokens).unwrap_err();
    assert_eq!(
        err,
        ParserError::BadLength {
            location: ParserErrorLocation::ObjectShape,
            incorrect_length: 2,
            valid_lengths: vec![4, 3],
        }
    );
}

#[test]
fn object_methods_keep_source_order() {
    let tokens = tokenise(String::from("[GetUser, AddUser, DropUser]"));
    let methods = parse_object_methods(tokens).unwrap();
    assert_eq!(
        methods,
        vec![
            String::from("GetUser"),
            String::from("AddUser"),
            String::from("DropUser"),
        ]
    );
}

#[test]
fn object_methods_need_their_opening_bracket() {
    let tokens = tokenise(String::from("(GetUser,)"));
    let err = parse_object_methods(tokens).unwrap_err();
    assert_eq!(
        err,
        ParserError::PoorClosure {
            location: ParserErrorLocation::ObjectMethods,
            incorrect_encap: Token::Encapsulator('('),
            correct_encap: Token::Encapsulator('['),
        }
    );
}

#[test]
fn request_shape_decodes_value_references() {
    let tokens = tokenise(String::from("{id: userId, token: GLOBAL.token, owner: PARENT.id,}"));
    let shape = parse_request_shape(tokens).unwrap();
    assert_eq!(shape.get("id"), Some(&Value::Argument(String::from("userId"))));
    assert_eq!(shape.get("token"), Some(&Value::Global(String::from("token"))));
    assert_eq!(shape.get("owner"), Some(&Value::Parent(String::from("id"))));
}

#[test]
fn return_shape_aliases_are_optional() {
    let tokens = tokenise(String::from("{name, email: \"emailAlias\",}"));
    let shape = parse_return_shape(tokens).unwrap();
    assert_eq!(shape.get("name"), Some(&None));
    assert_eq!(shape.get("email"), Some(&Some(String::from("emailAlias"))));
}

#[test]
fn return_shape_bad_chunk_length() {
    let tokens = tokenise(String::from("{name: \"a\" extra,}"));
    let err = parse_return_shape(tokens).unwrap_err();
    assert_eq!(
        err,
        ParserError::BadLength {
            location: ParserErrorLocation::ReturnShape,
            incorrect_length: 4,
            valid_lengths: vec![3, 1, 0],
        }
    );
}

#[test]
fn return_shape_alias_must_be_a_string_literal() {
    let tokens = tokenise(String::from("{email: emailAlias,}"));
    let err = parse_return_shape(tokens).unwrap_err();
    assert_eq!(
        err,
        ParserError::MisplacedSymbol {
            location: ParserErrorLocation::ReturnShape,
            incorrect_symbol: Token::Word(String::from("emailAlias")),
            correct_symbol: Token::StringLiteral(String::from("return_value_alias")),
        }
    );
}

#[test]
fn duplicate_keys_are_last_write_wins() {
    let tokens = tokenise(String::from("{id: int, id: str,}"));
    let shape = parse_object_shape(tokens).unwrap();
    assert_eq!(shape.get("id"), Some(&Type::String));
}
