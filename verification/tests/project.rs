use pendora::errors::{ParserError, ParserErrorLocation};
use pendora::parser::parse_project;
use pendora::token::Token;
use pendora::types::Type;

fn file(name: &str, text: &str) -> (String, String) {
    (String::from(name), String::from(text))
}

#[test]
fn a_full_project_assembles() {
    let files = vec![
        file(
            "app.pendora",
            "Global App { headRoute(\"/api\") shape({id: int,}) methods([GetUser,]) };",
        ),
        file(
            "user.pendora",
            "Object User { shape({id: int, name: str,}) methods([GetUser,]) };",
        ),
        file(
            "get_user.pendora",
            "Method GetUser(int userId,){ route(\"/user\") request<GET>({id: userId,}) return<User>({name,}) };",
        ),
    ];
    let project = parse_project(files).unwrap();
    assert_eq!(project.global.name, "App");
    assert_eq!(project.global.head_route, "/api");
    let user = project.objects.get("User").unwrap();
    assert_eq!(user.shape.get("name"), Some(&Type::String));
    let get_user = project.methods.get("GetUser").unwrap();
    assert_eq!(get_user.route, "/user");
}

#[test]
fn unknown_leading_keyword_names_the_file_and_the_three_spellings() {
    let files = vec![
        file("widget.pendora", "Widget W { };"),
    ];
    let err = parse_project(files).unwrap_err();
    assert_eq!(
        err,
        ParserError::InvalidSymbolBody {
            location: ParserErrorLocation::Project {
                file_name: String::from("widget.pendora"),
            },
            incorrect_symbol: Token::Word(String::from("Widget")),
            valid_symbols: vec![
                String::from("Global"),
                String::from("Object"),
                String::from("Method"),
            ],
        }
    );
}

#[test]
fn a_file_opening_with_a_non_word_is_a_misplaced_symbol() {
    let files = vec![file("odd.pendora", "{ Global App };")];
    let err = parse_project(files).unwrap_err();
    assert_eq!(
        err,
        ParserError::MisplacedSymbol {
            location: ParserErrorLocation::Project { file_name: String::from("odd.pendora") },
            incorrect_symbol: Token::Encapsulator('{'),
            correct_symbol: Token::Word(String::new()),
        }
    );
}

#[test]
fn a_project_without_a_global_is_rejected() {
    let files = vec![
        file(
            "user.pendora",
            "Object User { shape({id: int,}) methods([GetUser,]) };",
        ),
        file(
            "get_user.pendora",
            "Method GetUser(int userId,){ route(\"/user\") };",
        ),
    ];
    let err = parse_project(files).unwrap_err();
    assert_eq!(
        err,
        ParserError::FieldNotExistent {
            location: ParserErrorLocation::Project {
                file_name: String::from("entire project"),
            },
            missing_field: String::from("Global"),
        }
    );
}

#[test]
fn an_empty_project_is_rejected_for_its_missing_global() {
    let err = parse_project(Vec::new()).unwrap_err();
    assert!(matches!(err, ParserError::FieldNotExistent { .. }));
}

#[test]
fn a_later_file_overwrites_an_earlier_declaration_of_the_same_name() {
    let files = vec![
        file("app.pendora", "Global App { headRoute(\"/api\") };"),
        file("user_a.pendora", "Object User { shape({id: int,}) };"),
        file("user_b.pendora", "Object User { shape({id: str,}) };"),
    ];
    let project = parse_project(files).unwrap();
    let user = project.objects.get("User").unwrap();
    assert_eq!(user.shape.get("id"), Some(&Type::String));
}

#[test]
fn a_second_global_overwrites_the_first() {
    let files = vec![
        file("a.pendora", "Global App { headRoute(\"/v1\") };"),
        file("b.pendora", "Global App { headRoute(\"/v2\") };"),
    ];
    let project = parse_project(files).unwrap();
    assert_eq!(project.global.head_route, "/v2");
}

#[test]
fn the_first_error_aborts_the_whole_parse() {
    let files = vec![
        file("bad.pendora", "Object User x };"),
        file("app.pendora", "Global App { headRoute(\"/api\") };"),
    ];
    let err = parse_project(files).unwrap_err();
    assert_eq!(
        err,
        ParserError::PoorClosure {
            location: ParserErrorLocation::Object,
            incorrect_encap: Token::Word(String::from("x")),
            correct_encap: Token::Encapsulator('{'),
        }
    );
}

#[test]
fn an_empty_file_is_an_unexpected_end() {
    let files = vec![file("empty.pendora", "")];
    let err = parse_project(files).unwrap_err();
    assert_eq!(
        err,
        ParserError::UnexpectedEnd {
            location: ParserErrorLocation::Project { file_name: String::from("empty.pendora") },
            expected: Token::Word(String::new()),
        }
    );
}
