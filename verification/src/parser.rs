//! The executable recursive-descent parser and the project assembler.
//!
//! Each function returns exactly what its `spec_parse_*` counterpart in
//! [`crate::grammar`] denotes, stated through the views of its result and
//! its error: success, the parsed value, the error variant and every field
//! of it are all pinned down by the one `ensures` clause.

use vstd::prelude::*;
use crate::dict::Dict;
use crate::errors::{ParserError, ParserErrorLocation, SpecError, SpecLocation};
use crate::grammar::{
    spec_assemble_loop, spec_args_loop, spec_global_directives_loop, spec_method_directives_loop,
    spec_method_internal_default, spec_names_loop, spec_object_directives_loop,
    spec_parse_global, spec_parse_method, spec_parse_method_arguments,
    spec_parse_method_internal, spec_parse_method_shape_value, spec_parse_object,
    spec_parse_object_methods, spec_parse_object_shape, spec_parse_project,
    spec_parse_request_shape, spec_parse_request_type, spec_parse_return_shape, spec_parse_type,
    spec_request_entries_loop, spec_return_entries_loop, spec_shape_entries_loop, tok_stop,
    type_spellings, verb_spellings, SpecMethodInternal,
};
use crate::scan::{lemma_scan_to_is, scan_to};
use crate::token::{str_eq, tokenise, SpecToken, Token};
use crate::types::{
    rview, Global, Method, MethodArguments, Object, ObjectShape, Project, RequestShape,
    RequestType, ReturnShape, Type, Value,
};
use vstd::string::StrSliceExecFns;
use vstd::string::StringExecFns;

verus! {

fn tok_is_word(t: &Token) -> (b: bool)
    ensures
        b == (t@ is Word),
{
    match t {
        Token::Word(_) => true,
        _ => false,
    }
}

fn tok_is_string_lit(t: &Token) -> (b: bool)
    ensures
        b == (t@ is StringLiteral),
{
    match t {
        Token::StringLiteral(_) => true,
        _ => false,
    }
}

fn tok_is_encap(t: &Token, c: char) -> (b: bool)
    ensures
        b == (t@ == SpecToken::Encapsulator(c)),
{
    match t {
        Token::Encapsulator(x) => *x == c,
        _ => false,
    }
}

fn tok_is_split(t: &Token, c: char) -> (b: bool)
    ensures
        b == (t@ == SpecToken::Split(c)),
{
    match t {
        Token::Split(x) => *x == c,
        _ => false,
    }
}

/// Scan for the first occurrence of the encapsulator `c` at or after
/// `start`, as the capture loops of the grammar do.
fn scan_encap(input: &Vec<Token>, start: usize, c: char) -> (j: usize)
    requires
        start <= input@.len(),
    ensures
        j == scan_to(input.deep_view(), start as int, tok_stop(SpecToken::Encapsulator(c))),
        start <= j <= input@.len(),
{
    let n = input.len();
    let mut j = start;
    while j < n && !tok_is_encap(&input[j], c)
        invariant
            start <= j <= n,
            n == input@.len(),
            forall|k: int| start <= k < j ==> input.deep_view()[k] != SpecToken::Encapsulator(c),
        decreases n - j,
    {
        j += 1;
    }
    proof {
        lemma_scan_to_is(
            input.deep_view(),
            start as int,
            tok_stop(SpecToken::Encapsulator(c)),
            j as int,
        );
    }
    j
}

/// Scan for the first occurrence of the split token `c` at or after `start`.
fn scan_split(input: &Vec<Token>, start: usize, c: char) -> (j: usize)
    requires
        start <= input@.len(),
    ensures
        j == scan_to(input.deep_view(), start as int, tok_stop(SpecToken::Split(c))),
        start <= j <= input@.len(),
{
    let n = input.len();
    let mut j = start;
    while j < n && !tok_is_split(&input[j], c)
        invariant
            start <= j <= n,
            n == input@.len(),
            forall|k: int| start <= k < j ==> input.deep_view()[k] != SpecToken::Split(c),
        decreases n - j,
    {
        j += 1;
    }
    proof {
        lemma_scan_to_is(
            input.deep_view(),
            start as int,
            tok_stop(SpecToken::Split(c)),
            j as int,
        );
    }
    j
}

/// Clone the tokens of `input[from..to]`, the way the grammar captures a
/// bracketed sub-sequence before handing it to a sub-parser.
fn clone_range(input: &Vec<Token>, from: usize, to: usize) -> (r: Vec<Token>)
    requires
        from <= to <= input@.len(),
    ensures
        r.deep_view() == input.deep_view().subrange(from as int, to as int),
{
    let mut r: Vec<Token> = Vec::new();
    let mut k = from;
    while k < to
        invariant
            from <= k <= to <= input@.len(),
            r.deep_view() =~= input.deep_view().subrange(from as int, k as int),
        decreases to - k,
    {
        let ghost prev = r.deep_view();
        r.push(input[k].clone());
        proof {
            assert(r.deep_view() =~= prev.push(input.deep_view()[k as int]));
            assert(r.deep_view() =~= input.deep_view().subrange(from as int, k as int + 1));
        }
        k += 1;
    }
    r
}

/// The type-name table, accepting both spellings of each primitive and the
/// `?`-suffixed nullable forms.
pub fn parse_type(input: String) -> (r: Result<Type, ParserError>)
    ensures
        rview(&r) == spec_parse_type(input@),
{
    let s = input.as_str();
    if str_eq(s, "int") || str_eq(s, "Integer") {
        Ok(Type::Integer)
    } else if str_eq(s, "bool") || str_eq(s, "Boolean") {
        Ok(Type::Boolean)
    } else if str_eq(s, "str") || str_eq(s, "String") {
        Ok(Type::String)
    } else if str_eq(s, "int?") || str_eq(s, "Integer?") {
        Ok(Type::NullableInteger)
    } else if str_eq(s, "bool?") || str_eq(s, "Boolean?") {
        Ok(Type::NullableBoolean)
    } else if str_eq(s, "str?") || str_eq(s, "String?") {
        Ok(Type::NullableString)
    } else {
        let mut valid: Vec<String> = Vec::new();
        valid.push(String::from_str("int"));
        valid.push(String::from_str("bool"));
        valid.push(String::from_str("str"));
        valid.push(String::from_str("Integer"));
        valid.push(String::from_str("Boolean"));
        valid.push(String::from_str("String"));
        proof {
            assert(valid.deep_view() =~= type_spellings());
        }
        Err(ParserError::InvalidSymbolBody {
            location: ParserErrorLocation::Type,
            incorrect_symbol: Token::Word(input),
            valid_symbols: valid,
        })
    }
}

/// The verb table.
pub fn parse_request_type(input: String) -> (r: Result<RequestType, ParserError>)
    ensures
        rview(&r) == spec_parse_request_type(input@),
{
    let s = input.as_str();
    if str_eq(s, "GET") {
        Ok(RequestType::GET)
    } else if str_eq(s, "POST") {
        Ok(RequestType::POST)
    } else if str_eq(s, "PATCH") {
        Ok(RequestType::PATCH)
    } else if str_eq(s, "DELETE") {
        Ok(RequestType::DELETE)
    } else {
        let mut valid: Vec<String> = Vec::new();
        valid.push(String::from_str("GET"));
        valid.push(String::from_str("POST"));
        valid.push(String::from_str("PATCH"));
        valid.push(String::from_str("DELETE"));
        proof {
            assert(valid.deep_view() =~= verb_spellings());
        }
        Err(ParserError::InvalidSymbolBody {
            location: ParserErrorLocation::RequestType,
            incorrect_symbol: Token::Word(input),
            valid_symbols: valid,
        })
    }
}

/// The reference-prefix rule of a request-shape value: `GLOBAL.` and
/// `PARENT.` prefixes select the source, anything else is an argument name.
pub fn parse_method_shape_value(input: String) -> (r: Value)
    ensures
        r@ == spec_parse_method_shape_value(input@),
{
    let s = input.as_str();
    let n = s.unicode_len();
    if n >= 7 {
        let prefix = s.substring_char(0, 7);
        if str_eq(prefix, "GLOBAL.") {
            let rest = s.substring_char(7, n);
            return Value::Global(String::from_str(rest));
        }
        if str_eq(prefix, "PARENT.") {
            let rest = s.substring_char(7, n);
            return Value::Parent(String::from_str(rest));
        }
    }
    Value::Argument(input)
}

/// The argument-list decoder: chunks of three (`Type Word ','`), the final
/// chunk of two allowed to omit the comma, folded into the argument map.
pub fn parse_method_arguments(input: Vec<Token>) -> (r: Result<MethodArguments, ParserError>)
    ensures
        rview(&r) == spec_parse_method_arguments(input.deep_view()),
{
    let ghost ts = input.deep_view();
    let ghost target = spec_parse_method_arguments(ts);
    let mut result: MethodArguments = Dict::new();
    let n = input.len();
    let mut i: usize = 0;
    proof {
        assert(ts.skip(0) =~= ts);
    }
    while i < n
        invariant
            n == input@.len(),
            ts == input.deep_view(),
            target == spec_parse_method_arguments(ts),
            i <= n,
            spec_args_loop(ts.skip(i as int), result@) == target,
        decreases n - i,
    {
        let ghost rest = ts.skip(i as int);
        proof {
            assert(rest.len() == n - i);
            assert(forall|k: int| 0 <= k < rest.len() ==> rest[k] == ts[i + k]);
        }
        if n - i == 1 {
            let mut valid: Vec<usize> = Vec::new();
            valid.push(3);
            valid.push(2);
            let e = ParserError::BadLength {
                location: ParserErrorLocation::MethodArguments,
                incorrect_length: 1,
                valid_lengths: valid,
            };
            proof {
                assert(e.deep_view() == SpecError::BadLength {
                    location: SpecLocation::MethodArguments,
                    incorrect_length: 1usize,
                    valid_lengths: seq![3usize, 2usize],
                }) by {
                    assert(e.deep_view()->BadLength_valid_lengths =~= seq![3usize, 2usize]);
                }
            }
            return Err(e);
        }
        let ty_word = match &input[i] {
            Token::Word(w) => w.clone(),
            _ => {
                let e = ParserError::MisplacedSymbol {
                    location: ParserErrorLocation::MethodArguments,
                    incorrect_symbol: input[i].clone(),
                    correct_symbol: Token::Word(String::from_str("argument_type")),
                };
                return Err(e);
            },
        };
        let ty = match parse_type(ty_word) {
            Ok(t) => t,
            Err(e) => {
                return Err(e);
            },
        };
        let arg_name = match &input[i + 1] {
            Token::Word(w) => w.clone(),
            _ => {
                let e = ParserError::MisplacedSymbol {
                    location: ParserErrorLocation::MethodArguments,
                    incorrect_symbol: input[i + 1].clone(),
                    correct_symbol: Token::Word(String::from_str("argument_name")),
                };
                return Err(e);
            },
        };
        if n - i == 2 {
            result.insert(arg_name, ty);
            proof {
                assert(ts.skip(n as int) =~= Seq::<SpecToken>::empty());
            }
            i = n;
        } else {
            if !tok_is_split(&input[i + 2], ',') {
                let e = ParserError::MisplacedSymbol {
                    location: ParserErrorLocation::MethodArguments,
                    incorrect_symbol: input[i + 2].clone(),
                    correct_symbol: Token::Split(','),
                };
                return Err(e);
            }
            result.insert(arg_name, ty);
            proof {
                assert(ts.skip(i as int).skip(3) =~= ts.skip(i as int + 3));
            }
            i = i + 3;
        }
    }
    proof {
        assert(ts.skip(i as int) =~= Seq::<SpecToken>::empty());
    }
    Ok(result)
}

/// The method-name-list decoder: `[` names `]`, in chunks of two with the
/// final comma optional, kept in source order.
pub fn parse_object_methods(input: Vec<Token>) -> (r: Result<Vec<String>, ParserError>)
    ensures
        rview(&r) == spec_parse_object_methods(input.deep_view()),
{
    let ghost ts = input.deep_view();
    let ghost target = spec_parse_object_methods(ts);
    let n = input.len();
    if n == 0 {
        return Err(ParserError::UnexpectedEnd {
            location: ParserErrorLocation::ObjectMethods,
            expected: Token::Encapsulator('['),
        });
    }
    if !tok_is_encap(&input[0], '[') {
        return Err(ParserError::PoorClosure {
            location: ParserErrorLocation::ObjectMethods,
            incorrect_encap: input[0].clone(),
            correct_encap: Token::Encapsulator('['),
        });
    }
    let j = scan_encap(&input, 1, ']');
    if j == n {
        return Err(ParserError::UnexpectedEnd {
            location: ParserErrorLocation::ObjectMethods,
            expected: Token::Encapsulator(']'),
        });
    }
    let ghost content = ts.subrange(1, j as int);
    let mut result: Vec<String> = Vec::new();
    let mut i: usize = 1;
    proof {
        assert(content.skip(0) =~= content);
        assert(result.deep_view() =~= Seq::<Seq<char>>::empty());
    }
    while i < j
        invariant
            n == input@.len(),
            ts == input.deep_view(),
            content == ts.subrange(1, j as int),
            target == spec_parse_object_methods(ts),
            spec_names_loop(content, Seq::empty()) == target,
            1 <= i <= j < n,
            spec_names_loop(content.skip(i as int - 1), result.deep_view()) == target,
        decreases j - i,
    {
        let ghost prev = result.deep_view();
        let w = match &input[i] {
            Token::Word(s) => s.clone(),
            _ => {
                return Err(ParserError::MisplacedSymbol {
                    location: ParserErrorLocation::ObjectMethods,
                    incorrect_symbol: input[i].clone(),
                    correct_symbol: Token::Word(String::from_str("method_name")),
                });
            },
        };
        if j - i == 1 {
            result.push(w);
            proof {
                assert(result.deep_view() =~= prev.push(ts[i as int]->Word_0));
            }
            i = j;
        } else {
            if !tok_is_split(&input[i + 1], ',') {
                return Err(ParserError::MisplacedSymbol {
                    location: ParserErrorLocation::ObjectMethods,
                    incorrect_symbol: input[i + 1].clone(),
                    correct_symbol: Token::Split(','),
                });
            }
            result.push(w);
            proof {
                assert(result.deep_view() =~= prev.push(ts[i as int]->Word_0));
                assert(content.skip(i as int - 1).skip(2) =~= content.skip(i as int + 1));
            }
            i = i + 2;
        }
    }
    proof {
        assert(content.skip(j - 1) =~= Seq::<SpecToken>::empty());
    }
    Ok(result)
}

/// The shape decoder shared by Object and Global bodies: `{` entries `}`,
/// in chunks of four with the final comma optional, each value word going
/// through the type table.
pub fn parse_object_shape(input: Vec<Token>) -> (r: Result<ObjectShape, ParserError>)
    ensures
        rview(&r) == spec_parse_object_shape(input.deep_view()),
{
    let ghost ts = input.deep_view();
    let ghost target = spec_parse_object_shape(ts);
    let n = input.len();
    if n == 0 {
        return Err(ParserError::UnexpectedEnd {
            location: ParserErrorLocation::ObjectShape,
            expected: Token::Encapsulator('{'),
        });
    }
    if !tok_is_encap(&input[0], '{') {
        return Err(ParserError::PoorClosure {
            location: ParserErrorLocation::ObjectShape,
            incorrect_encap: input[0].clone(),
            correct_encap: Token::Encapsulator('{'),
        });
    }
    let j = scan_encap(&input, 1, '}');
    if j == n {
        return Err(ParserError::UnexpectedEnd {
            location: ParserErrorLocation::ObjectShape,
            expected: Token::Encapsulator('}'),
        });
    }
    let ghost content = ts.subrange(1, j as int);
    let mut result: ObjectShape = Dict::new();
    let mut i: usize = 1;
    proof {
        assert(content.skip(0) =~= content);
    }
    while i < j
        invariant
            n == input@.len(),
            ts == input.deep_view(),
            content == ts.subrange(1, j as int),
            target == spec_parse_object_shape(ts),
            spec_shape_entries_loop(content, Map::empty()) == target,
            1 <= i <= j < n,
            spec_shape_entries_loop(content.skip(i as int - 1), result@) == target,
        decreases j - i,
    {
        if j - i <= 2 {
            let mut valid: Vec<usize> = Vec::new();
            valid.push(4);
            valid.push(3);
            let e = ParserError::BadLength {
                location: ParserErrorLocation::ObjectShape,
                incorrect_length: j - i,
                valid_lengths: valid,
            };
            proof {
                assert(e.deep_view()->BadLength_valid_lengths =~= seq![4usize, 3usize]);
            }
            return Err(e);
        }
        let field_name = match &input[i] {
            Token::Word(s) => s.clone(),
            _ => {
                return Err(ParserError::MisplacedSymbol {
                    location: ParserErrorLocation::ObjectShape,
                    incorrect_symbol: input[i].clone(),
                    correct_symbol: Token::Word(String::from_str("object_shape_name")),
                });
            },
        };
        if !tok_is_split(&input[i + 1], ':') {
            return Err(ParserError::MisplacedSymbol {
                location: ParserErrorLocation::ObjectShape,
                incorrect_symbol: input[i + 1].clone(),
                correct_symbol: Token::Split(':'),
            });
        }
        let ty_word = match &input[i + 2] {
            Token::Word(s) => s.clone(),
            _ => {
                return Err(ParserError::MisplacedSymbol {
                    location: ParserErrorLocation::ObjectShape,
                    incorrect_symbol: input[i + 2].clone(),
                    correct_symbol: Token::Word(String::from_str("object_shape_type")),
                });
            },
        };
        let ty = match parse_type(ty_word) {
            Ok(t) => t,
            Err(e) => {
                return Err(e);
            },
        };
        if j - i == 3 {
            result.insert(field_name, ty);
            i = j;
        } else {
            if !tok_is_split(&input[i + 3], ',') {
                return Err(ParserError::MisplacedSymbol {
                    location: ParserErrorLocation::ObjectShape,
                    incorrect_symbol: input[i + 3].clone(),
                    correct_symbol: Token::Split(','),
                });
            }
            result.insert(field_name, ty);
            proof {
                assert(content.skip(i as int - 1).skip(4) =~= content.skip(i as int + 3));
            }
            i = i + 4;
        }
    }
    proof {
        assert(content.skip(j - 1) =~= Seq::<SpecToken>::empty());
    }
    Ok(result)
}

/// The request-shape decoder: `{` entries `}`, in chunks of four with the
/// final comma optional, each value word going through the reference-prefix
/// rule.
pub fn parse_request_shape(input: Vec<Token>) -> (r: Result<RequestShape, ParserError>)
    ensures
        rview(&r) == spec_parse_request_shape(input.deep_view()),
{
    let ghost ts = input.deep_view();
    let ghost target = spec_parse_request_shape(ts);
    let n = input.len();
    if n == 0 {
        return Err(ParserError::UnexpectedEnd {
            location: ParserErrorLocation::RequestShape,
            expected: Token::Encapsulator('{'),
        });
    }
    if !tok_is_encap(&input[0], '{') {
        return Err(ParserError::PoorClosure {
            location: ParserErrorLocation::RequestShape,
            incorrect_encap: input[0].clone(),
            correct_encap: Token::Encapsulator('{'),
        });
    }
    let j = scan_encap(&input, 1, '}');
    if j == n {
        return Err(ParserError::UnexpectedEnd {
            location: ParserErrorLocation::RequestShape,
            expected: Token::Encapsulator('}'),
        });
    }
    let ghost content = ts.subrange(1, j as int);
    let mut result: RequestShape = Dict::new();
    let mut i: usize = 1;
    proof {
        assert(content.skip(0) =~= content);
    }
    while i < j
        invariant
            n == input@.len(),
            ts == input.deep_view(),
            content == ts.subrange(1, j as int),
            target == spec_parse_request_shape(ts),
            spec_request_entries_loop(content, Map::empty()) == target,
            1 <= i <= j < n,
            spec_request_entries_loop(content.skip(i as int - 1), result@) == target,
        decreases j - i,
    {
        if j - i <= 2 {
            let mut valid: Vec<usize> = Vec::new();
            valid.push(4);
            valid.push(3);
            let e = ParserError::BadLength {
                location: ParserErrorLocation::RequestShape,
                incorrect_length: j - i,
                valid_lengths: valid,
            };
            proof {
                assert(e.deep_view()->BadLength_valid_lengths =~= seq![4usize, 3usize]);
            }
            return Err(e);
        }
        let key_name = match &input[i] {
            Token::Word(s) => s.clone(),
            _ => {
                return Err(ParserError::MisplacedSymbol {
                    location: ParserErrorLocation::RequestShape,
                    incorrect_symbol: input[i].clone(),
                    correct_symbol: Token::Word(String::from_str("param_name")),
                });
            },
        };
        if !tok_is_split(&input[i + 1], ':') {
            return Err(ParserError::MisplacedSymbol {
                location: ParserErrorLocation::RequestShape,
                incorrect_symbol: input[i + 1].clone(),
                correct_symbol: Token::Split(':'),
            });
        }
        let value_word = match &input[i + 2] {
            Token::Word(s) => s.clone(),
            _ => {
                return Err(ParserError::MisplacedSymbol {
                    location: ParserErrorLocation::RequestShape,
                    incorrect_symbol: input[i + 2].clone(),
                    correct_symbol: Token::Word(String::from_str("param_value")),
                });
            },
        };
        let value = parse_method_shape_value(value_word);
        if j - i == 3 {
            result.insert(key_name, value);
            i = j;
        } else {
            if !tok_is_split(&input[i + 3], ',') {
                return Err(ParserError::MisplacedSymbol {
                    location: ParserErrorLocation::RequestShape,
                    incorrect_symbol: input[i + 3].clone(),
                    correct_symbol: Token::Split(','),
                });
            }
            result.insert(key_name, value);
            proof {
                assert(content.skip(i as int - 1).skip(4) =~= content.skip(i as int + 3));
            }
            i = i + 4;
        }
    }
    proof {
        assert(content.skip(j - 1) =~= Seq::<SpecToken>::empty());
    }
    Ok(result)
}

/// The return-shape decoder: `{` entries `}`, split on every comma; a
/// sub-chunk of one is a bare field, of three a field with an alias, of
/// zero (a trailing comma) ignored.
pub fn parse_return_shape(input: Vec<Token>) -> (r: Result<ReturnShape, ParserError>)
    ensures
        rview(&r) == spec_parse_return_shape(input.deep_view()),
{
    let ghost ts = input.deep_view();
    let ghost target = spec_parse_return_shape(ts);
    let n = input.len();
    if n == 0 {
        return Err(ParserError::UnexpectedEnd {
            location: ParserErrorLocation::ReturnShape,
            expected: Token::Encapsulator('{'),
        });
    }
    if !tok_is_encap(&input[0], '{') {
        return Err(ParserError::PoorClosure {
            location: ParserErrorLocation::ReturnShape,
            incorrect_encap: input[0].clone(),
            correct_encap: Token::Encapsulator('{'),
        });
    }
    let j = scan_encap(&input, 1, '}');
    if j == n {
        return Err(ParserError::UnexpectedEnd {
            location: ParserErrorLocation::ReturnShape,
            expected: Token::Encapsulator('}'),
        });
    }
    let ghost content = ts.subrange(1, j as int);
    let mut result: ReturnShape = Dict::new();
    let mut i: usize = 1;
    while i <= j
        invariant
            n == input@.len(),
            ts == input.deep_view(),
            content == ts.subrange(1, j as int),
            target == spec_parse_return_shape(ts),
            spec_return_entries_loop(content, 0, Map::empty()) == target,
            1 <= i <= j + 1,
            j < n,
            spec_return_entries_loop(content, i as int - 1, result@) == target,
        decreases j + 1 - i,
    {
        let mut e: usize = i;
        while e < j && !tok_is_split(&input[e], ',')
            invariant
                n == input@.len(),
                ts == input.deep_view(),
                i <= e <= j < n,
                forall|k: int| i <= k < e ==> input.deep_view()[k] != SpecToken::Split(','),
            decreases j - e,
        {
            e += 1;
        }
        proof {
            assert(forall|k: int|
                i - 1 <= k < e - 1 ==> content[k] != SpecToken::Split(','));
            lemma_scan_to_is(content, i as int - 1, tok_stop(SpecToken::Split(',')), e as int - 1);
        }
        let c = e - i;
        if c == 0 {
            // an empty sub-chunk, from a leading or doubled comma: ignored
        } else if c == 1 {
            let field = match &input[i] {
                Token::Word(s) => s.clone(),
                _ => {
                    return Err(ParserError::MisplacedSymbol {
                        location: ParserErrorLocation::ReturnShape,
                        incorrect_symbol: input[i].clone(),
                        correct_symbol: Token::Word(String::from_str("return_value")),
                    });
                },
            };
            result.insert(field, None);
        } else if c == 3 {
            let field = match &input[i] {
                Token::Word(s) => s.clone(),
                _ => {
                    return Err(ParserError::MisplacedSymbol {
                        location: ParserErrorLocation::ReturnShape,
                        incorrect_symbol: input[i].clone(),
                        correct_symbol: Token::Word(String::from_str("return_value")),
                    });
                },
            };
            if !tok_is_split(&input[i + 1], ':') {
                return Err(ParserError::MisplacedSymbol {
                    location: ParserErrorLocation::ReturnShape,
                    incorrect_symbol: input[i + 1].clone(),
                    correct_symbol: Token::Split(':'),
                });
            }
            let alias = match &input[i + 2] {
                Token::StringLiteral(s) => s.clone(),
                _ => {
                    return Err(ParserError::MisplacedSymbol {
                        location: ParserErrorLocation::ReturnShape,
                        incorrect_symbol: input[i + 2].clone(),
                        correct_symbol: Token::StringLiteral(String::from_str(
                            "return_value_alias",
                        )),
                    });
                },
            };
            result.insert(field, Some(alias));
        } else {
            let mut valid: Vec<usize> = Vec::new();
            valid.push(3);
            valid.push(1);
            valid.push(0);
            let err = ParserError::BadLength {
                location: ParserErrorLocation::ReturnShape,
                incorrect_length: c,
                valid_lengths: valid,
            };
            proof {
                assert(err.deep_view()->BadLength_valid_lengths =~= seq![3usize, 1usize, 0usize]);
            }
            return Err(err);
        }
        i = e + 1;
    }
    Ok(result)
}

/// The fields of a method body, accumulated while its directives are
/// decoded; every directive is optional and a repeat overwrites.
pub struct MethodInternal {
    pub route: String,
    pub request_shape: RequestShape,
    pub request_type: RequestType,
    pub return_shape: ReturnShape,
    pub return_object: String,
}

impl View for MethodInternal {
    type V = SpecMethodInternal;

    open spec fn view(&self) -> SpecMethodInternal {
        SpecMethodInternal {
            route: self.route@,
            request_shape: self.request_shape@,
            request_type: self.request_type,
            return_shape: self.return_shape@,
            return_object: self.return_object@,
        }
    }
}

impl DeepView for MethodInternal {
    type V = SpecMethodInternal;

    open spec fn deep_view(&self) -> SpecMethodInternal {
        self.view()
    }
}

/// The method-body decoder: a single-pass scan over the directives
/// `route(...)`, `request<...>(...)`, `return<...>(...)`, in any order and
/// multiplicity, stopping silently at the end or at a non-word token.
pub fn parse_method_internal(input: Vec<Token>) -> (r: Result<MethodInternal, ParserError>)
    ensures
        rview(&r) == spec_parse_method_internal(input.deep_view()),
{
    let ghost ts = input.deep_view();
    let ghost target = spec_parse_method_internal(ts);
    proof {
        reveal_strlit("");
        assert(""@ =~= Seq::<char>::empty());
    }
    let n = input.len();
    if n == 0 {
        return Err(ParserError::UnexpectedEnd {
            location: ParserErrorLocation::MethodInternal,
            expected: Token::Word(String::new()),
        });
    }
    if !tok_is_word(&input[0]) {
        return Err(ParserError::MisplacedSymbol {
            location: ParserErrorLocation::MethodInternal,
            incorrect_symbol: input[0].clone(),
            correct_symbol: Token::Word(String::new()),
        });
    }
    let mut mi = MethodInternal {
        route: String::new(),
        request_shape: Dict::new(),
        request_type: RequestType::GET,
        return_shape: Dict::new(),
        return_object: String::new(),
    };
    proof {
        assert(mi@ == spec_method_internal_default());
    }
    let mut i: usize = 0;
    while i < n && tok_is_word(&input[i])
        invariant
            n == input@.len(),
            ts == input.deep_view(),
            target == spec_parse_method_internal(ts),
            i <= n,
            spec_method_directives_loop(ts, i as int, mi@) == target,
        decreases n - i,
    {
        let w = match &input[i] {
            Token::Word(s) => s.clone(),
            _ => String::new(),
        };
        if str_eq(w.as_str(), "route") {
            if i + 1 >= n {
                return Err(ParserError::UnexpectedEnd {
                    location: ParserErrorLocation::MethodInternal,
                    expected: Token::Encapsulator('('),
                });
            }
            if !tok_is_encap(&input[i + 1], '(') {
                return Err(ParserError::PoorClosure {
                    location: ParserErrorLocation::MethodInternal,
                    incorrect_encap: input[i + 1].clone(),
                    correct_encap: Token::Encapsulator('('),
                });
            }
            let j = scan_encap(&input, i + 2, ')');
            if j == n {
                return Err(ParserError::UnexpectedEnd {
                    location: ParserErrorLocation::MethodInternal,
                    expected: Token::Encapsulator(')'),
                });
            }
            if j == i + 2 {
                return Err(ParserError::UnexpectedEnd {
                    location: ParserErrorLocation::MethodInternal,
                    expected: Token::StringLiteral(String::from_str("route")),
                });
            }
            let lit = match &input[i + 2] {
                Token::StringLiteral(s) => s.clone(),
                _ => {
                    return Err(ParserError::MisplacedSymbol {
                        location: ParserErrorLocation::MethodInternal,
                        incorrect_symbol: input[i + 2].clone(),
                        correct_symbol: Token::StringLiteral(String::from_str("route")),
                    });
                },
            };
            mi.route = lit;
            i = j + 1;
        } else if str_eq(w.as_str(), "request") {
            if i + 1 >= n {
                return Err(ParserError::UnexpectedEnd {
                    location: ParserErrorLocation::MethodInternal,
                    expected: Token::Encapsulator('<'),
                });
            }
            if !tok_is_encap(&input[i + 1], '<') {
                return Err(ParserError::PoorClosure {
                    location: ParserErrorLocation::MethodInternal,
                    incorrect_encap: input[i + 1].clone(),
                    correct_encap: Token::Encapsulator('<'),
                });
            }
            let j = scan_encap(&input, i + 2, '>');
            if j == n {
                return Err(ParserError::UnexpectedEnd {
                    location: ParserErrorLocation::MethodInternal,
                    expected: Token::Encapsulator('>'),
                });
            }
            if j == i + 2 {
                return Err(ParserError::UnexpectedEnd {
                    location: ParserErrorLocation::MethodInternal,
                    expected: Token::Word(String::from_str("request_type")),
                });
            }
            let verb_word = match &input[i + 2] {
                Token::Word(s) => s.clone(),
                _ => {
                    return Err(ParserError::MisplacedSymbol {
                        location: ParserErrorLocation::MethodInternal,
                        incorrect_symbol: input[i + 2].clone(),
                        correct_symbol: Token::Word(String::from_str("request_type")),
                    });
                },
            };
            let verb = match parse_request_type(verb_word) {
                Ok(v) => v,
                Err(e) => {
                    return Err(e);
                },
            };
            let k = j + 1;
            if k >= n {
                return Err(ParserError::UnexpectedEnd {
                    location: ParserErrorLocation::MethodInternal,
                    expected: Token::Encapsulator('('),
                });
            }
            if !tok_is_encap(&input[k], '(') {
                return Err(ParserError::PoorClosure {
                    location: ParserErrorLocation::MethodInternal,
                    incorrect_encap: input[k].clone(),
                    correct_encap: Token::Encapsulator('('),
                });
            }
            let m = scan_encap(&input, k + 1, ')');
            if m == n {
                return Err(ParserError::UnexpectedEnd {
                    location: ParserErrorLocation::MethodInternal,
                    expected: Token::Encapsulator(')'),
                });
            }
            let sub = clone_range(&input, k + 1, m);
            let shape = match parse_request_shape(sub) {
                Ok(s) => s,
                Err(e) => {
                    return Err(e);
                },
            };
            mi.request_type = verb;
            mi.request_shape = shape;
            i = m + 1;
        } else if str_eq(w.as_str(), "return") {
            if i + 1 >= n {
                return Err(ParserError::UnexpectedEnd {
                    location: ParserErrorLocation::MethodInternal,
                    expected: Token::Encapsulator('<'),
                });
            }
            if !tok_is_encap(&input[i + 1], '<') {
                return Err(ParserError::PoorClosure {
                    location: ParserErrorLocation::MethodInternal,
                    incorrect_encap: input[i + 1].clone(),
                    correct_encap: Token::Encapsulator('<'),
                });
            }
            let j = scan_encap(&input, i + 2, '>');
            if j == n {
                return Err(ParserError::UnexpectedEnd {
                    location: ParserErrorLocation::MethodInternal,
                    expected: Token::Encapsulator('>'),
                });
            }
            if j == i + 2 {
                return Err(ParserError::UnexpectedEnd {
                    location: ParserErrorLocation::MethodInternal,
                    expected: Token::Word(String::from_str("return_object")),
                });
            }
            let ro = match &input[i + 2] {
                Token::Word(s) => s.clone(),
                _ => {
                    return Err(ParserError::MisplacedSymbol {
                        location: ParserErrorLocation::MethodInternal,
                        incorrect_symbol: input[i + 2].clone(),
                        correct_symbol: Token::Word(String::from_str("return_object")),
                    });
                },
            };
            let k = j + 1;
            if k >= n {
                return Err(ParserError::UnexpectedEnd {
                    location: ParserErrorLocation::MethodInternal,
                    expected: Token::Encapsulator('('),
                });
            }
            if !tok_is_encap(&input[k], '(') {
                return Err(ParserError::PoorClosure {
                    location: ParserErrorLocation::MethodInternal,
                    incorrect_encap: input[k].clone(),
                    correct_encap: Token::Encapsulator('('),
                });
            }
            let m = scan_encap(&input, k + 1, ')');
            if m == n {
                return Err(ParserError::UnexpectedEnd {
                    location: ParserErrorLocation::MethodInternal,
                    expected: Token::Encapsulator(')'),
                });
            }
            let sub = clone_range(&input, k + 1, m);
            let shape = match parse_return_shape(sub) {
                Ok(s) => s,
                Err(e) => {
                    return Err(e);
                },
            };
            mi.return_object = ro;
            mi.return_shape = shape;
            i = m + 1;
        } else {
            let mut valid: Vec<String> = Vec::new();
            valid.push(String::from_str("route"));
            valid.push(String::from_str("request"));
            valid.push(String::from_str("return"));
            let e = ParserError::InvalidSymbolBody {
                location: ParserErrorLocation::MethodInternal,
                incorrect_symbol: input[i].clone(),
                valid_symbols: valid,
            };
            proof {
                assert(e.deep_view()->InvalidSymbolBody_valid_symbols =~= seq![
                    "route"@,
                    "request"@,
                    "return"@,
                ]);
            }
            return Err(e);
        }
    }
    Ok(mi)
}

/// A whole method declaration:
/// `Method Name '(' args ')' '{' directives '}' ';'`. Tokens after the `;`
/// are ignored, as are non-word tokens after a completed directive.
pub fn parse_method(input: Vec<Token>) -> (r: Result<Method, ParserError>)
    ensures
        rview(&r) == spec_parse_method(input.deep_view()),
{
    let ghost ts = input.deep_view();
    let n = input.len();
    if n == 0 {
        return Err(ParserError::UnexpectedEnd {
            location: ParserErrorLocation::Method,
            expected: Token::Word(String::from_str("Method")),
        });
    }
    let keyword_ok = match &input[0] {
        Token::Word(w) => str_eq(w.as_str(), "Method"),
        _ => false,
    };
    if !keyword_ok {
        let mut valid: Vec<String> = Vec::new();
        valid.push(String::from_str("Method"));
        let e = ParserError::InvalidSymbolBody {
            location: ParserErrorLocation::Method,
            incorrect_symbol: input[0].clone(),
            valid_symbols: valid,
        };
        proof {
            assert(e.deep_view()->InvalidSymbolBody_valid_symbols =~= seq!["Method"@]);
        }
        return Err(e);
    }
    if n < 2 {
        return Err(ParserError::UnexpectedEnd {
            location: ParserErrorLocation::Method,
            expected: Token::Word(String::from_str("method_name")),
        });
    }
    let name = match &input[1] {
        Token::Word(w) => w.clone(),
        _ => {
            return Err(ParserError::MisplacedSymbol {
                location: ParserErrorLocation::Method,
                incorrect_symbol: input[1].clone(),
                correct_symbol: Token::Word(String::from_str("method_name")),
            });
        },
    };
    if n < 3 {
        return Err(ParserError::UnexpectedEnd {
            location: ParserErrorLocation::Method,
            expected: Token::Encapsulator('('),
        });
    }
    if !tok_is_encap(&input[2], '(') {
        return Err(ParserError::PoorClosure {
            location: ParserErrorLocation::Method,
            incorrect_encap: input[2].clone(),
            correct_encap: Token::Encapsulator('('),
        });
    }
    let j = scan_encap(&input, 3, ')');
    if j == n {
        return Err(ParserError::UnexpectedEnd {
            location: ParserErrorLocation::Method,
            expected: Token::Encapsulator(')'),
        });
    }
    let args_tokens = clone_range(&input, 3, j);
    let arguments = match parse_method_arguments(args_tokens) {
        Ok(a) => a,
        Err(e) => {
            return Err(e);
        },
    };
    let k = j + 1;
    if k >= n {
        return Err(ParserError::UnexpectedEnd {
            location: ParserErrorLocation::Method,
            expected: Token::Encapsulator('{'),
        });
    }
    if !tok_is_encap(&input[k], '{') {
        return Err(ParserError::PoorClosure {
            location: ParserErrorLocation::Method,
            incorrect_encap: input[k].clone(),
            correct_encap: Token::Encapsulator('{'),
        });
    }
    let m = scan_split(&input, k + 1, ';');
    if m == n {
        return Err(ParserError::UnexpectedEnd {
            location: ParserErrorLocation::Method,
            expected: Token::Split(';'),
        });
    }
    if m == k + 1 {
        return Err(ParserError::UnexpectedEnd {
            location: ParserErrorLocation::Method,
            expected: Token::Encapsulator('}'),
        });
    }
    let interior = clone_range(&input, k + 1, m - 1);
    proof {
        assert(ts.subrange(k as int + 1, m as int).drop_last() =~= ts.subrange(
            k as int + 1,
            m as int - 1,
        ));
    }
    let internal = match parse_method_internal(interior) {
        Ok(mi) => mi,
        Err(e) => {
            return Err(e);
        },
    };
    Ok(Method {
        name,
        arguments,
        route: internal.route,
        request_shape: internal.request_shape,
        request_type: internal.request_type,
        return_shape: internal.return_shape,
        return_object: internal.return_object,
    })
}

/// A whole object declaration: `Object Name '{' directives '}' ';'`, the
/// directives being `shape(...)` and `methods(...)`.
pub fn parse_object(input: Vec<Token>) -> (r: Result<Object, ParserError>)
    ensures
        rview(&r) == spec_parse_object(input.deep_view()),
{
    let ghost ts = input.deep_view();
    let n = input.len();
    if n == 0 {
        return Err(ParserError::UnexpectedEnd {
            location: ParserErrorLocation::Object,
            expected: Token::Word(String::from_str("Object")),
        });
    }
    let keyword_ok = match &input[0] {
        Token::Word(w) => str_eq(w.as_str(), "Object"),
        _ => false,
    };
    if !keyword_ok {
        let mut valid: Vec<String> = Vec::new();
        valid.push(String::from_str("Object"));
        let e = ParserError::InvalidSymbolBody {
            location: ParserErrorLocation::Object,
            incorrect_symbol: input[0].clone(),
            valid_symbols: valid,
        };
        proof {
            assert(e.deep_view()->InvalidSymbolBody_valid_symbols =~= seq!["Object"@]);
        }
        return Err(e);
    }
    if n < 2 {
        return Err(ParserError::UnexpectedEnd {
            location: ParserErrorLocation::Object,
            expected: Token::Word(String::from_str("object_name")),
        });
    }
    let name = match &input[1] {
        Token::Word(w) => w.clone(),
        _ => {
            return Err(ParserError::MisplacedSymbol {
                location: ParserErrorLocation::Object,
                incorrect_symbol: input[1].clone(),
                correct_symbol: Token::Word(String::from_str("object_name")),
            });
        },
    };
    if n < 3 {
        return Err(ParserError::UnexpectedEnd {
            location: ParserErrorLocation::Object,
            expected: Token::Encapsulator('{'),
        });
    }
    if !tok_is_encap(&input[2], '{') {
        return Err(ParserError::PoorClosure {
            location: ParserErrorLocation::Object,
            incorrect_encap: input[2].clone(),
            correct_encap: Token::Encapsulator('{'),
        });
    }
    let m = scan_split(&input, 3, ';');
    if m == n {
        return Err(ParserError::UnexpectedEnd {
            location: ParserErrorLocation::Object,
            expected: Token::Split(';'),
        });
    }
    if m == 3 {
        return Err(ParserError::UnexpectedEnd {
            location: ParserErrorLocation::Object,
            expected: Token::Encapsulator('}'),
        });
    }
    let interior = clone_range(&input, 3, m - 1);
    let ghost its = interior.deep_view();
    proof {
        assert(ts.subrange(3, m as int).drop_last() =~= ts.subrange(3, m as int - 1));
    }
    let len_int = interior.len();
    if len_int == 0 {
        return Err(ParserError::UnexpectedEnd {
            location: ParserErrorLocation::Object,
            expected: Token::Word(String::from_str("function")),
        });
    }
    if !tok_is_word(&interior[0]) {
        return Err(ParserError::MisplacedSymbol {
            location: ParserErrorLocation::Object,
            incorrect_symbol: interior[0].clone(),
            correct_symbol: Token::Word(String::from_str("function")),
        });
    }
    let ghost target = spec_object_directives_loop(its, 0, Map::empty(), Seq::empty());
    let mut shape: ObjectShape = Dict::new();
    let mut methods: Vec<String> = Vec::new();
    proof {
        assert(methods.deep_view() =~= Seq::<Seq<char>>::empty());
    }
    let mut i: usize = 0;
    while i < len_int && tok_is_word(&interior[i])
        invariant
            len_int == interior@.len(),
            its == interior.deep_view(),
            ts == input.deep_view(),
            input@.len() >= 2,
            ts[1] is Word,
            spec_parse_object(ts) == (match target {
                Err(e) => Err::<crate::types::SpecObject, SpecError>(e),
                Ok(parts) => Ok(crate::types::SpecObject {
                    name: ts[1]->Word_0,
                    shape: parts.0,
                    methods: parts.1,
                }),
            }),
            target == spec_object_directives_loop(its, 0, Map::empty(), Seq::empty()),
            i <= len_int,
            spec_object_directives_loop(its, i as int, shape@, methods.deep_view()) == target,
        decreases len_int - i,
    {
        let w = match &interior[i] {
            Token::Word(s) => s.clone(),
            _ => String::new(),
        };
        let is_shape = str_eq(w.as_str(), "shape");
        let is_methods = str_eq(w.as_str(), "methods");
        if is_shape || is_methods {
            if i + 1 >= len_int {
                return Err(ParserError::UnexpectedEnd {
                    location: ParserErrorLocation::Object,
                    expected: Token::Encapsulator('('),
                });
            }
            if !tok_is_encap(&interior[i + 1], '(') {
                return Err(ParserError::PoorClosure {
                    location: ParserErrorLocation::Object,
                    incorrect_encap: interior[i + 1].clone(),
                    correct_encap: Token::Encapsulator('('),
                });
            }
            let j = scan_encap(&interior, i + 2, ')');
            if j == len_int {
                return Err(ParserError::UnexpectedEnd {
                    location: ParserErrorLocation::Object,
                    expected: Token::Encapsulator(')'),
                });
            }
            let sub = clone_range(&interior, i + 2, j);
            if is_shape {
                shape = match parse_object_shape(sub) {
                    Ok(s) => s,
                    Err(e) => {
                        return Err(e);
                    },
                };
            } else {
                methods = match parse_object_methods(sub) {
                    Ok(ms) => ms,
                    Err(e) => {
                        return Err(e);
                    },
                };
            }
            i = j + 1;
        } else {
            let mut valid: Vec<String> = Vec::new();
            valid.push(String::from_str("shape"));
            valid.push(String::from_str("methods"));
            let e = ParserError::InvalidSymbolBody {
                location: ParserErrorLocation::Object,
                incorrect_symbol: interior[i].clone(),
                valid_symbols: valid,
            };
            proof {
                assert(e.deep_view()->InvalidSymbolBody_valid_symbols =~= seq![
                    "shape"@,
                    "methods"@,
                ]);
            }
            return Err(e);
        }
    }
    Ok(Object { name, shape, methods })
}

/// The whole Global declaration: `Global Name '{' directives '}' ';'`, the
/// directives being `headRoute(...)`, `shape(...)` and `methods(...)`.
pub fn parse_global(input: Vec<Token>) -> (r: Result<Global, ParserError>)
    ensures
        rview(&r) == spec_parse_global(input.deep_view()),
{
    let ghost ts = input.deep_view();
    let n = input.len();
    if n == 0 {
        return Err(ParserError::UnexpectedEnd {
            location: ParserErrorLocation::Global,
            expected: Token::Word(String::from_str("Global")),
        });
    }
    let keyword_ok = match &input[0] {
        Token::Word(w) => str_eq(w.as_str(), "Global"),
        _ => false,
    };
    if !keyword_ok {
        let mut valid: Vec<String> = Vec::new();
        valid.push(String::from_str("Global"));
        let e = ParserError::InvalidSymbolBody {
            location: ParserErrorLocation::Global,
            incorrect_symbol: input[0].clone(),
            valid_symbols: valid,
        };
        proof {
            assert(e.deep_view()->InvalidSymbolBody_valid_symbols =~= seq!["Global"@]);
        }
        return Err(e);
    }
    if n < 2 {
        return Err(ParserError::UnexpectedEnd {
            location: ParserErrorLocation::Global,
            expected: Token::Word(String::from_str("global_object_name")),
        });
    }
    let name = match &input[1] {
        Token::Word(w) => w.clone(),
        _ => {
            return Err(ParserError::MisplacedSymbol {
                location: ParserErrorLocation::Global,
                incorrect_symbol: input[1].clone(),
                correct_symbol: Token::Word(String::from_str("global_object_name")),
            });
        },
    };
    if n < 3 {
        return Err(ParserError::UnexpectedEnd {
            location: ParserErrorLocation::Global,
            expected: Token::Encapsulator('{'),
        });
    }
    if !tok_is_encap(&input[2], '{') {
        return Err(ParserError::PoorClosure {
            location: ParserErrorLocation::Global,
            incorrect_encap: input[2].clone(),
            correct_encap: Token::Encapsulator('{'),
        });
    }
    let m = scan_split(&input, 3, ';');
    if m == n {
        return Err(ParserError::UnexpectedEnd {
            location: ParserErrorLocation::Global,
            expected: Token::Split(';'),
        });
    }
    if m == 3 {
        return Err(ParserError::UnexpectedEnd {
            location: ParserErrorLocation::Global,
            expected: Token::Encapsulator('}'),
        });
    }
    let interior = clone_range(&input, 3, m - 1);
    let ghost its = interior.deep_view();
    proof {
        assert(ts.subrange(3, m as int).drop_last() =~= ts.subrange(3, m as int - 1));
    }
    let len_int = interior.len();
    if len_int == 0 {
        return Err(ParserError::UnexpectedEnd {
            location: ParserErrorLocation::Global,
            expected: Token::Word(String::from_str("function")),
        });
    }
    if !tok_is_word(&interior[0]) {
        return Err(ParserError::MisplacedSymbol {
            location: ParserErrorLocation::Global,
            incorrect_symbol: interior[0].clone(),
            correct_symbol: Token::Word(String::from_str("function")),
        });
    }
    let ghost target = spec_global_directives_loop(its, 0, Seq::empty(), Map::empty(), Seq::empty());
    let mut head_route: String = String::new();
    let mut shape: ObjectShape = Dict::new();
    let mut methods: Vec<String> = Vec::new();
    proof {
        assert(methods.deep_view() =~= Seq::<Seq<char>>::empty());
    }
    let mut i: usize = 0;
    while i < len_int && tok_is_word(&interior[i])
        invariant
            len_int == interior@.len(),
            its == interior.deep_view(),
            ts == input.deep_view(),
            input@.len() >= 2,
            ts[1] is Word,
            spec_parse_global(ts) == (match target {
                Err(e) => Err::<crate::types::SpecGlobal, SpecError>(e),
                Ok(parts) => Ok(crate::types::SpecGlobal {
                    name: ts[1]->Word_0,
                    head_route: parts.0,
                    shape: parts.1,
                    methods: parts.2,
                }),
            }),
            target == spec_global_directives_loop(
                its,
                0,
                Seq::empty(),
                Map::empty(),
                Seq::empty(),
            ),
            i <= len_int,
            spec_global_directives_loop(
                its,
                i as int,
                head_route@,
                shape@,
                methods.deep_view(),
            ) == target,
        decreases len_int - i,
    {
        let w = match &interior[i] {
            Token::Word(s) => s.clone(),
            _ => String::new(),
        };
        let is_head_route = str_eq(w.as_str(), "headRoute");
        let is_shape = str_eq(w.as_str(), "shape");
        let is_methods = str_eq(w.as_str(), "methods");
        if is_head_route || is_shape || is_methods {
            if i + 1 >= len_int {
                return Err(ParserError::UnexpectedEnd {
                    location: ParserErrorLocation::Global,
                    expected: Token::Encapsulator('('),
                });
            }
            if !tok_is_encap(&interior[i + 1], '(') {
                return Err(ParserError::PoorClosure {
                    location: ParserErrorLocation::Global,
                    incorrect_encap: interior[i + 1].clone(),
                    correct_encap: Token::Encapsulator('('),
                });
            }
            let j = scan_encap(&interior, i + 2, ')');
            if j == len_int {
                return Err(ParserError::UnexpectedEnd {
                    location: ParserErrorLocation::Global,
                    expected: Token::Encapsulator(')'),
                });
            }
            if is_head_route {
                if j == i + 2 {
                    return Err(ParserError::UnexpectedEnd {
                        location: ParserErrorLocation::Global,
                        expected: Token::StringLiteral(String::from_str("head_route")),
                    });
                }
                head_route = match &interior[i + 2] {
                    Token::StringLiteral(s) => s.clone(),
                    _ => {
                        return Err(ParserError::MisplacedSymbol {
                            location: ParserErrorLocation::Global,
                            incorrect_symbol: interior[i + 2].clone(),
                            correct_symbol: Token::StringLiteral(String::from_str("head_route")),
                        });
                    },
                };
            } else {
                let sub = clone_range(&interior, i + 2, j);
                if is_shape {
                    shape = match parse_object_shape(sub) {
                        Ok(s) => s,
                        Err(e) => {
                            return Err(e);
                        },
                    };
                } else {
                    methods = match parse_object_methods(sub) {
                        Ok(ms) => ms,
                        Err(e) => {
                            return Err(e);
                        },
                    };
                }
            }
            i = j + 1;
        } else {
            let mut valid: Vec<String> = Vec::new();
            valid.push(String::from_str("headRoute"));
            valid.push(String::from_str("methods"));
            valid.push(String::from_str("shape"));
            let e = ParserError::InvalidSymbolBody {
                location: ParserErrorLocation::Global,
                incorrect_symbol: interior[i].clone(),
                valid_symbols: valid,
            };
            proof {
                assert(e.deep_view()->InvalidSymbolBody_valid_symbols =~= seq![
                    "headRoute"@,
                    "methods"@,
                    "shape"@,
                ]);
            }
            return Err(e);
        }
    }
    Ok(Global { name, head_route, shape, methods })
}

/// The project assembler over already-read files, each a (file name, source
/// text) pair: tokenise each file, dispatch on its leading keyword, key the
/// Objects and Methods by declared name with later files overwriting
/// earlier ones, and reject a project that never declared a Global.
pub fn parse_project(files: Vec<(String, String)>) -> (r: Result<Project, ParserError>)
    ensures
        rview(&r) == spec_parse_project(files.deep_view()),
{
    let ghost fs = files.deep_view();
    let ghost target = spec_parse_project(fs);
    proof {
        reveal_strlit("");
        assert(""@ =~= Seq::<char>::empty());
    }
    let mut global_found: Option<Global> = None;
    let mut objects: Dict<Object> = Dict::new();
    let mut methods: Dict<Method> = Dict::new();
    let n = files.len();
    let mut i: usize = 0;
    while i < n
        invariant
            n == files@.len(),
            fs == files.deep_view(),
            target == spec_parse_project(fs),
            i <= n,
            spec_assemble_loop(fs, i as int, global_found.deep_view(), objects@, methods@)
                == target,
        decreases n - i,
    {
        proof {
            reveal_strlit("");
            assert(""@ =~= Seq::<char>::empty());
        }
        let file_name = files[i].0.clone();
        let text = files[i].1.clone();
        let tokens = tokenise(text);
        if tokens.len() == 0 {
            return Err(ParserError::UnexpectedEnd {
                location: ParserErrorLocation::Project { file_name },
                expected: Token::Word(String::new()),
            });
        }
        let dispatch = match &tokens[0] {
            Token::Word(w) => {
                if str_eq(w.as_str(), "Global") {
                    1usize
                } else if str_eq(w.as_str(), "Method") {
                    2
                } else if str_eq(w.as_str(), "Object") {
                    3
                } else {
                    4
                }
            },
            _ => 0,
        };
        if dispatch == 0 {
            return Err(ParserError::MisplacedSymbol {
                location: ParserErrorLocation::Project { file_name },
                incorrect_symbol: tokens[0].clone(),
                correct_symbol: Token::Word(String::new()),
            });
        } else if dispatch == 1 {
            match parse_global(tokens) {
                Ok(g) => {
                    global_found = Some(g);
                },
                Err(e) => {
                    return Err(e);
                },
            }
        } else if dispatch == 2 {
            match parse_method(tokens) {
                Ok(m) => {
                    let key = m.name.clone();
                    methods.insert(key, m);
                },
                Err(e) => {
                    return Err(e);
                },
            }
        } else if dispatch == 3 {
            match parse_object(tokens) {
                Ok(o) => {
                    let key = o.name.clone();
                    objects.insert(key, o);
                },
                Err(e) => {
                    return Err(e);
                },
            }
        } else {
            let mut valid: Vec<String> = Vec::new();
            valid.push(String::from_str("Global"));
            valid.push(String::from_str("Object"));
            valid.push(String::from_str("Method"));
            let e = ParserError::InvalidSymbolBody {
                location: ParserErrorLocation::Project { file_name },
                incorrect_symbol: tokens[0].clone(),
                valid_symbols: valid,
            };
            proof {
                assert(e.deep_view()->InvalidSymbolBody_valid_symbols =~= seq![
                    "Global"@,
                    "Object"@,
                    "Method"@,
                ]);
            }
            return Err(e);
        }
        i += 1;
    }
    match global_found {
        Some(g) => Ok(Project { global: g, objects, methods }),
        None => Err(ParserError::FieldNotExistent {
            location: ParserErrorLocation::Project {
                file_name: String::from_str("entire project"),
            },
            missing_field: String::from_str("Global"),
        }),
    }
}

} // verus!
