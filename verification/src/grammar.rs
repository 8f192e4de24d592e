//! The reference semantics of the grammar.
//!
//! Each `spec_parse_*` function is a total spec function from a token
//! sequence to the parsed fragment or the error, mirroring the
//! recursive-descent parser construct by construct: the executable functions
//! in [`crate::parser`] are proved to return exactly these values.
//!
//! Two conventions run through the whole grammar. Bracketed content is read
//! by scanning for the first occurrence of the closing token, without
//! tracking nesting depth (no construct nests the same bracket inside
//! itself). And a top-level block is captured by scanning for the `;`
//! terminator, then discarding the last captured token, the block's own
//! closing `}`, before the interior is decoded.

use vstd::prelude::*;
use crate::errors::{SpecError, SpecLocation};
use crate::scan::{lemma_scan_to_bounds, scan_to};
use crate::token::{lex, SpecToken};
use crate::types::{RequestType, SpecGlobal, SpecMethod, SpecObject, SpecProject, SpecValue, Type};

verus! {

/// Stop predicate for scanning to the first occurrence of `t`.
pub open spec fn tok_stop(t: SpecToken) -> spec_fn(SpecToken) -> bool {
    |x: SpecToken| x == t
}

/// The type spellings listed in an unknown-type diagnostic. The nullable
/// spellings are accepted by the decoder but deliberately kept out of this
/// list, as the grammar has always reported it.
pub open spec fn type_spellings() -> Seq<Seq<char>> {
    seq!["int"@, "bool"@, "str"@, "Integer"@, "Boolean"@, "String"@]
}

/// The four verb spellings listed in an unknown-verb diagnostic.
pub open spec fn verb_spellings() -> Seq<Seq<char>> {
    seq!["GET"@, "POST"@, "PATCH"@, "DELETE"@]
}

/// The type-name table: both the short and the capitalised long spelling of
/// each primitive, with and without the `?` suffix.
pub open spec fn spec_parse_type(w: Seq<char>) -> Result<Type, SpecError> {
    if w == "int"@ || w == "Integer"@ {
        Ok(Type::Integer)
    } else if w == "bool"@ || w == "Boolean"@ {
        Ok(Type::Boolean)
    } else if w == "str"@ || w == "String"@ {
        Ok(Type::String)
    } else if w == "int?"@ || w == "Integer?"@ {
        Ok(Type::NullableInteger)
    } else if w == "bool?"@ || w == "Boolean?"@ {
        Ok(Type::NullableBoolean)
    } else if w == "str?"@ || w == "String?"@ {
        Ok(Type::NullableString)
    } else {
        Err(SpecError::InvalidSymbolBody {
            location: SpecLocation::Type,
            incorrect_symbol: SpecToken::Word(w),
            valid_symbols: type_spellings(),
        })
    }
}

/// The verb table.
pub open spec fn spec_parse_request_type(w: Seq<char>) -> Result<RequestType, SpecError> {
    if w == "GET"@ {
        Ok(RequestType::GET)
    } else if w == "POST"@ {
        Ok(RequestType::POST)
    } else if w == "PATCH"@ {
        Ok(RequestType::PATCH)
    } else if w == "DELETE"@ {
        Ok(RequestType::DELETE)
    } else {
        Err(SpecError::InvalidSymbolBody {
            location: SpecLocation::RequestType,
            incorrect_symbol: SpecToken::Word(w),
            valid_symbols: verb_spellings(),
        })
    }
}

/// The reference-prefix rule for a request-shape value: a `GLOBAL.` prefix
/// sources the field from the project Global, a `PARENT.` prefix from the
/// enclosing object, anything else from the method's own arguments.
pub open spec fn spec_parse_method_shape_value(w: Seq<char>) -> SpecValue {
    if w.len() >= 7 && w.subrange(0, 7) == "GLOBAL."@ {
        SpecValue::Global(w.subrange(7, w.len() as int))
    } else if w.len() >= 7 && w.subrange(0, 7) == "PARENT."@ {
        SpecValue::Parent(w.subrange(7, w.len() as int))
    } else {
        SpecValue::Argument(w)
    }
}

/// Argument-list decoding: chunks of three (`Type Word ','`) with a final
/// chunk of two allowed to omit the comma, folded into a map from argument
/// name to type.
pub open spec fn spec_args_loop(ts: Seq<SpecToken>, acc: Map<Seq<char>, Type>) -> Result<
    Map<Seq<char>, Type>,
    SpecError,
>
    decreases ts.len(),
{
    if ts.len() == 0 {
        Ok(acc)
    } else if ts.len() == 1 {
        Err(SpecError::BadLength {
            location: SpecLocation::MethodArguments,
            incorrect_length: 1usize,
            valid_lengths: seq![3usize, 2usize],
        })
    } else if !(ts[0] is Word) {
        Err(SpecError::MisplacedSymbol {
            location: SpecLocation::MethodArguments,
            incorrect_symbol: ts[0],
            correct_symbol: SpecToken::Word("argument_type"@),
        })
    } else {
        match spec_parse_type(ts[0]->Word_0) {
            Err(e) => Err(e),
            Ok(ty) => {
                if !(ts[1] is Word) {
                    Err(SpecError::MisplacedSymbol {
                        location: SpecLocation::MethodArguments,
                        incorrect_symbol: ts[1],
                        correct_symbol: SpecToken::Word("argument_name"@),
                    })
                } else if ts.len() == 2 {
                    Ok(acc.insert(ts[1]->Word_0, ty))
                } else if ts[2] != SpecToken::Split(',') {
                    Err(SpecError::MisplacedSymbol {
                        location: SpecLocation::MethodArguments,
                        incorrect_symbol: ts[2],
                        correct_symbol: SpecToken::Split(','),
                    })
                } else {
                    spec_args_loop(ts.skip(3), acc.insert(ts[1]->Word_0, ty))
                }
            },
        }
    }
}

/// The argument-list decoder over a flat token sub-sequence already stripped
/// of its outer brackets.
pub open spec fn spec_parse_method_arguments(ts: Seq<SpecToken>) -> Result<
    Map<Seq<char>, Type>,
    SpecError,
> {
    spec_args_loop(ts, Map::empty())
}

/// Request-shape entry decoding: chunks of four (`Word ':' Word ','`) with a
/// final chunk of three allowed to omit the comma.
pub open spec fn spec_request_entries_loop(
    ts: Seq<SpecToken>,
    acc: Map<Seq<char>, SpecValue>,
) -> Result<Map<Seq<char>, SpecValue>, SpecError>
    decreases ts.len(),
{
    if ts.len() == 0 {
        Ok(acc)
    } else if ts.len() <= 2 {
        Err(SpecError::BadLength {
            location: SpecLocation::RequestShape,
            incorrect_length: ts.len() as usize,
            valid_lengths: seq![4usize, 3usize],
        })
    } else if !(ts[0] is Word) {
        Err(SpecError::MisplacedSymbol {
            location: SpecLocation::RequestShape,
            incorrect_symbol: ts[0],
            correct_symbol: SpecToken::Word("param_name"@),
        })
    } else if ts[1] != SpecToken::Split(':') {
        Err(SpecError::MisplacedSymbol {
            location: SpecLocation::RequestShape,
            incorrect_symbol: ts[1],
            correct_symbol: SpecToken::Split(':'),
        })
    } else if !(ts[2] is Word) {
        Err(SpecError::MisplacedSymbol {
            location: SpecLocation::RequestShape,
            incorrect_symbol: ts[2],
            correct_symbol: SpecToken::Word("param_value"@),
        })
    } else if ts.len() == 3 {
        Ok(acc.insert(ts[0]->Word_0, spec_parse_method_shape_value(ts[2]->Word_0)))
    } else if ts[3] != SpecToken::Split(',') {
        Err(SpecError::MisplacedSymbol {
            location: SpecLocation::RequestShape,
            incorrect_symbol: ts[3],
            correct_symbol: SpecToken::Split(','),
        })
    } else {
        spec_request_entries_loop(
            ts.skip(4),
            acc.insert(ts[0]->Word_0, spec_parse_method_shape_value(ts[2]->Word_0)),
        )
    }
}

/// The request-shape decoder: the captured content must open with `{`; the
/// entries up to the first `}` are decoded in chunks of four.
pub open spec fn spec_parse_request_shape(ts: Seq<SpecToken>) -> Result<
    Map<Seq<char>, SpecValue>,
    SpecError,
> {
    if ts.len() == 0 {
        Err(SpecError::UnexpectedEnd {
            location: SpecLocation::RequestShape,
            expected: SpecToken::Encapsulator('{'),
        })
    } else if ts[0] != SpecToken::Encapsulator('{') {
        Err(SpecError::PoorClosure {
            location: SpecLocation::RequestShape,
            incorrect_encap: ts[0],
            correct_encap: SpecToken::Encapsulator('{'),
        })
    } else {
        let j = scan_to(ts, 1, tok_stop(SpecToken::Encapsulator('}')));
        if j >= ts.len() {
            Err(SpecError::UnexpectedEnd {
                location: SpecLocation::RequestShape,
                expected: SpecToken::Encapsulator('}'),
            })
        } else {
            spec_request_entries_loop(ts.subrange(1, j), Map::empty())
        }
    }
}

/// Return-shape entry decoding: the content is split on every `,`; each
/// sub-chunk of length one is a bare field, of length three a field with an
/// alias, of length zero (a trailing comma) ignored.
pub open spec fn spec_return_entries_loop(
    ts: Seq<SpecToken>,
    i: int,
    acc: Map<Seq<char>, Option<Seq<char>>>,
) -> Result<Map<Seq<char>, Option<Seq<char>>>, SpecError>
    decreases ts.len() - i,
    via spec_return_entries_loop_dec
{
    if !(0 <= i <= ts.len()) {
        Ok(acc)
    } else {
        let j = scan_to(ts, i, tok_stop(SpecToken::Split(',')));
        let c = j - i;
        let step = if c == 0 {
            Ok(acc)
        } else if c == 1 {
            if ts[i] is Word {
                Ok(acc.insert(ts[i]->Word_0, None::<Seq<char>>))
            } else {
                Err(SpecError::MisplacedSymbol {
                    location: SpecLocation::ReturnShape,
                    incorrect_symbol: ts[i],
                    correct_symbol: SpecToken::Word("return_value"@),
                })
            }
        } else if c == 3 {
            if !(ts[i] is Word) {
                Err(SpecError::MisplacedSymbol {
                    location: SpecLocation::ReturnShape,
                    incorrect_symbol: ts[i],
                    correct_symbol: SpecToken::Word("return_value"@),
                })
            } else if ts[i + 1] != SpecToken::Split(':') {
                Err(SpecError::MisplacedSymbol {
                    location: SpecLocation::ReturnShape,
                    incorrect_symbol: ts[i + 1],
                    correct_symbol: SpecToken::Split(':'),
                })
            } else if !(ts[i + 2] is StringLiteral) {
                Err(SpecError::MisplacedSymbol {
                    location: SpecLocation::ReturnShape,
                    incorrect_symbol: ts[i + 2],
                    correct_symbol: SpecToken::StringLiteral("return_value_alias"@),
                })
            } else {
                Ok(acc.insert(ts[i]->Word_0, Some(ts[i + 2]->StringLiteral_0)))
            }
        } else {
            Err(SpecError::BadLength {
                location: SpecLocation::ReturnShape,
                incorrect_length: c as usize,
                valid_lengths: seq![3usize, 1usize, 0usize],
            })
        };
        match step {
            Err(e) => Err(e),
            Ok(acc2) => {
                if j < ts.len() {
                    spec_return_entries_loop(ts, j + 1, acc2)
                } else {
                    Ok(acc2)
                }
            },
        }
    }
}

#[via_fn]
proof fn spec_return_entries_loop_dec(
    ts: Seq<SpecToken>,
    i: int,
    acc: Map<Seq<char>, Option<Seq<char>>>,
) {
    if 0 <= i <= ts.len() {
        lemma_scan_to_bounds(ts, i, tok_stop(SpecToken::Split(',')));
    }
}

/// The return-shape decoder: the captured content must open with `{`; the
/// entries up to the first `}` are split on commas and decoded.
pub open spec fn spec_parse_return_shape(ts: Seq<SpecToken>) -> Result<
    Map<Seq<char>, Option<Seq<char>>>,
    SpecError,
> {
    if ts.len() == 0 {
        Err(SpecError::UnexpectedEnd {
            location: SpecLocation::ReturnShape,
            expected: SpecToken::Encapsulator('{'),
        })
    } else if ts[0] != SpecToken::Encapsulator('{') {
        Err(SpecError::PoorClosure {
            location: SpecLocation::ReturnShape,
            incorrect_encap: ts[0],
            correct_encap: SpecToken::Encapsulator('{'),
        })
    } else {
        let j = scan_to(ts, 1, tok_stop(SpecToken::Encapsulator('}')));
        if j >= ts.len() {
            Err(SpecError::UnexpectedEnd {
                location: SpecLocation::ReturnShape,
                expected: SpecToken::Encapsulator('}'),
            })
        } else {
            spec_return_entries_loop(ts.subrange(1, j), 0, Map::empty())
        }
    }
}

/// Object/Global shape decoding: chunks of four (`Word ':' Word ','`) with a
/// final chunk of three allowed to omit the comma; the value word goes
/// through the type table.
pub open spec fn spec_shape_entries_loop(
    ts: Seq<SpecToken>,
    acc: Map<Seq<char>, Type>,
) -> Result<Map<Seq<char>, Type>, SpecError>
    decreases ts.len(),
{
    if ts.len() == 0 {
        Ok(acc)
    } else if ts.len() <= 2 {
        Err(SpecError::BadLength {
            location: SpecLocation::ObjectShape,
            incorrect_length: ts.len() as usize,
            valid_lengths: seq![4usize, 3usize],
        })
    } else if !(ts[0] is Word) {
        Err(SpecError::MisplacedSymbol {
            location: SpecLocation::ObjectShape,
            incorrect_symbol: ts[0],
            correct_symbol: SpecToken::Word("object_shape_name"@),
        })
    } else if ts[1] != SpecToken::Split(':') {
        Err(SpecError::MisplacedSymbol {
            location: SpecLocation::ObjectShape,
            incorrect_symbol: ts[1],
            correct_symbol: SpecToken::Split(':'),
        })
    } else if !(ts[2] is Word) {
        Err(SpecError::MisplacedSymbol {
            location: SpecLocation::ObjectShape,
            incorrect_symbol: ts[2],
            correct_symbol: SpecToken::Word("object_shape_type"@),
        })
    } else {
        match spec_parse_type(ts[2]->Word_0) {
            Err(e) => Err(e),
            Ok(ty) => {
                if ts.len() == 3 {
                    Ok(acc.insert(ts[0]->Word_0, ty))
                } else if ts[3] != SpecToken::Split(',') {
                    Err(SpecError::MisplacedSymbol {
                        location: SpecLocation::ObjectShape,
                        incorrect_symbol: ts[3],
                        correct_symbol: SpecToken::Split(','),
                    })
                } else {
                    spec_shape_entries_loop(ts.skip(4), acc.insert(ts[0]->Word_0, ty))
                }
            },
        }
    }
}

/// The shape decoder: the captured content must open with `{`; the entries
/// up to the first `}` are decoded in chunks of four.
pub open spec fn spec_parse_object_shape(ts: Seq<SpecToken>) -> Result<
    Map<Seq<char>, Type>,
    SpecError,
> {
    if ts.len() == 0 {
        Err(SpecError::UnexpectedEnd {
            location: SpecLocation::ObjectShape,
            expected: SpecToken::Encapsulator('{'),
        })
    } else if ts[0] != SpecToken::Encapsulator('{') {
        Err(SpecError::PoorClosure {
            location: SpecLocation::ObjectShape,
            incorrect_encap: ts[0],
            correct_encap: SpecToken::Encapsulator('{'),
        })
    } else {
        let j = scan_to(ts, 1, tok_stop(SpecToken::Encapsulator('}')));
        if j >= ts.len() {
            Err(SpecError::UnexpectedEnd {
                location: SpecLocation::ObjectShape,
                expected: SpecToken::Encapsulator('}'),
            })
        } else {
            spec_shape_entries_loop(ts.subrange(1, j), Map::empty())
        }
    }
}

/// Method-name-list decoding: chunks of two (`Word ','`) with a final chunk
/// of one allowed to omit the comma, in source order.
pub open spec fn spec_names_loop(ts: Seq<SpecToken>, acc: Seq<Seq<char>>) -> Result<
    Seq<Seq<char>>,
    SpecError,
>
    decreases ts.len(),
{
    if ts.len() == 0 {
        Ok(acc)
    } else if !(ts[0] is Word) {
        Err(SpecError::MisplacedSymbol {
            location: SpecLocation::ObjectMethods,
            incorrect_symbol: ts[0],
            correct_symbol: SpecToken::Word("method_name"@),
        })
    } else if ts.len() == 1 {
        Ok(acc.push(ts[0]->Word_0))
    } else if ts[1] != SpecToken::Split(',') {
        Err(SpecError::MisplacedSymbol {
            location: SpecLocation::ObjectMethods,
            incorrect_symbol: ts[1],
            correct_symbol: SpecToken::Split(','),
        })
    } else {
        spec_names_loop(ts.skip(2), acc.push(ts[0]->Word_0))
    }
}

/// The method-name-list decoder: the captured content must open with `[`;
/// the names up to the first `]` are decoded in chunks of two.
pub open spec fn spec_parse_object_methods(ts: Seq<SpecToken>) -> Result<
    Seq<Seq<char>>,
    SpecError,
> {
    if ts.len() == 0 {
        Err(SpecError::UnexpectedEnd {
            location: SpecLocation::ObjectMethods,
            expected: SpecToken::Encapsulator('['),
        })
    } else if ts[0] != SpecToken::Encapsulator('[') {
        Err(SpecError::PoorClosure {
            location: SpecLocation::ObjectMethods,
            incorrect_encap: ts[0],
            correct_encap: SpecToken::Encapsulator('['),
        })
    } else {
        let j = scan_to(ts, 1, tok_stop(SpecToken::Encapsulator(']')));
        if j >= ts.len() {
            Err(SpecError::UnexpectedEnd {
                location: SpecLocation::ObjectMethods,
                expected: SpecToken::Encapsulator(']'),
            })
        } else {
            spec_names_loop(ts.subrange(1, j), Seq::empty())
        }
    }
}

/// The accumulated fields of a method body while its directives are decoded.
pub struct SpecMethodInternal {
    pub route: Seq<char>,
    pub request_shape: Map<Seq<char>, SpecValue>,
    pub request_type: RequestType,
    pub return_shape: Map<Seq<char>, Option<Seq<char>>>,
    pub return_object: Seq<char>,
}

/// The defaults a method body starts from: every directive is optional, and
/// a repeated directive overwrites the earlier value.
pub open spec fn spec_method_internal_default() -> SpecMethodInternal {
    SpecMethodInternal {
        route: Seq::empty(),
        request_shape: Map::empty(),
        request_type: RequestType::GET,
        return_shape: Map::empty(),
        return_object: Seq::empty(),
    }
}

/// The directive loop of a method body: `route(...)`, `request<...>(...)`
/// and `return<...>(...)` in any order and multiplicity; the loop stops
/// silently at the end of the content or at a token that is not a word.
pub open spec fn spec_method_directives_loop(
    ts: Seq<SpecToken>,
    i: int,
    acc: SpecMethodInternal,
) -> Result<SpecMethodInternal, SpecError>
    decreases ts.len() - i,
    via spec_method_directives_loop_dec
{
    if !(0 <= i < ts.len()) {
        Ok(acc)
    } else if !(ts[i] is Word) {
        Ok(acc)
    } else {
        let w = ts[i]->Word_0;
        if w == "route"@ {
            if i + 1 >= ts.len() {
                Err(SpecError::UnexpectedEnd {
                    location: SpecLocation::MethodInternal,
                    expected: SpecToken::Encapsulator('('),
                })
            } else if ts[i + 1] != SpecToken::Encapsulator('(') {
                Err(SpecError::PoorClosure {
                    location: SpecLocation::MethodInternal,
                    incorrect_encap: ts[i + 1],
                    correct_encap: SpecToken::Encapsulator('('),
                })
            } else {
                let j = scan_to(ts, i + 2, tok_stop(SpecToken::Encapsulator(')')));
                if j >= ts.len() {
                    Err(SpecError::UnexpectedEnd {
                        location: SpecLocation::MethodInternal,
                        expected: SpecToken::Encapsulator(')'),
                    })
                } else if j == i + 2 {
                    Err(SpecError::UnexpectedEnd {
                        location: SpecLocation::MethodInternal,
                        expected: SpecToken::StringLiteral("route"@),
                    })
                } else if !(ts[i + 2] is StringLiteral) {
                    Err(SpecError::MisplacedSymbol {
                        location: SpecLocation::MethodInternal,
                        incorrect_symbol: ts[i + 2],
                        correct_symbol: SpecToken::StringLiteral("route"@),
                    })
                } else {
                    spec_method_directives_loop(
                        ts,
                        j + 1,
                        SpecMethodInternal { route: ts[i + 2]->StringLiteral_0, ..acc },
                    )
                }
            }
        } else if w == "request"@ {
            if i + 1 >= ts.len() {
                Err(SpecError::UnexpectedEnd {
                    location: SpecLocation::MethodInternal,
                    expected: SpecToken::Encapsulator('<'),
                })
            } else if ts[i + 1] != SpecToken::Encapsulator('<') {
                Err(SpecError::PoorClosure {
                    location: SpecLocation::MethodInternal,
                    incorrect_encap: ts[i + 1],
                    correct_encap: SpecToken::Encapsulator('<'),
                })
            } else {
                let j = scan_to(ts, i + 2, tok_stop(SpecToken::Encapsulator('>')));
                if j >= ts.len() {
                    Err(SpecError::UnexpectedEnd {
                        location: SpecLocation::MethodInternal,
                        expected: SpecToken::Encapsulator('>'),
                    })
                } else if j == i + 2 {
                    Err(SpecError::UnexpectedEnd {
                        location: SpecLocation::MethodInternal,
                        expected: SpecToken::Word("request_type"@),
                    })
                } else if !(ts[i + 2] is Word) {
                    Err(SpecError::MisplacedSymbol {
                        location: SpecLocation::MethodInternal,
                        incorrect_symbol: ts[i + 2],
                        correct_symbol: SpecToken::Word("request_type"@),
                    })
                } else {
                    match spec_parse_request_type(ts[i + 2]->Word_0) {
                        Err(e) => Err(e),
                        Ok(verb) => {
                            let k = j + 1;
                            if k >= ts.len() {
                                Err(SpecError::UnexpectedEnd {
                                    location: SpecLocation::MethodInternal,
                                    expected: SpecToken::Encapsulator('('),
                                })
                            } else if ts[k] != SpecToken::Encapsulator('(') {
                                Err(SpecError::PoorClosure {
                                    location: SpecLocation::MethodInternal,
                                    incorrect_encap: ts[k],
                                    correct_encap: SpecToken::Encapsulator('('),
                                })
                            } else {
                                let m = scan_to(ts, k + 1, tok_stop(SpecToken::Encapsulator(')')));
                                if m >= ts.len() {
                                    Err(SpecError::UnexpectedEnd {
                                        location: SpecLocation::MethodInternal,
                                        expected: SpecToken::Encapsulator(')'),
                                    })
                                } else {
                                    match spec_parse_request_shape(ts.subrange(k + 1, m)) {
                                        Err(e) => Err(e),
                                        Ok(shape) => spec_method_directives_loop(
                                            ts,
                                            m + 1,
                                            SpecMethodInternal {
                                                request_type: verb,
                                                request_shape: shape,
                                                ..acc
                                            },
                                        ),
                                    }
                                }
                            }
                        },
                    }
                }
            }
        } else if w == "return"@ {
            if i + 1 >= ts.len() {
                Err(SpecError::UnexpectedEnd {
                    location: SpecLocation::MethodInternal,
                    expected: SpecToken::Encapsulator('<'),
                })
            } else if ts[i + 1] != SpecToken::Encapsulator('<') {
                Err(SpecError::PoorClosure {
                    location: SpecLocation::MethodInternal,
                    incorrect_encap: ts[i + 1],
                    correct_encap: SpecToken::Encapsulator('<'),
                })
            } else {
                let j = scan_to(ts, i + 2, tok_stop(SpecToken::Encapsulator('>')));
                if j >= ts.len() {
                    Err(SpecError::UnexpectedEnd {
                        location: SpecLocation::MethodInternal,
                        expected: SpecToken::Encapsulator('>'),
                    })
                } else if j == i + 2 {
                    Err(SpecError::UnexpectedEnd {
                        location: SpecLocation::MethodInternal,
                        expected: SpecToken::Word("return_object"@),
                    })
                } else if !(ts[i + 2] is Word) {
                    Err(SpecError::MisplacedSymbol {
                        location: SpecLocation::MethodInternal,
                        incorrect_symbol: ts[i + 2],
                        correct_symbol: SpecToken::Word("return_object"@),
                    })
                } else {
                    let k = j + 1;
                    if k >= ts.len() {
                        Err(SpecError::UnexpectedEnd {
                            location: SpecLocation::MethodInternal,
                            expected: SpecToken::Encapsulator('('),
                        })
                    } else if ts[k] != SpecToken::Encapsulator('(') {
                        Err(SpecError::PoorClosure {
                            location: SpecLocation::MethodInternal,
                            incorrect_encap: ts[k],
                            correct_encap: SpecToken::Encapsulator('('),
                        })
                    } else {
                        let m = scan_to(ts, k + 1, tok_stop(SpecToken::Encapsulator(')')));
                        if m >= ts.len() {
                            Err(SpecError::UnexpectedEnd {
                                location: SpecLocation::MethodInternal,
                                expected: SpecToken::Encapsulator(')'),
                            })
                        } else {
                            match spec_parse_return_shape(ts.subrange(k + 1, m)) {
                                Err(e) => Err(e),
                                Ok(shape) => spec_method_directives_loop(
                                    ts,
                                    m + 1,
                                    SpecMethodInternal {
                                        return_object: ts[i + 2]->Word_0,
                                        return_shape: shape,
                                        ..acc
                                    },
                                ),
                            }
                        }
                    }
                }
            }
        } else {
            Err(SpecError::InvalidSymbolBody {
                location: SpecLocation::MethodInternal,
                incorrect_symbol: ts[i],
                valid_symbols: seq!["route"@, "request"@, "return"@],
            })
        }
    }
}

#[via_fn]
proof fn spec_method_directives_loop_dec(ts: Seq<SpecToken>, i: int, acc: SpecMethodInternal) {
    if 0 <= i && i + 2 <= ts.len() {
        lemma_scan_to_bounds(ts, i + 2, tok_stop(SpecToken::Encapsulator(')')));
        lemma_scan_to_bounds(ts, i + 2, tok_stop(SpecToken::Encapsulator('>')));
        let j = scan_to(ts, i + 2, tok_stop(SpecToken::Encapsulator('>')));
        if j + 2 <= ts.len() {
            lemma_scan_to_bounds(ts, j + 2, tok_stop(SpecToken::Encapsulator(')')));
        }
    }
}

/// The method-body decoder: the content must start with a word, and the
/// directive loop folds the directives into the defaults.
pub open spec fn spec_parse_method_internal(ts: Seq<SpecToken>) -> Result<
    SpecMethodInternal,
    SpecError,
> {
    if ts.len() == 0 {
        Err(SpecError::UnexpectedEnd {
            location: SpecLocation::MethodInternal,
            expected: SpecToken::Word(""@),
        })
    } else if !(ts[0] is Word) {
        Err(SpecError::MisplacedSymbol {
            location: SpecLocation::MethodInternal,
            incorrect_symbol: ts[0],
            correct_symbol: SpecToken::Word(""@),
        })
    } else {
        spec_method_directives_loop(ts, 0, spec_method_internal_default())
    }
}

/// A whole method declaration:
/// `Method Name '(' args ')' '{' directives '}' ';'`.
pub open spec fn spec_parse_method(ts: Seq<SpecToken>) -> Result<SpecMethod, SpecError> {
    if ts.len() == 0 {
        Err(SpecError::UnexpectedEnd {
            location: SpecLocation::Method,
            expected: SpecToken::Word("Method"@),
        })
    } else if ts[0] != SpecToken::Word("Method"@) {
        Err(SpecError::InvalidSymbolBody {
            location: SpecLocation::Method,
            incorrect_symbol: ts[0],
            valid_symbols: seq!["Method"@],
        })
    } else if ts.len() < 2 {
        Err(SpecError::UnexpectedEnd {
            location: SpecLocation::Method,
            expected: SpecToken::Word("method_name"@),
        })
    } else if !(ts[1] is Word) {
        Err(SpecError::MisplacedSymbol {
            location: SpecLocation::Method,
            incorrect_symbol: ts[1],
            correct_symbol: SpecToken::Word("method_name"@),
        })
    } else if ts.len() < 3 {
        Err(SpecError::UnexpectedEnd {
            location: SpecLocation::Method,
            expected: SpecToken::Encapsulator('('),
        })
    } else if ts[2] != SpecToken::Encapsulator('(') {
        Err(SpecError::PoorClosure {
            location: SpecLocation::Method,
            incorrect_encap: ts[2],
            correct_encap: SpecToken::Encapsulator('('),
        })
    } else {
        let j = scan_to(ts, 3, tok_stop(SpecToken::Encapsulator(')')));
        if j >= ts.len() {
            Err(SpecError::UnexpectedEnd {
                location: SpecLocation::Method,
                expected: SpecToken::Encapsulator(')'),
            })
        } else {
            match spec_parse_method_arguments(ts.subrange(3, j)) {
                Err(e) => Err(e),
                Ok(args) => {
                    let k = j + 1;
                    if k >= ts.len() {
                        Err(SpecError::UnexpectedEnd {
                            location: SpecLocation::Method,
                            expected: SpecToken::Encapsulator('{'),
                        })
                    } else if ts[k] != SpecToken::Encapsulator('{') {
                        Err(SpecError::PoorClosure {
                            location: SpecLocation::Method,
                            incorrect_encap: ts[k],
                            correct_encap: SpecToken::Encapsulator('{'),
                        })
                    } else {
                        let m = scan_to(ts, k + 1, tok_stop(SpecToken::Split(';')));
                        if m >= ts.len() {
                            Err(SpecError::UnexpectedEnd {
                                location: SpecLocation::Method,
                                expected: SpecToken::Split(';'),
                            })
                        } else if m == k + 1 {
                            Err(SpecError::UnexpectedEnd {
                                location: SpecLocation::Method,
                                expected: SpecToken::Encapsulator('}'),
                            })
                        } else {
                            match spec_parse_method_internal(
                                ts.subrange(k + 1, m).drop_last(),
                            ) {
                                Err(e) => Err(e),
                                Ok(mi) => Ok(
                                    SpecMethod {
                                        name: ts[1]->Word_0,
                                        arguments: args,
                                        route: mi.route,
                                        request_shape: mi.request_shape,
                                        request_type: mi.request_type,
                                        return_shape: mi.return_shape,
                                        return_object: mi.return_object,
                                    },
                                ),
                            }
                        }
                    }
                },
            }
        }
    }
}

/// The directive loop of an object body: `shape(...)` and `methods(...)`.
pub open spec fn spec_object_directives_loop(
    ts: Seq<SpecToken>,
    i: int,
    shape: Map<Seq<char>, Type>,
    methods: Seq<Seq<char>>,
) -> Result<(Map<Seq<char>, Type>, Seq<Seq<char>>), SpecError>
    decreases ts.len() - i,
    via spec_object_directives_loop_dec
{
    if !(0 <= i < ts.len()) {
        Ok((shape, methods))
    } else if !(ts[i] is Word) {
        Ok((shape, methods))
    } else {
        let w = ts[i]->Word_0;
        if w == "shape"@ || w == "methods"@ {
            if i + 1 >= ts.len() {
                Err(SpecError::UnexpectedEnd {
                    location: SpecLocation::Object,
                    expected: SpecToken::Encapsulator('('),
                })
            } else if ts[i + 1] != SpecToken::Encapsulator('(') {
                Err(SpecError::PoorClosure {
                    location: SpecLocation::Object,
                    incorrect_encap: ts[i + 1],
                    correct_encap: SpecToken::Encapsulator('('),
                })
            } else {
                let j = scan_to(ts, i + 2, tok_stop(SpecToken::Encapsulator(')')));
                if j >= ts.len() {
                    Err(SpecError::UnexpectedEnd {
                        location: SpecLocation::Object,
                        expected: SpecToken::Encapsulator(')'),
                    })
                } else if w == "shape"@ {
                    match spec_parse_object_shape(ts.subrange(i + 2, j)) {
                        Err(e) => Err(e),
                        Ok(sh) => spec_object_directives_loop(ts, j + 1, sh, methods),
                    }
                } else {
                    match spec_parse_object_methods(ts.subrange(i + 2, j)) {
                        Err(e) => Err(e),
                        Ok(ms) => spec_object_directives_loop(ts, j + 1, shape, ms),
                    }
                }
            }
        } else {
            Err(SpecError::InvalidSymbolBody {
                location: SpecLocation::Object,
                incorrect_symbol: ts[i],
                valid_symbols: seq!["shape"@, "methods"@],
            })
        }
    }
}

#[via_fn]
proof fn spec_object_directives_loop_dec(
    ts: Seq<SpecToken>,
    i: int,
    shape: Map<Seq<char>, Type>,
    methods: Seq<Seq<char>>,
) {
    if 0 <= i && i + 2 <= ts.len() {
        lemma_scan_to_bounds(ts, i + 2, tok_stop(SpecToken::Encapsulator(')')));
    }
}

/// A whole object declaration: `Object Name '{' directives '}' ';'`.
pub open spec fn spec_parse_object(ts: Seq<SpecToken>) -> Result<SpecObject, SpecError> {
    if ts.len() == 0 {
        Err(SpecError::UnexpectedEnd {
            location: SpecLocation::Object,
            expected: SpecToken::Word("Object"@),
        })
    } else if ts[0] != SpecToken::Word("Object"@) {
        Err(SpecError::InvalidSymbolBody {
            location: SpecLocation::Object,
            incorrect_symbol: ts[0],
            valid_symbols: seq!["Object"@],
        })
    } else if ts.len() < 2 {
        Err(SpecError::UnexpectedEnd {
            location: SpecLocation::Object,
            expected: SpecToken::Word("object_name"@),
        })
    } else if !(ts[1] is Word) {
        Err(SpecError::MisplacedSymbol {
            location: SpecLocation::Object,
            incorrect_symbol: ts[1],
            correct_symbol: SpecToken::Word("object_name"@),
        })
    } else if ts.len() < 3 {
        Err(SpecError::UnexpectedEnd {
            location: SpecLocation::Object,
            expected: SpecToken::Encapsulator('{'),
        })
    } else if ts[2] != SpecToken::Encapsulator('{') {
        Err(SpecError::PoorClosure {
            location: SpecLocation::Object,
            incorrect_encap: ts[2],
            correct_encap: SpecToken::Encapsulator('{'),
        })
    } else {
        let m = scan_to(ts, 3, tok_stop(SpecToken::Split(';')));
        if m >= ts.len() {
            Err(SpecError::UnexpectedEnd {
                location: SpecLocation::Object,
                expected: SpecToken::Split(';'),
            })
        } else if m == 3 {
            Err(SpecError::UnexpectedEnd {
                location: SpecLocation::Object,
                expected: SpecToken::Encapsulator('}'),
            })
        } else {
            let internal = ts.subrange(3, m).drop_last();
            if internal.len() == 0 {
                Err(SpecError::UnexpectedEnd {
                    location: SpecLocation::Object,
                    expected: SpecToken::Word("function"@),
                })
            } else if !(internal[0] is Word) {
                Err(SpecError::MisplacedSymbol {
                    location: SpecLocation::Object,
                    incorrect_symbol: internal[0],
                    correct_symbol: SpecToken::Word("function"@),
                })
            } else {
                match spec_object_directives_loop(internal, 0, Map::empty(), Seq::empty()) {
                    Err(e) => Err(e),
                    Ok(parts) => Ok(
                        SpecObject { name: ts[1]->Word_0, shape: parts.0, methods: parts.1 },
                    ),
                }
            }
        }
    }
}

/// The directive loop of the Global body: `headRoute(...)`, `shape(...)`
/// and `methods(...)`.
pub open spec fn spec_global_directives_loop(
    ts: Seq<SpecToken>,
    i: int,
    head_route: Seq<char>,
    shape: Map<Seq<char>, Type>,
    methods: Seq<Seq<char>>,
) -> Result<(Seq<char>, Map<Seq<char>, Type>, Seq<Seq<char>>), SpecError>
    decreases ts.len() - i,
    via spec_global_directives_loop_dec
{
    if !(0 <= i < ts.len()) {
        Ok((head_route, shape, methods))
    } else if !(ts[i] is Word) {
        Ok((head_route, shape, methods))
    } else {
        let w = ts[i]->Word_0;
        if w == "headRoute"@ || w == "shape"@ || w == "methods"@ {
            if i + 1 >= ts.len() {
                Err(SpecError::UnexpectedEnd {
                    location: SpecLocation::Global,
                    expected: SpecToken::Encapsulator('('),
                })
            } else if ts[i + 1] != SpecToken::Encapsulator('(') {
                Err(SpecError::PoorClosure {
                    location: SpecLocation::Global,
                    incorrect_encap: ts[i + 1],
                    correct_encap: SpecToken::Encapsulator('('),
                })
            } else {
                let j = scan_to(ts, i + 2, tok_stop(SpecToken::Encapsulator(')')));
                if j >= ts.len() {
                    Err(SpecError::UnexpectedEnd {
                        location: SpecLocation::Global,
                        expected: SpecToken::Encapsulator(')'),
                    })
                } else if w == "headRoute"@ {
                    if j == i + 2 {
                        Err(SpecError::UnexpectedEnd {
                            location: SpecLocation::Global,
                            expected: SpecToken::StringLiteral("head_route"@),
                        })
                    } else if !(ts[i + 2] is StringLiteral) {
                        Err(SpecError::MisplacedSymbol {
                            location: SpecLocation::Global,
                            incorrect_symbol: ts[i + 2],
                            correct_symbol: SpecToken::StringLiteral("head_route"@),
                        })
                    } else {
                        spec_global_directives_loop(
                            ts,
                            j + 1,
                            ts[i + 2]->StringLiteral_0,
                            shape,
                            methods,
                        )
                    }
                } else if w == "shape"@ {
                    match spec_parse_object_shape(ts.subrange(i + 2, j)) {
                        Err(e) => Err(e),
                        Ok(sh) => spec_global_directives_loop(ts, j + 1, head_route, sh, methods),
                    }
                } else {
                    match spec_parse_object_methods(ts.subrange(i + 2, j)) {
                        Err(e) => Err(e),
                        Ok(ms) => spec_global_directives_loop(ts, j + 1, head_route, shape, ms),
                    }
                }
            }
        } else {
            Err(SpecError::InvalidSymbolBody {
                location: SpecLocation::Global,
                incorrect_symbol: ts[i],
                valid_symbols: seq!["headRoute"@, "methods"@, "shape"@],
            })
        }
    }
}

#[via_fn]
proof fn spec_global_directives_loop_dec(
    ts: Seq<SpecToken>,
    i: int,
    head_route: Seq<char>,
    shape: Map<Seq<char>, Type>,
    methods: Seq<Seq<char>>,
) {
    if 0 <= i && i + 2 <= ts.len() {
        lemma_scan_to_bounds(ts, i + 2, tok_stop(SpecToken::Encapsulator(')')));
    }
}

/// A whole Global declaration: `Global Name '{' directives '}' ';'`.
pub open spec fn spec_parse_global(ts: Seq<SpecToken>) -> Result<SpecGlobal, SpecError> {
    if ts.len() == 0 {
        Err(SpecError::UnexpectedEnd {
            location: SpecLocation::Global,
            expected: SpecToken::Word("Global"@),
        })
    } else if ts[0] != SpecToken::Word("Global"@) {
        Err(SpecError::InvalidSymbolBody {
            location: SpecLocation::Global,
            incorrect_symbol: ts[0],
            valid_symbols: seq!["Global"@],
        })
    } else if ts.len() < 2 {
        Err(SpecError::UnexpectedEnd {
            location: SpecLocation::Global,
            expected: SpecToken::Word("global_object_name"@),
        })
    } else if !(ts[1] is Word) {
        Err(SpecError::MisplacedSymbol {
            location: SpecLocation::Global,
            incorrect_symbol: ts[1],
            correct_symbol: SpecToken::Word("global_object_name"@),
        })
    } else if ts.len() < 3 {
        Err(SpecError::UnexpectedEnd {
            location: SpecLocation::Global,
            expected: SpecToken::Encapsulator('{'),
        })
    } else if ts[2] != SpecToken::Encapsulator('{') {
        Err(SpecError::PoorClosure {
            location: SpecLocation::Global,
            incorrect_encap: ts[2],
            correct_encap: SpecToken::Encapsulator('{'),
        })
    } else {
        let m = scan_to(ts, 3, tok_stop(SpecToken::Split(';')));
        if m >= ts.len() {
            Err(SpecError::UnexpectedEnd {
                location: SpecLocation::Global,
                expected: SpecToken::Split(';'),
            })
        } else if m == 3 {
            Err(SpecError::UnexpectedEnd {
                location: SpecLocation::Global,
                expected: SpecToken::Encapsulator('}'),
            })
        } else {
            let internal = ts.subrange(3, m).drop_last();
            if internal.len() == 0 {
                Err(SpecError::UnexpectedEnd {
                    location: SpecLocation::Global,
                    expected: SpecToken::Word("function"@),
                })
            } else if !(internal[0] is Word) {
                Err(SpecError::MisplacedSymbol {
                    location: SpecLocation::Global,
                    incorrect_symbol: internal[0],
                    correct_symbol: SpecToken::Word("function"@),
                })
            } else {
                match spec_global_directives_loop(
                    internal,
                    0,
                    Seq::empty(),
                    Map::empty(),
                    Seq::empty(),
                ) {
                    Err(e) => Err(e),
                    Ok(parts) => Ok(
                        SpecGlobal {
                            name: ts[1]->Word_0,
                            head_route: parts.0,
                            shape: parts.1,
                            methods: parts.2,
                        },
                    ),
                }
            }
        }
    }
}

/// One file's worth of assembly: what the project assembler does with the
/// token sequence of one declaration file named `name`.
pub open spec fn spec_dispatch_ok(ts: Seq<SpecToken>, name: Seq<char>) -> bool {
    ts.len() > 0 && ts[0] is Word && (ts[0]->Word_0 == "Global"@ || ts[0]->Word_0 == "Method"@
        || ts[0]->Word_0 == "Object"@)
}

/// The fold of the project assembler over the files, each given as a
/// (file name, source text) pair, in order.
pub open spec fn spec_assemble_loop(
    files: Seq<(Seq<char>, Seq<char>)>,
    i: int,
    global: Option<SpecGlobal>,
    objects: Map<Seq<char>, SpecObject>,
    methods: Map<Seq<char>, SpecMethod>,
) -> Result<SpecProject, SpecError>
    decreases files.len() - i,
{
    if !(0 <= i < files.len()) {
        match global {
            Some(g) => Ok(SpecProject { global: g, objects, methods }),
            None => Err(SpecError::FieldNotExistent {
                location: SpecLocation::Project { file_name: "entire project"@ },
                missing_field: "Global"@,
            }),
        }
    } else {
        let name = files[i].0;
        let ts = lex(files[i].1);
        if ts.len() == 0 {
            Err(SpecError::UnexpectedEnd {
                location: SpecLocation::Project { file_name: name },
                expected: SpecToken::Word(""@),
            })
        } else if ts[0] is Word {
            let w = ts[0]->Word_0;
            if w == "Global"@ {
                match spec_parse_global(ts) {
                    Err(e) => Err(e),
                    Ok(g) => spec_assemble_loop(files, i + 1, Some(g), objects, methods),
                }
            } else if w == "Method"@ {
                match spec_parse_method(ts) {
                    Err(e) => Err(e),
                    Ok(m) => spec_assemble_loop(
                        files,
                        i + 1,
                        global,
                        objects,
                        methods.insert(m.name, m),
                    ),
                }
            } else if w == "Object"@ {
                match spec_parse_object(ts) {
                    Err(e) => Err(e),
                    Ok(o) => spec_assemble_loop(
                        files,
                        i + 1,
                        global,
                        objects.insert(o.name, o),
                        methods,
                    ),
                }
            } else {
                Err(SpecError::InvalidSymbolBody {
                    location: SpecLocation::Project { file_name: name },
                    incorrect_symbol: ts[0],
                    valid_symbols: seq!["Global"@, "Object"@, "Method"@],
                })
            }
        } else {
            Err(SpecError::MisplacedSymbol {
                location: SpecLocation::Project { file_name: name },
                incorrect_symbol: ts[0],
                correct_symbol: SpecToken::Word(""@),
            })
        }
    }
}

/// The project assembler over a sequence of (file name, source text) pairs:
/// each file is tokenised and dispatched on its leading keyword, Objects and
/// Methods are keyed by declared name with later files overwriting earlier
/// ones, and a project that never saw a Global is rejected at the end.
pub open spec fn spec_parse_project(files: Seq<(Seq<char>, Seq<char>)>) -> Result<
    SpecProject,
    SpecError,
> {
    spec_assemble_loop(files, 0, None, Map::empty(), Map::empty())
}

} // verus!
