//! General properties of the grammar, stated and proved once over the
//! reference semantics.
//!
//! The lexer's own law — totality and determinism — is the `ensures` of
//! [`crate::token::tokenise`] itself: the result equals the spec function
//! `lex` of the input, for every input. The laws here concern the decoders
//! and the assembler.

use vstd::prelude::*;
use crate::errors::{SpecError, SpecLocation};
use crate::grammar::{
    spec_args_loop, spec_assemble_loop, spec_parse_global, spec_parse_method,
    spec_parse_method_arguments, spec_parse_object, spec_parse_project, spec_parse_type,
};
use crate::token::{lex, SpecToken};
use crate::types::Type;

verus! {

/// The token form of a well-formed argument list: for each (name, type
/// spelling) entry in order, the three tokens `Word(spelling) Word(name) ','`.
pub open spec fn args_tokens(entries: Seq<(Seq<char>, Seq<char>)>) -> Seq<SpecToken>
    decreases entries.len(),
{
    if entries.len() == 0 {
        Seq::empty()
    } else {
        seq![
            SpecToken::Word(entries[0].1),
            SpecToken::Word(entries[0].0),
            SpecToken::Split(','),
        ] + args_tokens(entries.drop_first())
    }
}

/// The map a well-formed argument list denotes, folded over `acc` in source
/// order.
pub open spec fn args_map(
    entries: Seq<(Seq<char>, Seq<char>)>,
    acc: Map<Seq<char>, Type>,
) -> Map<Seq<char>, Type>
    decreases entries.len(),
{
    if entries.len() == 0 {
        acc
    } else {
        args_map(
            entries.drop_first(),
            acc.insert(entries[0].0, spec_parse_type(entries[0].1)->Ok_0),
        )
    }
}

/// Whether `x` occurs among the argument names of `entries`.
pub open spec fn has_name(entries: Seq<(Seq<char>, Seq<char>)>, x: Seq<char>) -> bool {
    exists|k: int| 0 <= k < entries.len() && entries[k].0 == x
}

/// The argument decoder accepts every well-formed list and folds it, entry
/// by entry in source order, over the accumulated map.
proof fn lemma_args_loop_builds(entries: Seq<(Seq<char>, Seq<char>)>, acc: Map<Seq<char>, Type>)
    requires
        forall|k: int|
            0 <= k < entries.len() ==> (#[trigger] spec_parse_type(entries[k].1)) is Ok,
    ensures
        spec_args_loop(args_tokens(entries), acc) == Ok::<Map<Seq<char>, Type>, SpecError>(
            args_map(entries, acc),
        ),
    decreases entries.len(),
{
    if entries.len() > 0 {
        let rest = entries.drop_first();
        let ts = args_tokens(entries);
        assert(entries[0] == entries.first());
        assert(forall|k: int|
            0 <= k < rest.len() ==> rest[k] == entries[k + 1]);
        let acc2 = acc.insert(entries[0].0, spec_parse_type(entries[0].1)->Ok_0);
        lemma_args_loop_builds(rest, acc2);
        assert(ts.len() == 3 + args_tokens(rest).len());
        assert(ts[0] == SpecToken::Word(entries[0].1));
        assert(ts[1] == SpecToken::Word(entries[0].0));
        assert(ts[2] == SpecToken::Split(','));
        assert(ts.skip(3) =~= args_tokens(rest));
        assert(spec_args_loop(ts, acc) == spec_args_loop(ts.skip(3), acc2));
    }
}

/// How `args_map` relates to its accumulator when the names are distinct
/// and fresh: untouched keys are preserved, every entry is present with its
/// decoded type, and the size grows by exactly the number of entries.
proof fn lemma_args_map_props(entries: Seq<(Seq<char>, Seq<char>)>, acc: Map<Seq<char>, Type>)
    requires
        acc.dom().finite(),
        forall|k1: int, k2: int|
            0 <= k1 < k2 < entries.len() ==> entries[k1].0 != entries[k2].0,
        forall|k: int| 0 <= k < entries.len() ==> !acc.contains_key(#[trigger] entries[k].0),
    ensures
        args_map(entries, acc).dom().finite(),
        args_map(entries, acc).len() == acc.len() + entries.len(),
        forall|x: Seq<char>|
            !has_name(entries, x) ==> (args_map(entries, acc).contains_key(x)
                == acc.contains_key(x)),
        forall|x: Seq<char>|
            !has_name(entries, x) && acc.contains_key(x) ==> args_map(entries, acc)[x] == acc[x],
        forall|k: int|
            0 <= k < entries.len() ==> args_map(entries, acc).contains_key(
                #[trigger] entries[k].0,
            ) && args_map(entries, acc)[entries[k].0] == spec_parse_type(entries[k].1)->Ok_0,
    decreases entries.len(),
{
    if entries.len() > 0 {
        let rest = entries.drop_first();
        let name0 = entries[0].0;
        let ty0 = spec_parse_type(entries[0].1)->Ok_0;
        let acc2 = acc.insert(name0, ty0);
        assert(forall|k: int| 0 <= k < rest.len() ==> rest[k] == entries[k + 1]);
        assert(forall|k: int| 0 <= k < rest.len() ==> !acc2.contains_key(
            #[trigger] rest[k].0,
        )) by {
            assert(forall|k: int|
                0 <= k < rest.len() ==> rest[k].0 == entries[k + 1].0 && entries[k + 1].0
                    != name0);
        }
        lemma_args_map_props(rest, acc2);
        assert(acc2.len() == acc.len() + 1) by {
            assert(!acc.contains_key(name0));
        }
        assert(!has_name(rest, name0)) by {
            assert(forall|k: int| 0 <= k < rest.len() ==> rest[k].0 != name0);
        }
        assert(args_map(entries, acc) == args_map(rest, acc2));
        // the head entry survives the fold over the remaining entries
        assert(args_map(rest, acc2).contains_key(name0) && args_map(rest, acc2)[name0] == ty0);
        assert forall|x: Seq<char>| !has_name(entries, x) implies !has_name(rest, x) && x
            != name0 by {
            if has_name(rest, x) {
                let k = choose|k: int| 0 <= k < rest.len() && rest[k].0 == x;
                assert(entries[k + 1].0 == x);
                assert(has_name(entries, x));
            }
            if x == name0 {
                assert(entries[0].0 == x);
                assert(has_name(entries, x));
            }
        }
        assert(forall|k: int|
            0 <= k < entries.len() ==> args_map(entries, acc).contains_key(
                #[trigger] entries[k].0,
            ) && args_map(entries, acc)[entries[k].0] == spec_parse_type(entries[k].1)->Ok_0)
            by {
            assert(forall|k: int| 1 <= k < entries.len() ==> entries[k] == rest[k - 1]);
        }
    }
}

/// Chunk-decoder exhaustiveness: a well-formed argument list of N
/// parameters — N entries of `Word(type) Word(name) ','` with valid type
/// spellings and pairwise-distinct names — decodes to a map with exactly N
/// entries, each name bound to the type spelled beside it in the source.
pub proof fn lemma_arguments_decoder_exhaustive(entries: Seq<(Seq<char>, Seq<char>)>)
    requires
        forall|k: int|
            0 <= k < entries.len() ==> (#[trigger] spec_parse_type(entries[k].1)) is Ok,
        forall|k1: int, k2: int|
            0 <= k1 < k2 < entries.len() ==> entries[k1].0 != entries[k2].0,
    ensures
        spec_parse_method_arguments(args_tokens(entries)) is Ok,
        spec_parse_method_arguments(args_tokens(entries))->Ok_0.len() == entries.len(),
        forall|k: int|
            0 <= k < entries.len() ==> spec_parse_method_arguments(
                args_tokens(entries),
            )->Ok_0.contains_key(#[trigger] entries[k].0) && spec_parse_method_arguments(
                args_tokens(entries),
            )->Ok_0[entries[k].0] == spec_parse_type(entries[k].1)->Ok_0,
{
    lemma_args_loop_builds(entries, Map::empty());
    lemma_args_map_props(entries, Map::empty());
}

/// Bracket-mismatch detection, method arguments: a `Method` declaration
/// whose token after the name is anything but `(` is rejected with a
/// `PoorClosure` naming exactly `(`.
pub proof fn lemma_method_missing_paren(ts: Seq<SpecToken>)
    requires
        ts.len() >= 3,
        ts[0] == SpecToken::Word("Method"@),
        ts[1] is Word,
        ts[2] != SpecToken::Encapsulator('('),
    ensures
        spec_parse_method(ts) == Err::<crate::types::SpecMethod, SpecError>(
            SpecError::PoorClosure {
                location: SpecLocation::Method,
                incorrect_encap: ts[2],
                correct_encap: SpecToken::Encapsulator('('),
            },
        ),
{
}

/// Bracket-mismatch detection, object body: an `Object` declaration whose
/// token after the name is anything but `{` is rejected with a
/// `PoorClosure` naming exactly `{`.
pub proof fn lemma_object_missing_brace(ts: Seq<SpecToken>)
    requires
        ts.len() >= 3,
        ts[0] == SpecToken::Word("Object"@),
        ts[1] is Word,
        ts[2] != SpecToken::Encapsulator('{'),
    ensures
        spec_parse_object(ts) == Err::<crate::types::SpecObject, SpecError>(
            SpecError::PoorClosure {
                location: SpecLocation::Object,
                incorrect_encap: ts[2],
                correct_encap: SpecToken::Encapsulator('{'),
            },
        ),
{
}

/// Bracket-mismatch detection, Global body: a `Global` declaration whose
/// token after the name is anything but `{` is rejected with a
/// `PoorClosure` naming exactly `{`.
pub proof fn lemma_global_missing_brace(ts: Seq<SpecToken>)
    requires
        ts.len() >= 3,
        ts[0] == SpecToken::Word("Global"@),
        ts[1] is Word,
        ts[2] != SpecToken::Encapsulator('{'),
    ensures
        spec_parse_global(ts) == Err::<crate::types::SpecGlobal, SpecError>(
            SpecError::PoorClosure {
                location: SpecLocation::Global,
                incorrect_encap: ts[2],
                correct_encap: SpecToken::Encapsulator('{'),
            },
        ),
{
}

/// Bracket-mismatch detection, method body: a `Method` declaration whose
/// token after the closed argument list is anything but `{` is rejected
/// with a `PoorClosure` naming exactly `{`.
pub proof fn lemma_method_missing_body_brace(ts: Seq<SpecToken>, j: int)
    requires
        ts.len() >= 3,
        ts[0] == SpecToken::Word("Method"@),
        ts[1] is Word,
        ts[2] == SpecToken::Encapsulator('('),
        j == crate::scan::scan_to(
            ts,
            3,
            crate::grammar::tok_stop(SpecToken::Encapsulator(')')),
        ),
        j + 1 < ts.len(),
        crate::grammar::spec_parse_method_arguments(ts.subrange(3, j)) is Ok,
        ts[j + 1] != SpecToken::Encapsulator('{'),
    ensures
        spec_parse_method(ts) == Err::<crate::types::SpecMethod, SpecError>(
            SpecError::PoorClosure {
                location: SpecLocation::Method,
                incorrect_encap: ts[j + 1],
                correct_encap: SpecToken::Encapsulator('{'),
            },
        ),
{
    crate::scan::lemma_scan_to_bounds(
        ts,
        3,
        crate::grammar::tok_stop(SpecToken::Encapsulator(')')),
    );
}

/// Bracket-mismatch detection, request directive: a method body opening
/// with `request` followed by anything but `<` is rejected with a
/// `PoorClosure` naming exactly `<`.
pub proof fn lemma_request_missing_angle(ts: Seq<SpecToken>)
    requires
        ts.len() >= 2,
        ts[0] == SpecToken::Word("request"@),
        ts[1] != SpecToken::Encapsulator('<'),
    ensures
        crate::grammar::spec_parse_method_internal(ts) == Err::<
            crate::grammar::SpecMethodInternal,
            SpecError,
        >(
            SpecError::PoorClosure {
                location: SpecLocation::MethodInternal,
                incorrect_encap: ts[1],
                correct_encap: SpecToken::Encapsulator('<'),
            },
        ),
{
    reveal_strlit("route");
    reveal_strlit("request");
    assert("route"@.len() == 5 && "request"@.len() == 7);
}

/// The three declaration keywords are pairwise distinct spellings.
proof fn proof_keywords_distinct()
    ensures
        "Global"@ != "Method"@,
        "Global"@ != "Object"@,
        "Method"@ != "Object"@,
{
    reveal_strlit("Global");
    reveal_strlit("Method");
    reveal_strlit("Object");
    assert("Global"@[0] == 'G' && "Method"@[0] == 'M' && "Object"@[0] == 'O');
}

/// Whether a file's token sequence dispatches to one of the three
/// declaration parsers and parses successfully.
pub open spec fn spec_file_parses(f: (Seq<char>, Seq<char>)) -> bool {
    let ts = lex(f.1);
    &&& ts.len() > 0
    &&& ts[0] is Word
    &&& {
        ||| (ts[0]->Word_0 == "Global"@ && spec_parse_global(ts) is Ok)
        ||| (ts[0]->Word_0 == "Method"@ && spec_parse_method(ts) is Ok)
        ||| (ts[0]->Word_0 == "Object"@ && spec_parse_object(ts) is Ok)
    }
}

/// Unknown-keyword detection, over the fold: if every file before `i`
/// dispatches and parses, and file `i` opens with a word outside the three
/// declaration keywords, the whole assembly fails with an
/// `InvalidSymbolBody` naming that file and listing exactly the three
/// accepted spellings.
proof fn lemma_assemble_unknown_keyword(
    files: Seq<(Seq<char>, Seq<char>)>,
    p: int,
    i: int,
    global: Option<crate::types::SpecGlobal>,
    objects: Map<Seq<char>, crate::types::SpecObject>,
    methods: Map<Seq<char>, crate::types::SpecMethod>,
)
    requires
        0 <= p <= i < files.len(),
        forall|k: int| p <= k < i ==> spec_file_parses(#[trigger] files[k]),
        lex(files[i].1).len() > 0,
        lex(files[i].1)[0] is Word,
        lex(files[i].1)[0]->Word_0 != "Global"@,
        lex(files[i].1)[0]->Word_0 != "Method"@,
        lex(files[i].1)[0]->Word_0 != "Object"@,
    ensures
        spec_assemble_loop(files, p, global, objects, methods) == Err::<
            crate::types::SpecProject,
            SpecError,
        >(
            SpecError::InvalidSymbolBody {
                location: SpecLocation::Project { file_name: files[i].0 },
                incorrect_symbol: lex(files[i].1)[0],
                valid_symbols: seq!["Global"@, "Object"@, "Method"@],
            },
        ),
    decreases i - p,
{
    proof_keywords_distinct();
    if p < i {
        assert(spec_file_parses(files[p]));
        lemma_assemble_unknown_keyword(
            files,
            p + 1,
            i,
            if lex(files[p].1)[0]->Word_0 == "Global"@ {
                Some(spec_parse_global(lex(files[p].1))->Ok_0)
            } else {
                global
            },
            if lex(files[p].1)[0]->Word_0 == "Object"@ {
                objects.insert(
                    spec_parse_object(lex(files[p].1))->Ok_0.name,
                    spec_parse_object(lex(files[p].1))->Ok_0,
                )
            } else {
                objects
            },
            if lex(files[p].1)[0]->Word_0 == "Method"@ {
                methods.insert(
                    spec_parse_method(lex(files[p].1))->Ok_0.name,
                    spec_parse_method(lex(files[p].1))->Ok_0,
                )
            } else {
                methods
            },
        );
    }
}

/// Unknown-keyword detection: in a project whose files all parse up to file
/// `i`, a file `i` whose leading token is a word outside
/// `{Global, Object, Method}` makes the whole parse fail with an
/// `InvalidSymbolBody` listing exactly those three spellings.
pub proof fn lemma_unknown_keyword_detected(files: Seq<(Seq<char>, Seq<char>)>, i: int)
    requires
        0 <= i < files.len(),
        forall|k: int| 0 <= k < i ==> spec_file_parses(#[trigger] files[k]),
        lex(files[i].1).len() > 0,
        lex(files[i].1)[0] is Word,
        lex(files[i].1)[0]->Word_0 != "Global"@,
        lex(files[i].1)[0]->Word_0 != "Method"@,
        lex(files[i].1)[0]->Word_0 != "Object"@,
    ensures
        spec_parse_project(files) == Err::<crate::types::SpecProject, SpecError>(
            SpecError::InvalidSymbolBody {
                location: SpecLocation::Project { file_name: files[i].0 },
                incorrect_symbol: lex(files[i].1)[0],
                valid_symbols: seq!["Global"@, "Object"@, "Method"@],
            },
        ),
{
    lemma_assemble_unknown_keyword(files, 0, i, None, Map::empty(), Map::empty());
}

/// Missing-Global detection, over the fold: files that all parse as Method
/// or Object declarations never set a Global, so the fold ends in the
/// `FieldNotExistent` rejection.
proof fn lemma_assemble_no_global(
    files: Seq<(Seq<char>, Seq<char>)>,
    p: int,
    objects: Map<Seq<char>, crate::types::SpecObject>,
    methods: Map<Seq<char>, crate::types::SpecMethod>,
)
    requires
        0 <= p <= files.len(),
        forall|k: int| p <= k < files.len() ==> spec_file_parses(#[trigger] files[k]),
        forall|k: int|
            p <= k < files.len() ==> lex(#[trigger] files[k].1)[0]->Word_0 != "Global"@,
    ensures
        spec_assemble_loop(files, p, None, objects, methods) == Err::<
            crate::types::SpecProject,
            SpecError,
        >(
            SpecError::FieldNotExistent {
                location: SpecLocation::Project { file_name: "entire project"@ },
                missing_field: "Global"@,
            },
        ),
    decreases files.len() - p,
{
    proof_keywords_distinct();
    if p < files.len() {
        assert(spec_file_parses(files[p]));
        if lex(files[p].1)[0]->Word_0 == "Method"@ {
            lemma_assemble_no_global(
                files,
                p + 1,
                objects,
                methods.insert(
                    spec_parse_method(lex(files[p].1))->Ok_0.name,
                    spec_parse_method(lex(files[p].1))->Ok_0,
                ),
            );
        } else {
            lemma_assemble_no_global(
                files,
                p + 1,
                objects.insert(
                    spec_parse_object(lex(files[p].1))->Ok_0.name,
                    spec_parse_object(lex(files[p].1))->Ok_0,
                ),
                methods,
            );
        }
    }
}

/// Missing-Global detection: a project assembled from files that all parse
/// as Method or Object declarations — so no Global is ever declared — is
/// rejected with `FieldNotExistent` for the Global field.
pub proof fn lemma_missing_global_detected(files: Seq<(Seq<char>, Seq<char>)>)
    requires
        forall|k: int| 0 <= k < files.len() ==> spec_file_parses(#[trigger] files[k]),
        forall|k: int|
            0 <= k < files.len() ==> lex(#[trigger] files[k].1)[0]->Word_0 != "Global"@,
    ensures
        spec_parse_project(files) == Err::<crate::types::SpecProject, SpecError>(
            SpecError::FieldNotExistent {
                location: SpecLocation::Project { file_name: "entire project"@ },
                missing_field: "Global"@,
            },
        ),
{
    lemma_assemble_no_global(files, 0, Map::empty(), Map::empty());
}

} // verus!
