//! The closed error taxonomy of the parser.
//!
//! Every failure carries a location tag naming the syntactic construct that
//! was being parsed, the offending token where there is one, and what was
//! expected instead. The first error encountered anywhere aborts the whole
//! parse; there is no recovery and no partial result.

use vstd::prelude::*;
use crate::token::{SpecToken, Token};
use vstd::string::StringExecFns;

verus! {

/// The syntactic construct a parse error was raised in.
#[derive(Debug, PartialEq)]
pub enum ParserErrorLocation {
    /// A whole declaration file, named.
    Project { file_name: String },
    Global,
    Object,
    Method,
    MethodInternal,
    MethodArguments,
    Type,
    RequestType,
    RequestShape,
    MethodShapeValue,
    ReturnShape,
    ObjectMethods,
    ObjectShape,
}

/// The view of a [`ParserErrorLocation`].
pub enum SpecLocation {
    Project { file_name: Seq<char> },
    Global,
    Object,
    Method,
    MethodInternal,
    MethodArguments,
    Type,
    RequestType,
    RequestShape,
    MethodShapeValue,
    ReturnShape,
    ObjectMethods,
    ObjectShape,
}

impl View for ParserErrorLocation {
    type V = SpecLocation;

    open spec fn view(&self) -> SpecLocation {
        match self {
            ParserErrorLocation::Project { file_name } => SpecLocation::Project {
                file_name: file_name@,
            },
            ParserErrorLocation::Global => SpecLocation::Global,
            ParserErrorLocation::Object => SpecLocation::Object,
            ParserErrorLocation::Method => SpecLocation::Method,
            ParserErrorLocation::MethodInternal => SpecLocation::MethodInternal,
            ParserErrorLocation::MethodArguments => SpecLocation::MethodArguments,
            ParserErrorLocation::Type => SpecLocation::Type,
            ParserErrorLocation::RequestType => SpecLocation::RequestType,
            ParserErrorLocation::RequestShape => SpecLocation::RequestShape,
            ParserErrorLocation::MethodShapeValue => SpecLocation::MethodShapeValue,
            ParserErrorLocation::ReturnShape => SpecLocation::ReturnShape,
            ParserErrorLocation::ObjectMethods => SpecLocation::ObjectMethods,
            ParserErrorLocation::ObjectShape => SpecLocation::ObjectShape,
        }
    }
}

impl DeepView for ParserErrorLocation {
    type V = SpecLocation;

    open spec fn deep_view(&self) -> SpecLocation {
        self.view()
    }
}

/// What can go wrong while parsing.
///
/// The original grammar's failure modes are the first five variants. The
/// sixth, `UnexpectedEnd`, is the defined failure mode for input that ends
/// (or a captured sub-sequence that is exhausted) before a structurally
/// required token was found; it carries the token that was still expected.
#[derive(Debug, PartialEq)]
pub enum ParserError {
    /// A token of the wrong kind stands where a specific kind was required.
    MisplacedSymbol {
        location: ParserErrorLocation,
        incorrect_symbol: Token,
        correct_symbol: Token,
    },
    /// A token of the right kind has content outside the allowed set.
    InvalidSymbolBody {
        location: ParserErrorLocation,
        incorrect_symbol: Token,
        valid_symbols: Vec<String>,
    },
    /// A fixed-arity list decoder received a chunk of the wrong length.
    BadLength {
        location: ParserErrorLocation,
        incorrect_length: usize,
        valid_lengths: Vec<usize>,
    },
    /// An expected bracket token is missing or of the wrong character.
    PoorClosure {
        location: ParserErrorLocation,
        incorrect_encap: Token,
        correct_encap: Token,
    },
    /// A required top-level field is absent: a project with no Global.
    FieldNotExistent {
        location: ParserErrorLocation,
        missing_field: String,
    },
    /// The input ended before the expected token was found.
    UnexpectedEnd {
        location: ParserErrorLocation,
        expected: Token,
    },
}

/// The view of a [`ParserError`].
pub enum SpecError {
    MisplacedSymbol {
        location: SpecLocation,
        incorrect_symbol: SpecToken,
        correct_symbol: SpecToken,
    },
    InvalidSymbolBody {
        location: SpecLocation,
        incorrect_symbol: SpecToken,
        valid_symbols: Seq<Seq<char>>,
    },
    BadLength { location: SpecLocation, incorrect_length: usize, valid_lengths: Seq<usize> },
    PoorClosure { location: SpecLocation, incorrect_encap: SpecToken, correct_encap: SpecToken },
    FieldNotExistent { location: SpecLocation, missing_field: Seq<char> },
    UnexpectedEnd { location: SpecLocation, expected: SpecToken },
}

impl View for ParserError {
    type V = SpecError;

    open spec fn view(&self) -> SpecError {
        match self {
            ParserError::MisplacedSymbol { location, incorrect_symbol, correct_symbol } => {
                SpecError::MisplacedSymbol {
                    location: location@,
                    incorrect_symbol: incorrect_symbol@,
                    correct_symbol: correct_symbol@,
                }
            },
            ParserError::InvalidSymbolBody { location, incorrect_symbol, valid_symbols } => {
                SpecError::InvalidSymbolBody {
                    location: location@,
                    incorrect_symbol: incorrect_symbol@,
                    valid_symbols: valid_symbols.deep_view(),
                }
            },
            ParserError::BadLength { location, incorrect_length, valid_lengths } => {
                SpecError::BadLength {
                    location: location@,
                    incorrect_length: *incorrect_length,
                    valid_lengths: valid_lengths.deep_view(),
                }
            },
            ParserError::PoorClosure { location, incorrect_encap, correct_encap } => {
                SpecError::PoorClosure {
                    location: location@,
                    incorrect_encap: incorrect_encap@,
                    correct_encap: correct_encap@,
                }
            },
            ParserError::FieldNotExistent { location, missing_field } => {
                SpecError::FieldNotExistent {
                    location: location@,
                    missing_field: missing_field@,
                }
            },
            ParserError::UnexpectedEnd { location, expected } => {
                SpecError::UnexpectedEnd { location: location@, expected: expected@ }
            },
        }
    }
}

impl DeepView for ParserError {
    type V = SpecError;

    open spec fn deep_view(&self) -> SpecError {
        self.view()
    }
}

/// The descriptive phrase of a location, as it appears in a diagnostic.
pub open spec fn location_phrase(l: SpecLocation) -> Seq<char> {
    match l {
        SpecLocation::Project { file_name } => "a project ("@ + file_name + ")"@,
        SpecLocation::Global => "a global object"@,
        SpecLocation::Object => "an object"@,
        SpecLocation::Method => "a method"@,
        SpecLocation::MethodInternal => "a method's internal"@,
        SpecLocation::MethodArguments => "a method's arguments"@,
        SpecLocation::Type => "a Pendora type"@,
        SpecLocation::RequestType => "a HTTP request type"@,
        SpecLocation::RequestShape => "a method's request shape"@,
        SpecLocation::MethodShapeValue => "a method shape value"@,
        SpecLocation::ReturnShape => "a method's shape"@,
        SpecLocation::ObjectMethods => "an object's methods list"@,
        SpecLocation::ObjectShape => "an object's shape"@,
    }
}

impl ParserErrorLocation {
    /// The descriptive phrase of this location.
    pub fn describe(&self) -> (r: String)
        ensures
            r@ == location_phrase(self@),
    {
        match self {
            ParserErrorLocation::Project { file_name } => {
                let mut s = String::from_str("a project (");
                s.append(file_name.as_str());
                s.append(")");
                s
            },
            ParserErrorLocation::Global => String::from_str("a global object"),
            ParserErrorLocation::Object => String::from_str("an object"),
            ParserErrorLocation::Method => String::from_str("a method"),
            ParserErrorLocation::MethodInternal => String::from_str("a method's internal"),
            ParserErrorLocation::MethodArguments => String::from_str("a method's arguments"),
            ParserErrorLocation::Type => String::from_str("a Pendora type"),
            ParserErrorLocation::RequestType => String::from_str("a HTTP request type"),
            ParserErrorLocation::RequestShape => String::from_str("a method's request shape"),
            ParserErrorLocation::MethodShapeValue => String::from_str("a method shape value"),
            ParserErrorLocation::ReturnShape => String::from_str("a method's shape"),
            ParserErrorLocation::ObjectMethods => String::from_str("an object's methods list"),
            ParserErrorLocation::ObjectShape => String::from_str("an object's shape"),
        }
    }
}

/// The decimal digit character of `d`, for `d < 10`.
pub open spec fn digit_char(d: nat) -> char {
    ((d + 48) as u32) as char
}

/// The decimal rendering of `n`, most significant digit first.
pub open spec fn dec_digits(n: nat) -> Seq<char>
    decreases n,
{
    if n < 10 {
        seq![digit_char(n)]
    } else {
        dec_digits(n / 10).push(digit_char(n % 10))
    }
}

fn digit_string(d: usize) -> (r: String)
    requires
        d < 10,
    ensures
        r@ =~= seq![digit_char(d as nat)],
{
    proof {
        reveal_strlit("0");
        reveal_strlit("1");
        reveal_strlit("2");
        reveal_strlit("3");
        reveal_strlit("4");
        reveal_strlit("5");
        reveal_strlit("6");
        reveal_strlit("7");
        reveal_strlit("8");
        reveal_strlit("9");
    }
    if d == 0 {
        String::from_str("0")
    } else if d == 1 {
        String::from_str("1")
    } else if d == 2 {
        String::from_str("2")
    } else if d == 3 {
        String::from_str("3")
    } else if d == 4 {
        String::from_str("4")
    } else if d == 5 {
        String::from_str("5")
    } else if d == 6 {
        String::from_str("6")
    } else if d == 7 {
        String::from_str("7")
    } else if d == 8 {
        String::from_str("8")
    } else {
        String::from_str("9")
    }
}

/// Render a number in decimal.
pub fn number_string(n: usize) -> (r: String)
    ensures
        r@ == dec_digits(n as nat),
    decreases n,
{
    if n < 10 {
        digit_string(n)
    } else {
        let mut s = number_string(n / 10);
        let d = digit_string(n % 10);
        s.append(d.as_str());
        proof {
            assert(s@ =~= dec_digits((n / 10) as nat).push(digit_char((n % 10) as nat)));
        }
        s
    }
}

/// The single-character text of a bracket or separator character; any other
/// character renders as `?` (no token holds one).
pub open spec fn punct_text(c: char) -> Seq<char> {
    if crate::token::is_encapsulator(c) || crate::token::is_split(c) {
        seq![c]
    } else {
        "?"@
    }
}

fn punct_string(c: char) -> (r: String)
    ensures
        r@ == punct_text(c),
{
    proof {
        reveal_strlit("(");
        reveal_strlit(")");
        reveal_strlit("{");
        reveal_strlit("}");
        reveal_strlit("<");
        reveal_strlit(">");
        reveal_strlit("[");
        reveal_strlit("]");
        reveal_strlit(":");
        reveal_strlit(",");
        reveal_strlit(";");
        reveal_strlit("?");
    }
    let r = if c == '(' {
        String::from_str("(")
    } else if c == ')' {
        String::from_str(")")
    } else if c == '{' {
        String::from_str("{")
    } else if c == '}' {
        String::from_str("}")
    } else if c == '<' {
        String::from_str("<")
    } else if c == '>' {
        String::from_str(">")
    } else if c == '[' {
        String::from_str("[")
    } else if c == ']' {
        String::from_str("]")
    } else if c == ':' {
        String::from_str(":")
    } else if c == ',' {
        String::from_str(",")
    } else if c == ';' {
        String::from_str(";")
    } else {
        String::from_str("?")
    };
    proof {
        if crate::token::is_encapsulator(c) || crate::token::is_split(c) {
            assert(r@ =~= seq![c]);
        }
    }
    r
}

/// The text a token appears as inside a diagnostic.
pub open spec fn token_text(t: SpecToken) -> Seq<char> {
    match t {
        SpecToken::Integer(n) => "Integer("@ + dec_digits(n as nat) + ")"@,
        SpecToken::Boolean(b) => if b {
            "Boolean(true)"@
        } else {
            "Boolean(false)"@
        },
        SpecToken::StringLiteral(s) => "StringLiteral(\""@ + s + "\")"@,
        SpecToken::Word(s) => "Word("@ + s + ")"@,
        SpecToken::Encapsulator(c) => "Encapsulator('"@ + punct_text(c) + "')"@,
        SpecToken::Split(c) => "Split('"@ + punct_text(c) + "')"@,
    }
}

impl Token {
    /// The text this token appears as inside a diagnostic.
    pub fn describe(&self) -> (r: String)
        ensures
            r@ == token_text(self@),
    {
        match self {
            Token::Integer(n) => {
                let mut s = String::from_str("Integer(");
                let num = number_string(*n as usize);
                s.append(num.as_str());
                s.append(")");
                s
            },
            Token::Boolean(b) => {
                if *b {
                    String::from_str("Boolean(true)")
                } else {
                    String::from_str("Boolean(false)")
                }
            },
            Token::StringLiteral(text) => {
                let mut s = String::from_str("StringLiteral(\"");
                s.append(text.as_str());
                s.append("\")");
                s
            },
            Token::Word(text) => {
                let mut s = String::from_str("Word(");
                s.append(text.as_str());
                s.append(")");
                s
            },
            Token::Encapsulator(c) => {
                let mut s = String::from_str("Encapsulator('");
                let p = punct_string(*c);
                s.append(p.as_str());
                s.append("')");
                s
            },
            Token::Split(c) => {
                let mut s = String::from_str("Split('");
                let p = punct_string(*c);
                s.append(p.as_str());
                s.append("')");
                s
            },
        }
    }
}

/// The bracketed, comma-separated text of a list of accepted spellings,
/// each in double quotes.
pub open spec fn symbols_text_items(ss: Seq<Seq<char>>) -> Seq<char>
    decreases ss.len(),
{
    if ss.len() == 0 {
        Seq::empty()
    } else if ss.len() == 1 {
        "\""@ + ss[0] + "\""@
    } else {
        symbols_text_items(ss.drop_last()) + ", \""@ + ss.last() + "\""@
    }
}

/// `["a", "b"]`-style rendering of a spelling list.
pub open spec fn symbols_text(ss: Seq<Seq<char>>) -> Seq<char> {
    "["@ + symbols_text_items(ss) + "]"@
}

fn symbols_string(ss: &Vec<String>) -> (r: String)
    ensures
        r@ == symbols_text(ss.deep_view()),
{
    let mut s = String::from_str("[");
    let mut i: usize = 0;
    let n = ss.len();
    while i < n
        invariant
            n == ss@.len(),
            i <= n,
            s@ == "["@ + symbols_text_items(ss.deep_view().take(i as int)),
        decreases n - i,
    {
        if i == 0 {
            s.append("\"");
        } else {
            s.append(", \"");
        }
        s.append(ss[i].as_str());
        s.append("\"");
        proof {
            let items = ss.deep_view().take(i as int + 1);
            assert(items.drop_last() =~= ss.deep_view().take(i as int));
            assert(items.last() == ss.deep_view()[i as int]);
            if i == 0 {
                assert(symbols_text_items(items) =~= "\""@ + ss.deep_view()[0] + "\""@);
            }
        }
        i += 1;
    }
    proof {
        assert(ss.deep_view().take(n as int) =~= ss.deep_view());
    }
    s.append("]");
    s
}

/// The bracketed, comma-separated text of a list of accepted lengths.
pub open spec fn lengths_text_items(ls: Seq<usize>) -> Seq<char>
    decreases ls.len(),
{
    if ls.len() == 0 {
        Seq::empty()
    } else if ls.len() == 1 {
        dec_digits(ls[0] as nat)
    } else {
        lengths_text_items(ls.drop_last()) + ", "@ + dec_digits(ls.last() as nat)
    }
}

/// `[3, 2]`-style rendering of a length list.
pub open spec fn lengths_text(ls: Seq<usize>) -> Seq<char> {
    "["@ + lengths_text_items(ls) + "]"@
}

fn lengths_string(ls: &Vec<usize>) -> (r: String)
    ensures
        r@ == lengths_text(ls.deep_view()),
{
    let mut s = String::from_str("[");
    let mut i: usize = 0;
    let n = ls.len();
    while i < n
        invariant
            n == ls@.len(),
            i <= n,
            s@ == "["@ + lengths_text_items(ls.deep_view().take(i as int)),
        decreases n - i,
    {
        if i > 0 {
            s.append(", ");
        }
        let num = number_string(ls[i]);
        s.append(num.as_str());
        proof {
            let items = ls.deep_view().take(i as int + 1);
            assert(items.drop_last() =~= ls.deep_view().take(i as int));
            assert(items.last() == ls.deep_view()[i as int]);
            if i == 0 {
                assert(symbols_text_items(Seq::<Seq<char>>::empty()) =~= Seq::<char>::empty());
                assert(lengths_text_items(items) =~= dec_digits(ls.deep_view()[0] as nat));
            }
        }
        i += 1;
    }
    proof {
        assert(ls.deep_view().take(n as int) =~= ls.deep_view());
    }
    s.append("]");
    s
}

/// The one-line diagnostic of an error.
pub open spec fn error_message(e: SpecError) -> Seq<char> {
    match e {
        SpecError::MisplacedSymbol { location, incorrect_symbol, correct_symbol } => {
            "Wrong symbol found while parsing "@ + location_phrase(location) + ". Expected "@
                + token_text(correct_symbol) + " but found "@ + token_text(incorrect_symbol)
                + "."@
        },
        SpecError::InvalidSymbolBody { location, incorrect_symbol, valid_symbols } => {
            "Invalid symbol content found while parsing "@ + location_phrase(location)
                + ". Found "@ + token_text(incorrect_symbol) + " but expected "@ + symbols_text(
                valid_symbols,
            ) + "."@
        },
        SpecError::BadLength { location, incorrect_length, valid_lengths } => {
            "Incorrectly sized chunk found while parsing "@ + location_phrase(location)
                + ". Expected length(s) "@ + lengths_text(valid_lengths) + " but found length "@
                + dec_digits(incorrect_length as nat) + "."@
        },
        SpecError::PoorClosure { location, incorrect_encap, correct_encap } => {
            "Incomplete or poor closure found while parsing "@ + location_phrase(location)
                + ". Expected "@ + token_text(correct_encap) + " but found "@ + token_text(
                incorrect_encap,
            )
        },
        SpecError::FieldNotExistent { location, missing_field } => {
            "Required field ("@ + missing_field + ") unable to be found while parsing "@
                + location_phrase(location) + "."@
        },
        SpecError::UnexpectedEnd { location, expected } => {
            "Unexpected end of input while parsing "@ + location_phrase(location)
                + ". Expected "@ + token_text(expected) + "."@
        },
    }
}

impl ParserError {
    /// The one-line, human-readable diagnostic of this error.
    pub fn describe(&self) -> (r: String)
        ensures
            r@ == error_message(self@),
    {
        match self {
            ParserError::MisplacedSymbol { location, incorrect_symbol, correct_symbol } => {
                let mut s = String::from_str("Wrong symbol found while parsing ");
                let loc = location.describe();
                s.append(loc.as_str());
                s.append(". Expected ");
                let correct = correct_symbol.describe();
                s.append(correct.as_str());
                s.append(" but found ");
                let incorrect = incorrect_symbol.describe();
                s.append(incorrect.as_str());
                s.append(".");
                s
            },
            ParserError::InvalidSymbolBody { location, incorrect_symbol, valid_symbols } => {
                let mut s = String::from_str("Invalid symbol content found while parsing ");
                let loc = location.describe();
                s.append(loc.as_str());
                s.append(". Found ");
                let incorrect = incorrect_symbol.describe();
                s.append(incorrect.as_str());
                s.append(" but expected ");
                let valid = symbols_string(valid_symbols);
                s.append(valid.as_str());
                s.append(".");
                s
            },
            ParserError::BadLength { location, incorrect_length, valid_lengths } => {
                let mut s = String::from_str("Incorrectly sized chunk found while parsing ");
                let loc = location.describe();
                s.append(loc.as_str());
                s.append(". Expected length(s) ");
                let valid = lengths_string(valid_lengths);
                s.append(valid.as_str());
                s.append(" but found length ");
                let num = number_string(*incorrect_length);
                s.append(num.as_str());
                s.append(".");
                s
            },
            ParserError::PoorClosure { location, incorrect_encap, correct_encap } => {
                let mut s = String::from_str("Incomplete or poor closure found while parsing ");
                let loc = location.describe();
                s.append(loc.as_str());
                s.append(". Expected ");
                let correct = correct_encap.describe();
                s.append(correct.as_str());
                s.append(" but found ");
                let incorrect = incorrect_encap.describe();
                s.append(incorrect.as_str());
                s
            },
            ParserError::FieldNotExistent { location, missing_field } => {
                let mut s = String::from_str("Required field (");
                s.append(missing_field.as_str());
                s.append(") unable to be found while parsing ");
                let loc = location.describe();
                s.append(loc.as_str());
                s.append(".");
                s
            },
            ParserError::UnexpectedEnd { location, expected } => {
                let mut s = String::from_str("Unexpected end of input while parsing ");
                let loc = location.describe();
                s.append(loc.as_str());
                s.append(". Expected ");
                let exp = expected.describe();
                s.append(exp.as_str());
                s.append(".");
                s
            },
        }
    }
}

} // verus!
