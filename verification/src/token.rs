//! The token taxonomy and the two classification entry points: one from
//! a single raw character, one from an accumulated raw string.

use vstd::prelude::*;
use vstd::string::StrSliceExecFns;
use vstd::string::StringExecFns;

verus! {

/// A classified lexeme. The enumeration is closed: sentinels (`Illegal`,
/// `Eof`), payload-carrying literals (`Ident`, `Int`), fixed-literal
/// operators and delimiters, and reserved keywords.
#[derive(Debug, PartialEq)]
pub enum Token {
    Illegal,
    Eof,
    // Identifiers + literals
    Ident(String),
    Int(String),
    // Operators
    Assign,
    Plus,
    Minus,
    Bang,
    Asterisk,
    Slash,
    LessThan,
    GreaterThan,
    Equal,
    NotEqual,
    // Delimiters
    Comma,
    Semicolon,
    LParen,
    RParen,
    LBrace,
    RBrace,
    // Keywords
    Function,
    Let,
    True,
    False,
    If,
    Else,
    Return,
}

/// An ASCII decimal digit `0`..=`9`.
pub open spec fn is_digit_char(c: char) -> bool {
    '0' as u32 <= c as u32 && c as u32 <= '9' as u32
}

/// Every character of the run is an ASCII decimal digit.
pub open spec fn all_digit_chars(s: Seq<char>) -> bool {
    forall|i: int| 0 <= i < s.len() ==> is_digit_char(s[i])
}

/// The run is exactly one of the seven reserved words.
pub open spec fn is_keyword_literal(s: Seq<char>) -> bool {
    ||| s == "fn"@
    ||| s == "let"@
    ||| s == "true"@
    ||| s == "false"@
    ||| s == "if"@
    ||| s == "else"@
    ||| s == "return"@
}

/// Classification of an accumulated raw string, in this order of
/// precedence: the two-character operators `==`/`!=`; the seven reserved
/// keywords; a non-empty all-digit run, kept verbatim as `Int`; anything
/// else, kept verbatim as `Ident`. Total over all strings; in particular
/// the empty string is `Ident("")`, never `Int`.
pub open spec fn spec_classify_string(value: String) -> Token {
    if value@ == "=="@ {
        Token::Equal
    } else if value@ == "!="@ {
        Token::NotEqual
    } else if value@ == "fn"@ {
        Token::Function
    } else if value@ == "let"@ {
        Token::Let
    } else if value@ == "true"@ {
        Token::True
    } else if value@ == "false"@ {
        Token::False
    } else if value@ == "if"@ {
        Token::If
    } else if value@ == "else"@ {
        Token::Else
    } else if value@ == "return"@ {
        Token::Return
    } else if value@.len() > 0 && all_digit_chars(value@) {
        Token::Int(value)
    } else {
        Token::Ident(value)
    }
}

/// Character-by-character string equality, proved against the views.
fn str_eq(a: &str, b: &str) -> (r: bool)
    ensures
        r == (a@ == b@),
{
    let la = a.unicode_len();
    let lb = b.unicode_len();
    if la != lb {
        proof {
            assert(a@ != b@);
        }
        return false;
    }
    let mut i: usize = 0;
    while i < la
        invariant
            0 <= i <= la,
            la == a@.len(),
            la == b@.len(),
            forall|j: int| 0 <= j < i ==> a@[j] == b@[j],
        decreases la - i,
    {
        if a.get_char(i) != b.get_char(i) {
            return false;
        }
        i += 1;
    }
    proof {
        assert(a@ =~= b@);
    }
    true
}

/// True exactly when the run is non-empty and all ASCII decimal digits.
fn is_digit_run(s: &str) -> (r: bool)
    ensures
        r == (s@.len() > 0 && all_digit_chars(s@)),
{
    let len = s.unicode_len();
    if len == 0 {
        return false;
    }
    let mut i: usize = 0;
    while i < len
        invariant
            0 <= i <= len,
            len == s@.len(),
            forall|j: int| 0 <= j < i ==> is_digit_char(s@[j]),
        decreases len - i,
    {
        let c = s.get_char(i);
        let u = c as u32;
        if u < '0' as u32 || u > '9' as u32 {
            proof {
                assert(!is_digit_char(s@[i as int]));
            }
            return false;
        }
        i += 1;
    }
    true
}

/// Classification of a single raw character: each fixed single-character
/// operator or delimiter maps to its variant, NUL maps to `Eof`, and any
/// other character maps to `Illegal`. Total over all characters.
pub open spec fn spec_classify_char(ch: char) -> Token {
    match ch {
        '=' => Token::Assign,
        ';' => Token::Semicolon,
        '(' => Token::LParen,
        ')' => Token::RParen,
        ',' => Token::Comma,
        '+' => Token::Plus,
        '-' => Token::Minus,
        '!' => Token::Bang,
        '*' => Token::Asterisk,
        '/' => Token::Slash,
        '<' => Token::LessThan,
        '>' => Token::GreaterThan,
        '{' => Token::LBrace,
        '}' => Token::RBrace,
        '\0' => Token::Eof,
        _ => Token::Illegal,
    }
}

/// The stable, human-readable kind name of each variant.
pub open spec fn spec_token_type(t: Token) -> Seq<char> {
    match t {
        Token::Illegal => "Illegal"@,
        Token::Eof => "Eof"@,
        Token::Ident(_) => "Identifier"@,
        Token::Int(_) => "Integer"@,
        Token::Assign => "Assign"@,
        Token::Plus => "Plus"@,
        Token::Minus => "Minus"@,
        Token::Bang => "Bang"@,
        Token::Asterisk => "Asterisk"@,
        Token::Slash => "Slash"@,
        Token::LessThan => "LessThan"@,
        Token::GreaterThan => "GreaterThan"@,
        Token::Equal => "Equal"@,
        Token::NotEqual => "NotEqual"@,
        Token::Comma => "Comma"@,
        Token::Semicolon => "Semicolon"@,
        Token::LParen => "LeftParen"@,
        Token::RParen => "RightParen"@,
        Token::LBrace => "LeftBrace"@,
        Token::RBrace => "RightBrace"@,
        Token::Function => "Function"@,
        Token::Let => "Let"@,
        Token::True => "True"@,
        Token::False => "False"@,
        Token::If => "If"@,
        Token::Else => "Else"@,
        Token::Return => "Return"@,
    }
}

/// The canonical source text of each variant: the stored payload for
/// `Ident`/`Int`, the fixed literal for operators, delimiters and
/// keywords, the empty string for `Illegal`, and NUL for `Eof`.
pub open spec fn spec_literal(t: Token) -> Seq<char> {
    match t {
        Token::Illegal => ""@,
        Token::Eof => "\0"@,
        Token::Ident(value) => value@,
        Token::Int(value) => value@,
        Token::Assign => "="@,
        Token::Plus => "+"@,
        Token::Minus => "-"@,
        Token::Bang => "!"@,
        Token::Asterisk => "*"@,
        Token::Slash => "/"@,
        Token::LessThan => "<"@,
        Token::GreaterThan => ">"@,
        Token::Equal => "=="@,
        Token::NotEqual => "!="@,
        Token::Comma => ","@,
        Token::Semicolon => ";"@,
        Token::LParen => "("@,
        Token::RParen => ")"@,
        Token::LBrace => "{"@,
        Token::RBrace => "}"@,
        Token::Function => "fn"@,
        Token::Let => "let"@,
        Token::True => "true"@,
        Token::False => "false"@,
        Token::If => "if"@,
        Token::Else => "else"@,
        Token::Return => "return"@,
    }
}

impl Token {
    /// Kind name of this token: one-to-one with the variant set, meant
    /// for diagnostics, never for control flow.
    #[must_use]
    pub fn token_type(&self) -> (r: &str)
        ensures
            r@ == spec_token_type(*self),
    {
        match self {
            Token::Illegal => "Illegal",
            Token::Eof => "Eof",
            Token::Ident(_) => "Identifier",
            Token::Int(_) => "Integer",
            Token::Assign => "Assign",
            Token::Plus => "Plus",
            Token::Minus => "Minus",
            Token::Bang => "Bang",
            Token::Asterisk => "Asterisk",
            Token::Slash => "Slash",
            Token::LessThan => "LessThan",
            Token::GreaterThan => "GreaterThan",
            Token::Equal => "Equal",
            Token::NotEqual => "NotEqual",
            Token::Comma => "Comma",
            Token::Semicolon => "Semicolon",
            Token::LParen => "LeftParen",
            Token::RParen => "RightParen",
            Token::LBrace => "LeftBrace",
            Token::RBrace => "RightBrace",
            Token::Function => "Function",
            Token::Let => "Let",
            Token::True => "True",
            Token::False => "False",
            Token::If => "If",
            Token::Else => "Else",
            Token::Return => "Return",
        }
    }

    /// Canonical source text of this token.
    #[must_use]
    pub fn literal(&self) -> (r: &str)
        ensures
            r@ == spec_literal(*self),
    {
        match self {
            Token::Illegal => "",
            Token::Eof => "\0",
            Token::Ident(value) => value.as_str(),
            Token::Int(value) => value.as_str(),
            Token::Assign => "=",
            Token::Plus => "+",
            Token::Minus => "-",
            Token::Bang => "!",
            Token::Asterisk => "*",
            Token::Slash => "/",
            Token::LessThan => "<",
            Token::GreaterThan => ">",
            Token::Equal => "==",
            Token::NotEqual => "!=",
            Token::Comma => ",",
            Token::Semicolon => ";",
            Token::LParen => "(",
            Token::RParen => ")",
            Token::LBrace => "{",
            Token::RBrace => "}",
            Token::Function => "fn",
            Token::Let => "let",
            Token::True => "true",
            Token::False => "false",
            Token::If => "if",
            Token::Else => "else",
            Token::Return => "return",
        }
    }

    /// Canonical debug rendering, `{type: <kind>, literal: "<text>"}`:
    /// a fixed template that log tooling may match on. Meant only for
    /// logging and tracing; no inverse operation exists.
    #[must_use]
    pub fn render(&self) -> (r: String)
        ensures
            r@ == spec_render(*self),
    {
        let mut out = String::from_str("{type: ");
        out.append(self.token_type());
        out.append(", literal: \"");
        out.append(self.literal());
        out.append("\"}");
        proof {
            assert(out@ =~= spec_render(*self));
        }
        out
    }
}

/// The debug rendering of a token: the kind name and the literal text
/// laid into the fixed template `{type: <kind>, literal: "<text>"}`.
pub open spec fn spec_render(t: Token) -> Seq<char> {
    "{type: "@ + spec_token_type(t) + ", literal: \""@ + spec_literal(t) + "\"}"@
}

impl From<char> for Token {
    /// Classifies a single raw character; see [`spec_classify_char`].
    /// Cannot produce `Equal`/`NotEqual`: two-character lookahead is the
    /// scanner's job, done through the `String` classifier.
    fn from(ch: char) -> (t: Token) {
        match ch {
            '=' => Token::Assign,
            ';' => Token::Semicolon,
            '(' => Token::LParen,
            ')' => Token::RParen,
            ',' => Token::Comma,
            '+' => Token::Plus,
            '-' => Token::Minus,
            '!' => Token::Bang,
            '*' => Token::Asterisk,
            '/' => Token::Slash,
            '<' => Token::LessThan,
            '>' => Token::GreaterThan,
            '{' => Token::LBrace,
            '}' => Token::RBrace,
            '\0' => Token::Eof,
            _ => Token::Illegal,
        }
    }
}

impl vstd::std_specs::convert::FromSpecImpl<char> for Token {
    open spec fn obeys_from_spec() -> bool {
        true
    }

    open spec fn from_spec(ch: char) -> Token {
        spec_classify_char(ch)
    }
}

impl From<String> for Token {
    /// Classifies an accumulated raw string; see [`spec_classify_string`].
    /// The payload of an `Ident`/`Int` result is the input moved in
    /// verbatim, never re-copied or trimmed.
    fn from(value: String) -> (t: Token) {
        if str_eq(value.as_str(), "==") {
            Token::Equal
        } else if str_eq(value.as_str(), "!=") {
            Token::NotEqual
        } else if str_eq(value.as_str(), "fn") {
            Token::Function
        } else if str_eq(value.as_str(), "let") {
            Token::Let
        } else if str_eq(value.as_str(), "true") {
            Token::True
        } else if str_eq(value.as_str(), "false") {
            Token::False
        } else if str_eq(value.as_str(), "if") {
            Token::If
        } else if str_eq(value.as_str(), "else") {
            Token::Else
        } else if str_eq(value.as_str(), "return") {
            Token::Return
        } else if is_digit_run(value.as_str()) {
            Token::Int(value)
        } else {
            Token::Ident(value)
        }
    }
}

impl vstd::std_specs::convert::FromSpecImpl<String> for Token {
    open spec fn obeys_from_spec() -> bool {
        true
    }

    open spec fn from_spec(value: String) -> Token {
        spec_classify_string(value)
    }
}

} // verus!
