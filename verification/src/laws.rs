//! Laws of the token classification scheme, stated over the same spec
//! functions that the executable classifiers are proved against.

use vstd::prelude::*;
use crate::token::{
    Token, all_digit_chars, is_digit_char, is_keyword_literal, spec_classify_char,
    spec_classify_string, spec_literal, spec_render, spec_token_type,
};

verus! {

/// Contents of the fixed literal strings: lengths and characters, so
/// that any two distinct fixed literals are provably unequal.
proof fn lemma_fixed_string_facts()
    ensures
        ""@.len() == 0,
        "\0"@.len() == 1 && "\0"@[0] == '\0',
        "="@.len() == 1 && "="@[0] == '=',
        "+"@.len() == 1 && "+"@[0] == '+',
        "-"@.len() == 1 && "-"@[0] == '-',
        "!"@.len() == 1 && "!"@[0] == '!',
        "*"@.len() == 1 && "*"@[0] == '*',
        "/"@.len() == 1 && "/"@[0] == '/',
        "<"@.len() == 1 && "<"@[0] == '<',
        ">"@.len() == 1 && ">"@[0] == '>',
        ","@.len() == 1 && ","@[0] == ',',
        ";"@.len() == 1 && ";"@[0] == ';',
        "("@.len() == 1 && "("@[0] == '(',
        ")"@.len() == 1 && ")"@[0] == ')',
        "{"@.len() == 1 && "{"@[0] == '{',
        "}"@.len() == 1 && "}"@[0] == '}',
        "=="@.len() == 2 && "=="@[0] == '=' && "=="@[1] == '=',
        "!="@.len() == 2 && "!="@[0] == '!' && "!="@[1] == '=',
        "fn"@.len() == 2 && "fn"@[0] == 'f' && "fn"@[1] == 'n',
        "if"@.len() == 2 && "if"@[0] == 'i' && "if"@[1] == 'f',
        "let"@.len() == 3 && "let"@[0] == 'l',
        "true"@.len() == 4 && "true"@[0] == 't',
        "else"@.len() == 4 && "else"@[0] == 'e',
        "false"@.len() == 5 && "false"@[0] == 'f',
        "return"@.len() == 6 && "return"@[0] == 'r',
{
    reveal_strlit("");
    reveal_strlit("\0");
    reveal_strlit("=");
    reveal_strlit("+");
    reveal_strlit("-");
    reveal_strlit("!");
    reveal_strlit("*");
    reveal_strlit("/");
    reveal_strlit("<");
    reveal_strlit(">");
    reveal_strlit(",");
    reveal_strlit(";");
    reveal_strlit("(");
    reveal_strlit(")");
    reveal_strlit("{");
    reveal_strlit("}");
    reveal_strlit("==");
    reveal_strlit("!=");
    reveal_strlit("fn");
    reveal_strlit("if");
    reveal_strlit("let");
    reveal_strlit("true");
    reveal_strlit("else");
    reveal_strlit("false");
    reveal_strlit("return");
}

/// Keywords are reserved: a raw string equal to one of the seven
/// reserved words classifies to the matching keyword variant, never to
/// an identifier.
pub proof fn lemma_keywords_reserved(value: String)
    requires
        is_keyword_literal(value@),
    ensures
        spec_classify_string(value) !is Ident,
        value@ == "fn"@ ==> spec_classify_string(value) == Token::Function,
        value@ == "let"@ ==> spec_classify_string(value) == Token::Let,
        value@ == "true"@ ==> spec_classify_string(value) == Token::True,
        value@ == "false"@ ==> spec_classify_string(value) == Token::False,
        value@ == "if"@ ==> spec_classify_string(value) == Token::If,
        value@ == "else"@ ==> spec_classify_string(value) == Token::Else,
        value@ == "return"@ ==> spec_classify_string(value) == Token::Return,
{
    lemma_fixed_string_facts();
}

/// A non-empty run made solely of ASCII decimal digits classifies to
/// `Int`, with the run preserved verbatim: no trimming and no numeric
/// parsing or overflow check.
pub proof fn lemma_digit_run_is_int(value: String)
    requires
        value@.len() > 0,
        all_digit_chars(value@),
    ensures
        spec_classify_string(value) == Token::Int(value),
{
    lemma_fixed_string_facts();
    assert(is_digit_char(value@[0]));
}

/// A non-empty run that is not a two-character operator, not a reserved
/// word, and not all digits classifies to `Ident`, with the run
/// preserved verbatim.
pub proof fn lemma_other_run_is_ident(value: String)
    requires
        value@.len() > 0,
        value@ != "=="@,
        value@ != "!="@,
        !is_keyword_literal(value@),
        !all_digit_chars(value@),
    ensures
        spec_classify_string(value) == Token::Ident(value),
{
}

/// The two-character operators classify ahead of everything else:
/// `==` to `Equal` and `!=` to `NotEqual`.
pub proof fn lemma_two_char_operators(value: String)
    ensures
        value@ == "=="@ ==> spec_classify_string(value) == Token::Equal,
        value@ == "!="@ ==> spec_classify_string(value) == Token::NotEqual,
{
    lemma_fixed_string_facts();
}

/// Any character outside the fixed single-character set and NUL
/// classifies to `Illegal`.
pub proof fn lemma_unmapped_char_is_illegal(ch: char)
    requires
        ch != '=' && ch != ';' && ch != '(' && ch != ')' && ch != ',' && ch != '+',
        ch != '-' && ch != '!' && ch != '*' && ch != '/' && ch != '<' && ch != '>',
        ch != '{' && ch != '}' && ch != '\0',
    ensures
        spec_classify_char(ch) == Token::Illegal,
{
}

/// The kind name and the literal agree: for every mapped character, the
/// literal of the token classified from it reproduces the character as a
/// one-character string.
pub proof fn lemma_classified_char_literal(ch: char)
    requires
        spec_classify_char(ch) !is Illegal,
    ensures
        spec_literal(spec_classify_char(ch)) == seq![ch],
{
    lemma_fixed_string_facts();
    assert("="@ =~= seq!['=']);
    assert(";"@ =~= seq![';']);
    assert("("@ =~= seq!['(']);
    assert(")"@ =~= seq![')']);
    assert(","@ =~= seq![',']);
    assert("+"@ =~= seq!['+']);
    assert("-"@ =~= seq!['-']);
    assert("!"@ =~= seq!['!']);
    assert("*"@ =~= seq!['*']);
    assert("/"@ =~= seq!['/']);
    assert("<"@ =~= seq!['<']);
    assert(">"@ =~= seq!['>']);
    assert("{"@ =~= seq!['{']);
    assert("}"@ =~= seq!['}']);
    assert("\0"@ =~= seq!['\0']);
}

/// The introspection functions are pure: each contract fixes the result
/// as a spec function of the token alone, so two calls of `token_type`,
/// `literal` or `render` on one token return identical strings.
pub proof fn lemma_queries_deterministic(t: Token, r1: Seq<char>, r2: Seq<char>)
    ensures
        r1 == spec_token_type(t) && r2 == spec_token_type(t) ==> r1 == r2,
        r1 == spec_literal(t) && r2 == spec_literal(t) ==> r1 == r2,
        r1 == spec_render(t) && r2 == spec_render(t) ==> r1 == r2,
{
}

/// Within the payload-free variants the literal table is a bijection:
/// no two distinct variants share a literal string.
pub proof fn lemma_fixed_literal_bijection(t1: Token, t2: Token)
    requires
        t1 !is Ident,
        t1 !is Int,
        t2 !is Ident,
        t2 !is Int,
        spec_literal(t1) == spec_literal(t2),
    ensures
        t1 == t2,
{
    lemma_fixed_string_facts();
}

} // verus!
