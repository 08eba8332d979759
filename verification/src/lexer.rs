use crate::errors::CompileError;
use vstd::prelude::*;
use vstd::string::StrSliceExecFns;
use vstd::string::StringExecFns;

verus! {

/// The classification of one lexical unit.
#[derive(Clone, Copy, Debug, PartialEq, Eq, Structural)]
pub enum TokenType {
    LParen,
    RParen,
    Operator,
    Number,
}

/// One lexical unit: its classification and the literal text matched. Every
/// token of the grammar is a single character of the input.
#[derive(Debug, PartialEq)]
pub struct Token {
    pub token_type: TokenType,
    pub value: String,
}

/// The mathematical shape of a token: its classification and its text as a
/// sequence of characters.
pub struct TokenModel {
    pub token_type: TokenType,
    pub text: Seq<char>,
}

impl View for Token {
    type V = TokenModel;

    open spec fn view(&self) -> TokenModel {
        TokenModel { token_type: self.token_type, text: self.value@ }
    }
}

/// The characters lexed as operator tokens.
pub open spec fn is_operator_char(c: char) -> bool {
    c == '+' || c == '-' || c == '*' || c == '/'
}

/// The characters lexed as number tokens: the ten ASCII digits.
pub open spec fn is_digit_char(c: char) -> bool {
    '0' <= c && c <= '9'
}

/// The characters the lexer skips: the Unicode white space set.
pub open spec fn is_whitespace_char(c: char) -> bool {
    ||| c == ' '
    ||| ('\u{0009}' <= c && c <= '\u{000D}')
    ||| c == '\u{0085}'
    ||| c == '\u{00A0}'
    ||| c == '\u{1680}'
    ||| ('\u{2000}' <= c && c <= '\u{200A}')
    ||| c == '\u{2028}'
    ||| c == '\u{2029}'
    ||| c == '\u{202F}'
    ||| c == '\u{205F}'
    ||| c == '\u{3000}'
}

/// The token, if any, that a single character lexes to.
pub open spec fn char_token(c: char) -> Option<TokenModel> {
    if c == '(' {
        Some(TokenModel { token_type: TokenType::LParen, text: seq![c] })
    } else if c == ')' {
        Some(TokenModel { token_type: TokenType::RParen, text: seq![c] })
    } else if is_operator_char(c) {
        Some(TokenModel { token_type: TokenType::Operator, text: seq![c] })
    } else if is_digit_char(c) {
        Some(TokenModel { token_type: TokenType::Number, text: seq![c] })
    } else {
        None
    }
}

/// A character the lexer accepts: either part of a token or skipped.
pub open spec fn is_lexable_char(c: char) -> bool {
    is_whitespace_char(c) || char_token(c) is Some
}

/// What lexing a text yields: the tokens of its characters in their
/// left-to-right order, or the first character that is neither a token nor
/// whitespace.
pub open spec fn lex_spec(s: Seq<char>) -> Result<Seq<TokenModel>, char>
    decreases s.len(),
{
    if s.len() == 0 {
        Ok(Seq::empty())
    } else {
        match lex_spec(s.drop_last()) {
            Ok(ts) => {
                if is_whitespace_char(s.last()) {
                    Ok(ts)
                } else {
                    match char_token(s.last()) {
                        Some(t) => Ok(ts.push(t)),
                        None => Err(s.last()),
                    }
                }
            },
            Err(e) => Err(e),
        }
    }
}

/// The models of a token sequence, in order.
pub open spec fn tokens_model(tokens: Seq<Token>) -> Seq<TokenModel> {
    tokens.map_values(|t: Token| t@)
}

/// Whether `c` is an ASCII digit.
fn is_digit(c: char) -> (r: bool)
    ensures
        r == is_digit_char(c),
{
    '0' <= c && c <= '9'
}

/// Whether `c` is Unicode white space.
fn is_whitespace(c: char) -> (r: bool)
    ensures
        r == is_whitespace_char(c),
{
    c == ' ' || ('\u{0009}' <= c && c <= '\u{000D}') || c == '\u{0085}' || c == '\u{00A0}'
        || c == '\u{1680}' || ('\u{2000}' <= c && c <= '\u{200A}') || c == '\u{2028}'
        || c == '\u{2029}' || c == '\u{202F}' || c == '\u{205F}' || c == '\u{3000}'
}

/// Builds the one-character string holding `c`, for the characters the
/// lexer turns into tokens.
fn single_char_string(c: char) -> (r: String)
    requires
        char_token(c) is Some,
    ensures
        r@ == seq![c],
{
    let s: &str = match c {
        '(' => "(",
        ')' => ")",
        '+' => "+",
        '-' => "-",
        '*' => "*",
        '/' => "/",
        '0' => "0",
        '1' => "1",
        '2' => "2",
        '3' => "3",
        '4' => "4",
        '5' => "5",
        '6' => "6",
        '7' => "7",
        '8' => "8",
        '9' => "9",
        _ => "",
    };
    proof {
        reveal_strlit("(");
        reveal_strlit(")");
        reveal_strlit("+");
        reveal_strlit("-");
        reveal_strlit("*");
        reveal_strlit("/");
        reveal_strlit("0");
        reveal_strlit("1");
        reveal_strlit("2");
        reveal_strlit("3");
        reveal_strlit("4");
        reveal_strlit("5");
        reveal_strlit("6");
        reveal_strlit("7");
        reveal_strlit("8");
        reveal_strlit("9");
        assert(s@ =~= seq![c]);
    }
    String::from_str(s)
}

/// Appends to `tokens` the token that `c` lexes to.
fn push_token(tokens: &mut Vec<Token>, token_type: TokenType, c: char)
    requires
        char_token(c) == (Some(TokenModel { token_type, text: seq![c] })),
    ensures
        tokens_model(final(tokens)@) == tokens_model(old(tokens)@).push(char_token(c)->0),
{
    let value = single_char_string(c);
    tokens.push(Token { token_type, value });
    proof {
        assert(tokens_model(tokens@) =~= tokens_model(old(tokens)@).push(char_token(c)->0));
    }
}

/// A lexing failure in a prefix of a text persists however the text goes
/// on: lexing reports the first unacceptable character.
proof fn lemma_lex_extend_err(s: Seq<char>, j: int)
    requires
        0 <= j <= s.len(),
        lex_spec(s.take(j)) is Err,
    ensures
        lex_spec(s) == lex_spec(s.take(j)),
    decreases s.len() - j,
{
    if j == s.len() {
        assert(s.take(j) =~= s);
    } else {
        assert(s.take(j + 1).drop_last() =~= s.take(j));
        assert(lex_spec(s.take(j + 1)) == lex_spec(s.take(j)));
        lemma_lex_extend_err(s, j + 1);
    }
}

/// Converts raw text into the ordered token sequence the text lexes to, or
/// fails on the first character that is neither a token nor whitespace,
/// naming that character.
pub fn create_tokens(program: &str) -> (r: Result<Vec<Token>, CompileError>)
    ensures
        match r {
            Ok(tokens) => lex_spec(program@) == Ok::<Seq<TokenModel>, char>(tokens_model(tokens@)),
            Err(e) => {
                &&& e matches CompileError::LexError { ch }
                &&& lex_spec(program@) == Err::<Seq<TokenModel>, char>(ch)
            },
        },
{
    let mut tokens: Vec<Token> = Vec::new();
    let n: usize = program.unicode_len();
    proof {
        assert(program@.take(0) =~= Seq::<char>::empty());
        assert(tokens_model(tokens@) =~= Seq::<TokenModel>::empty());
    }
    for i in 0..n
        invariant
            n == program@.len(),
            lex_spec(program@.take(i as int)) == Ok::<Seq<TokenModel>, char>(
                tokens_model(tokens@),
            ),
    {
        let c = program.get_char(i);
        proof {
            assert(program@.take(i + 1).drop_last() =~= program@.take(i as int));
            assert(program@.take(i + 1).last() == c);
        }
        if c == '(' {
            push_token(&mut tokens, TokenType::LParen, c);
        } else if c == ')' {
            push_token(&mut tokens, TokenType::RParen, c);
        } else if c == '+' || c == '-' || c == '*' || c == '/' {
            push_token(&mut tokens, TokenType::Operator, c);
        } else if is_digit(c) {
            push_token(&mut tokens, TokenType::Number, c);
        } else if is_whitespace(c) {
            // skipped: whitespace produces no token
        } else {
            proof {
                lemma_lex_extend_err(program@, i + 1);
            }
            return Err(CompileError::LexError { ch: c });
        }
    }
    proof {
        assert(program@.take(n as int) =~= program@);
    }
    Ok(tokens)
}

/// Lexing a single numeric literal yields exactly one number token carrying
/// that digit as its text.
pub proof fn lemma_lex_single_digit(c: char)
    requires
        is_digit_char(c),
    ensures
        lex_spec(seq![c]) == Ok::<Seq<TokenModel>, char>(
            seq![TokenModel { token_type: TokenType::Number, text: seq![c] }],
        ),
{
    assert(seq![c].drop_last() =~= Seq::<char>::empty());
    assert(seq![c].last() == c);
    assert(!is_whitespace_char(c));
    assert(char_token(c) == (Some(TokenModel { token_type: TokenType::Number, text: seq![c] })));
    assert(lex_spec(Seq::<char>::empty()) == Ok::<Seq<TokenModel>, char>(Seq::empty()));
    assert(Seq::<TokenModel>::empty().push(TokenModel { token_type: TokenType::Number, text: seq![c] })
        =~= seq![TokenModel { token_type: TokenType::Number, text: seq![c] }]);
}

/// Lexing whitespace-only text yields an empty token sequence and no error.
pub proof fn lemma_lex_whitespace_only(s: Seq<char>)
    requires
        forall|i: int| 0 <= i < s.len() ==> is_whitespace_char(s[i]),
    ensures
        lex_spec(s) == Ok::<Seq<TokenModel>, char>(Seq::empty()),
    decreases s.len(),
{
    if s.len() > 0 {
        assert forall|i: int| 0 <= i < s.drop_last().len() implies is_whitespace_char(
            s.drop_last()[i],
        ) by {
            assert(s.drop_last()[i] == s[i]);
        }
        lemma_lex_whitespace_only(s.drop_last());
        assert(is_whitespace_char(s.last()));
    }
}

/// A text whose characters are all acceptable lexes without error.
pub proof fn lemma_lex_lexable_ok(s: Seq<char>)
    requires
        forall|i: int| 0 <= i < s.len() ==> is_lexable_char(s[i]),
    ensures
        lex_spec(s) is Ok,
    decreases s.len(),
{
    if s.len() > 0 {
        assert forall|i: int| 0 <= i < s.drop_last().len() implies is_lexable_char(
            s.drop_last()[i],
        ) by {
            assert(s.drop_last()[i] == s[i]);
        }
        lemma_lex_lexable_ok(s.drop_last());
        assert(is_lexable_char(s.last()));
    }
}

/// Lexing a text holding an unacceptable character fails, naming the first
/// such character.
pub proof fn lemma_lex_first_bad_char(s: Seq<char>, i: int)
    requires
        0 <= i < s.len(),
        !is_lexable_char(s[i]),
        forall|j: int| 0 <= j < i ==> is_lexable_char(s[j]),
    ensures
        lex_spec(s) == Err::<Seq<TokenModel>, char>(s[i]),
{
    assert forall|j: int| 0 <= j < s.take(i).len() implies is_lexable_char(s.take(i)[j]) by {
        assert(s.take(i)[j] == s[j]);
    }
    lemma_lex_lexable_ok(s.take(i));
    assert(s.take(i + 1).drop_last() =~= s.take(i));
    assert(s.take(i + 1).last() == s[i]);
    assert(lex_spec(s.take(i + 1)) == Err::<Seq<TokenModel>, char>(s[i]));
    lemma_lex_extend_err(s, i + 1);
}

} // verus!
