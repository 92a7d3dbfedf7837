use vstd::prelude::*;

use crate::span::{Span, SpanView};

verus! {

/// Why a lexeme could not be produced.
#[derive(Debug, Clone, Copy, PartialEq, Eq, Structural)]
pub enum LexerError {
    /// A digit sequence did not fit a 64-bit signed integer.
    ParseIntError,
    /// A float literal did not denote a 64-bit float. The grammar's float
    /// literals always do, so the tokenizer never produces this variant;
    /// it stays in the vocabulary for callers that classify lexical failures.
    ParseFloatError,
    /// A character began no lexeme, or a string literal never closed.
    Other,
}

impl Default for LexerError {
    fn default() -> (r: LexerError)
        ensures
            r == LexerError::Other,
    {
        LexerError::Other
    }
}

/// A classified minimal unit of source text.
///
/// A token never carries its own position; the tokenizer yields a [`Span`]
/// alongside each token.
#[derive(Debug, Clone, PartialEq)]
pub enum Token {
    // -- Keywords --
    True,
    False,
    Let,
    Mut,
    Type,
    Struct,
    Fn,
    While,
    Loop,
    For,
    If,
    Else,
    Return,
    // -- Operators --
    /// `+`
    Plus,
    /// `-`
    Minus,
    /// `*`
    Star,
    /// `/`
    Slash,
    /// `=`
    Assign,
    /// `==`
    Equals,
    /// `!=`
    NotEquals,
    /// `<`
    LessThan,
    /// `>`
    GreaterThan,
    /// `&&`
    And,
    /// `||`
    Or,
    // -- Delimiters --
    /// `(`
    LParen,
    /// `)`
    RParen,
    /// `{`
    LBrace,
    /// `}`
    RBrace,
    /// `[`
    LBracket,
    /// `]`
    RBracket,
    /// `;`
    Semicolon,
    /// `:`
    Colon,
    /// `,`
    Comma,
    /// `.`
    Period,
    /// `->`
    RightArrow,
    // -- Identifier --
    Identifier(String),
    // -- Literals --
    IntegerLiteral(i64),
    /// The literal's source text, `digits '.' digits`. The numeric 64-bit
    /// float it denotes is left to the surrounding tooling; the verified
    /// core carries the text verbatim.
    FloatLiteral(String),
    /// The literal's source text retained verbatim, including the quotes
    /// and any escape markers: escape sequences are not decoded here.
    Str(String),
}

/// The mathematical image of a [`Token`]: the same classification with
/// text carried as a sequence of characters.
pub enum TokenView {
    True,
    False,
    Let,
    Mut,
    Type,
    Struct,
    Fn,
    While,
    Loop,
    For,
    If,
    Else,
    Return,
    Plus,
    Minus,
    Star,
    Slash,
    Assign,
    Equals,
    NotEquals,
    LessThan,
    GreaterThan,
    And,
    Or,
    LParen,
    RParen,
    LBrace,
    RBrace,
    LBracket,
    RBracket,
    Semicolon,
    Colon,
    Comma,
    Period,
    RightArrow,
    Identifier(Seq<char>),
    IntegerLiteral(i64),
    FloatLiteral(Seq<char>),
    Str(Seq<char>),
}

impl View for Token {
    type V = TokenView;

    open spec fn view(&self) -> TokenView {
        match self {
            Token::True => TokenView::True,
            Token::False => TokenView::False,
            Token::Let => TokenView::Let,
            Token::Mut => TokenView::Mut,
            Token::Type => TokenView::Type,
            Token::Struct => TokenView::Struct,
            Token::Fn => TokenView::Fn,
            Token::While => TokenView::While,
            Token::Loop => TokenView::Loop,
            Token::For => TokenView::For,
            Token::If => TokenView::If,
            Token::Else => TokenView::Else,
            Token::Return => TokenView::Return,
            Token::Plus => TokenView::Plus,
            Token::Minus => TokenView::Minus,
            Token::Star => TokenView::Star,
            Token::Slash => TokenView::Slash,
            Token::Assign => TokenView::Assign,
            Token::Equals => TokenView::Equals,
            Token::NotEquals => TokenView::NotEquals,
            Token::LessThan => TokenView::LessThan,
            Token::GreaterThan => TokenView::GreaterThan,
            Token::And => TokenView::And,
            Token::Or => TokenView::Or,
            Token::LParen => TokenView::LParen,
            Token::RParen => TokenView::RParen,
            Token::LBrace => TokenView::LBrace,
            Token::RBrace => TokenView::RBrace,
            Token::LBracket => TokenView::LBracket,
            Token::RBracket => TokenView::RBracket,
            Token::Semicolon => TokenView::Semicolon,
            Token::Colon => TokenView::Colon,
            Token::Comma => TokenView::Comma,
            Token::Period => TokenView::Period,
            Token::RightArrow => TokenView::RightArrow,
            Token::Identifier(name) => TokenView::Identifier(name@),
            Token::IntegerLiteral(value) => TokenView::IntegerLiteral(*value),
            Token::FloatLiteral(text) => TokenView::FloatLiteral(text@),
            Token::Str(text) => TokenView::Str(text@),
        }
    }
}

/// The name under which a token kind is reported in "expected ..." parse
/// errors: its bare constructor name.
pub open spec fn token_debug_name(t: TokenView) -> Seq<char> {
    match t {
        TokenView::True => "True"@,
        TokenView::False => "False"@,
        TokenView::Let => "Let"@,
        TokenView::Mut => "Mut"@,
        TokenView::Type => "Type"@,
        TokenView::Struct => "Struct"@,
        TokenView::Fn => "Fn"@,
        TokenView::While => "While"@,
        TokenView::Loop => "Loop"@,
        TokenView::For => "For"@,
        TokenView::If => "If"@,
        TokenView::Else => "Else"@,
        TokenView::Return => "Return"@,
        TokenView::Plus => "Plus"@,
        TokenView::Minus => "Minus"@,
        TokenView::Star => "Star"@,
        TokenView::Slash => "Slash"@,
        TokenView::Assign => "Assign"@,
        TokenView::Equals => "Equals"@,
        TokenView::NotEquals => "NotEquals"@,
        TokenView::LessThan => "LessThan"@,
        TokenView::GreaterThan => "GreaterThan"@,
        TokenView::And => "And"@,
        TokenView::Or => "Or"@,
        TokenView::LParen => "LParen"@,
        TokenView::RParen => "RParen"@,
        TokenView::LBrace => "LBrace"@,
        TokenView::RBrace => "RBrace"@,
        TokenView::LBracket => "LBracket"@,
        TokenView::RBracket => "RBracket"@,
        TokenView::Semicolon => "Semicolon"@,
        TokenView::Colon => "Colon"@,
        TokenView::Comma => "Comma"@,
        TokenView::Period => "Period"@,
        TokenView::RightArrow => "RightArrow"@,
        TokenView::Identifier(_) => "Identifier"@,
        TokenView::IntegerLiteral(_) => "IntegerLiteral"@,
        TokenView::FloatLiteral(_) => "FloatLiteral"@,
        TokenView::Str(_) => "Str"@,
    }
}

impl Token {
    /// Whether two tokens are the same lexeme: the same kind, carrying the
    /// same text or value.
    #[verifier::rlimit(60)]
    pub fn same_token(&self, other: &Token) -> (b: bool)
        ensures
            b == (self@ == other@),
    {
        match self {
            Token::True => matches!(other, Token::True),
            Token::False => matches!(other, Token::False),
            Token::Let => matches!(other, Token::Let),
            Token::Mut => matches!(other, Token::Mut),
            Token::Type => matches!(other, Token::Type),
            Token::Struct => matches!(other, Token::Struct),
            Token::Fn => matches!(other, Token::Fn),
            Token::While => matches!(other, Token::While),
            Token::Loop => matches!(other, Token::Loop),
            Token::For => matches!(other, Token::For),
            Token::If => matches!(other, Token::If),
            Token::Else => matches!(other, Token::Else),
            Token::Return => matches!(other, Token::Return),
            Token::Plus => matches!(other, Token::Plus),
            Token::Minus => matches!(other, Token::Minus),
            Token::Star => matches!(other, Token::Star),
            Token::Slash => matches!(other, Token::Slash),
            Token::Assign => matches!(other, Token::Assign),
            Token::Equals => matches!(other, Token::Equals),
            Token::NotEquals => matches!(other, Token::NotEquals),
            Token::LessThan => matches!(other, Token::LessThan),
            Token::GreaterThan => matches!(other, Token::GreaterThan),
            Token::And => matches!(other, Token::And),
            Token::Or => matches!(other, Token::Or),
            Token::LParen => matches!(other, Token::LParen),
            Token::RParen => matches!(other, Token::RParen),
            Token::LBrace => matches!(other, Token::LBrace),
            Token::RBrace => matches!(other, Token::RBrace),
            Token::LBracket => matches!(other, Token::LBracket),
            Token::RBracket => matches!(other, Token::RBracket),
            Token::Semicolon => matches!(other, Token::Semicolon),
            Token::Colon => matches!(other, Token::Colon),
            Token::Comma => matches!(other, Token::Comma),
            Token::Period => matches!(other, Token::Period),
            Token::RightArrow => matches!(other, Token::RightArrow),
            Token::Identifier(a) => match other {
                Token::Identifier(b) => *a == *b,
                _ => false,
            },
            Token::IntegerLiteral(a) => match other {
                Token::IntegerLiteral(b) => a == b,
                _ => false,
            },
            Token::FloatLiteral(a) => match other {
                Token::FloatLiteral(b) => *a == *b,
                _ => false,
            },
            Token::Str(a) => match other {
                Token::Str(b) => *a == *b,
                _ => false,
            },
        }
    }

    /// The token kind's name, as "expected ..." parse errors report it.
    pub fn debug_name(&self) -> (r: String)
        ensures
            r@ == token_debug_name(self@),
    {
        match self {
            Token::True => String::from_str("True"),
            Token::False => String::from_str("False"),
            Token::Let => String::from_str("Let"),
            Token::Mut => String::from_str("Mut"),
            Token::Type => String::from_str("Type"),
            Token::Struct => String::from_str("Struct"),
            Token::Fn => String::from_str("Fn"),
            Token::While => String::from_str("While"),
            Token::Loop => String::from_str("Loop"),
            Token::For => String::from_str("For"),
            Token::If => String::from_str("If"),
            Token::Else => String::from_str("Else"),
            Token::Return => String::from_str("Return"),
            Token::Plus => String::from_str("Plus"),
            Token::Minus => String::from_str("Minus"),
            Token::Star => String::from_str("Star"),
            Token::Slash => String::from_str("Slash"),
            Token::Assign => String::from_str("Assign"),
            Token::Equals => String::from_str("Equals"),
            Token::NotEquals => String::from_str("NotEquals"),
            Token::LessThan => String::from_str("LessThan"),
            Token::GreaterThan => String::from_str("GreaterThan"),
            Token::And => String::from_str("And"),
            Token::Or => String::from_str("Or"),
            Token::LParen => String::from_str("LParen"),
            Token::RParen => String::from_str("RParen"),
            Token::LBrace => String::from_str("LBrace"),
            Token::RBrace => String::from_str("RBrace"),
            Token::LBracket => String::from_str("LBracket"),
            Token::RBracket => String::from_str("RBracket"),
            Token::Semicolon => String::from_str("Semicolon"),
            Token::Colon => String::from_str("Colon"),
            Token::Comma => String::from_str("Comma"),
            Token::Period => String::from_str("Period"),
            Token::RightArrow => String::from_str("RightArrow"),
            Token::Identifier(_) => String::from_str("Identifier"),
            Token::IntegerLiteral(_) => String::from_str("IntegerLiteral"),
            Token::FloatLiteral(_) => String::from_str("FloatLiteral"),
            Token::Str(_) => String::from_str("Str"),
        }
    }
}

// ---------------------------------------------------------------------------
// Character classes of the lexical grammar
// ---------------------------------------------------------------------------
/// Whitespace that is skipped and never emitted: space, tab, newline,
/// form feed.
pub open spec fn is_space_char(c: char) -> bool {
    c == ' ' || c == '\t' || c == '\n' || c == '\u{c}'
}

/// A decimal digit.
pub open spec fn is_digit_char(c: char) -> bool {
    '0' <= c && c <= '9'
}

/// A character that may begin an identifier.
pub open spec fn is_ident_start_char(c: char) -> bool {
    ('a' <= c && c <= 'z') || ('A' <= c && c <= 'Z') || c == '_'
}

/// A character that may continue an identifier.
pub open spec fn is_ident_char(c: char) -> bool {
    is_ident_start_char(c) || is_digit_char(c)
}

// ---------------------------------------------------------------------------
// Scanning: maximal runs of a character class
// ---------------------------------------------------------------------------
/// The first position at or after `i` holding a non-whitespace character,
/// or the end of the input.
pub open spec fn skip_spaces(s: Seq<char>, i: int) -> int
    decreases s.len() - i,
{
    if i < s.len() && is_space_char(s[i]) {
        skip_spaces(s, i + 1)
    } else {
        i
    }
}

/// The first position at or after `i` holding a non-digit character, or
/// the end of the input.
pub open spec fn scan_digits(s: Seq<char>, i: int) -> int
    decreases s.len() - i,
{
    if i < s.len() && is_digit_char(s[i]) {
        scan_digits(s, i + 1)
    } else {
        i
    }
}

/// The first position at or after `i` holding a character that cannot
/// continue an identifier, or the end of the input.
pub open spec fn scan_ident(s: Seq<char>, i: int) -> int
    decreases s.len() - i,
{
    if i < s.len() && is_ident_char(s[i]) {
        scan_ident(s, i + 1)
    } else {
        i
    }
}

/// Scans the body of a string literal from position `i` (just after the
/// opening quote): any character other than a quote or backslash, or a
/// backslash followed by any single character, until a closing quote.
/// Returns the position one past the closing quote, or `None` if the
/// input ends first.
pub open spec fn scan_string(s: Seq<char>, i: int) -> Option<int>
    decreases s.len() - i,
{
    if i >= s.len() {
        None
    } else if s[i] == '"' {
        Some(i + 1)
    } else if s[i] == '\\' {
        if i + 1 < s.len() {
            scan_string(s, i + 2)
        } else {
            None
        }
    } else {
        scan_string(s, i + 1)
    }
}

/// The integer a digit sequence denotes in base ten.
pub open spec fn digits_value(ds: Seq<char>) -> int
    decreases ds.len(),
{
    if ds.len() == 0 {
        0
    } else {
        digits_value(ds.drop_last()) * 10 + (ds.last() as u32 - 48)
    }
}

/// The keyword a word denotes, if any. Keywords are reserved exact
/// matches, checked before generic identifier classification.
pub open spec fn keyword_token(t: Seq<char>) -> Option<TokenView> {
    if t.len() == 2 {
        if t[0] == 'f' && t[1] == 'n' {
            Some(TokenView::Fn)
        } else if t[0] == 'i' && t[1] == 'f' {
            Some(TokenView::If)
        } else {
            None
        }
    } else if t.len() == 3 {
        if t[0] == 'l' && t[1] == 'e' && t[2] == 't' {
            Some(TokenView::Let)
        } else if t[0] == 'm' && t[1] == 'u' && t[2] == 't' {
            Some(TokenView::Mut)
        } else if t[0] == 'f' && t[1] == 'o' && t[2] == 'r' {
            Some(TokenView::For)
        } else {
            None
        }
    } else if t.len() == 4 {
        if t[0] == 't' && t[1] == 'r' && t[2] == 'u' && t[3] == 'e' {
            Some(TokenView::True)
        } else if t[0] == 't' && t[1] == 'y' && t[2] == 'p' && t[3] == 'e' {
            Some(TokenView::Type)
        } else if t[0] == 'l' && t[1] == 'o' && t[2] == 'o' && t[3] == 'p' {
            Some(TokenView::Loop)
        } else if t[0] == 'e' && t[1] == 'l' && t[2] == 's' && t[3] == 'e' {
            Some(TokenView::Else)
        } else {
            None
        }
    } else if t.len() == 5 {
        if t[0] == 'f' && t[1] == 'a' && t[2] == 'l' && t[3] == 's' && t[4] == 'e' {
            Some(TokenView::False)
        } else if t[0] == 'w' && t[1] == 'h' && t[2] == 'i' && t[3] == 'l' && t[4] == 'e' {
            Some(TokenView::While)
        } else {
            None
        }
    } else if t.len() == 6 {
        if t[0] == 's' && t[1] == 't' && t[2] == 'r' && t[3] == 'u' && t[4] == 'c' && t[5] == 't' {
            Some(TokenView::Struct)
        } else if t[0] == 'r' && t[1] == 'e' && t[2] == 't' && t[3] == 'u' && t[4] == 'r' && t[5]
            == 'n' {
            Some(TokenView::Return)
        } else {
            None
        }
    } else {
        None
    }
}

// ---------------------------------------------------------------------------
// The lexing relation
// ---------------------------------------------------------------------------
/// The outcome of scanning one lexeme.
pub enum LexOutcome {
    /// A token, the start and end of its textual extent; scanning resumes
    /// at the end position.
    Next(TokenView, int, int),
    /// Only whitespace remained.
    End,
    /// A lexical error and the extent that produced it.
    Fail(LexerError, int, int),
}

/// The single lexeme beginning at or after position `pos` of the source.
///
/// This is the whole lexical grammar: whitespace is skipped; keywords and
/// operators are exact matches with the longest match winning; identifiers,
/// integer literals, float literals and string literals are maximal runs of
/// their character classes; a digit sequence whose value exceeds the 64-bit
/// signed range fails with [`LexerError::ParseIntError`]; a character that
/// begins no lexeme, or a string that never closes, fails with
/// [`LexerError::Other`].
pub open spec fn next_lexeme(s: Seq<char>, pos: int) -> LexOutcome {
    let i = skip_spaces(s, pos);
    if i >= s.len() {
        LexOutcome::End
    } else {
        let c = s[i];
        if is_digit_char(c) {
            let j = scan_digits(s, i);
            if j + 1 < s.len() && s[j] == '.' && is_digit_char(s[j + 1]) {
                let k = scan_digits(s, j + 2);
                LexOutcome::Next(TokenView::FloatLiteral(s.subrange(i, k)), i, k)
            } else {
                let v = digits_value(s.subrange(i, j));
                if v <= i64::MAX as int {
                    LexOutcome::Next(TokenView::IntegerLiteral(v as i64), i, j)
                } else {
                    LexOutcome::Fail(LexerError::ParseIntError, i, j)
                }
            }
        } else if is_ident_start_char(c) {
            let j = scan_ident(s, i);
            match keyword_token(s.subrange(i, j)) {
                Some(kw) => LexOutcome::Next(kw, i, j),
                None => LexOutcome::Next(TokenView::Identifier(s.subrange(i, j)), i, j),
            }
        } else if c == '"' {
            match scan_string(s, i + 1) {
                Some(k) => LexOutcome::Next(TokenView::Str(s.subrange(i, k)), i, k),
                None => LexOutcome::Fail(LexerError::Other, i, i + 1),
            }
        } else if c == '=' {
            if i + 1 < s.len() && s[i + 1] == '=' {
                LexOutcome::Next(TokenView::Equals, i, i + 2)
            } else {
                LexOutcome::Next(TokenView::Assign, i, i + 1)
            }
        } else if c == '!' {
            if i + 1 < s.len() && s[i + 1] == '=' {
                LexOutcome::Next(TokenView::NotEquals, i, i + 2)
            } else {
                LexOutcome::Fail(LexerError::Other, i, i + 1)
            }
        } else if c == '&' {
            if i + 1 < s.len() && s[i + 1] == '&' {
                LexOutcome::Next(TokenView::And, i, i + 2)
            } else {
                LexOutcome::Fail(LexerError::Other, i, i + 1)
            }
        } else if c == '|' {
            if i + 1 < s.len() && s[i + 1] == '|' {
                LexOutcome::Next(TokenView::Or, i, i + 2)
            } else {
                LexOutcome::Fail(LexerError::Other, i, i + 1)
            }
        } else if c == '-' {
            if i + 1 < s.len() && s[i + 1] == '>' {
                LexOutcome::Next(TokenView::RightArrow, i, i + 2)
            } else {
                LexOutcome::Next(TokenView::Minus, i, i + 1)
            }
        } else if c == '+' {
            LexOutcome::Next(TokenView::Plus, i, i + 1)
        } else if c == '*' {
            LexOutcome::Next(TokenView::Star, i, i + 1)
        } else if c == '/' {
            LexOutcome::Next(TokenView::Slash, i, i + 1)
        } else if c == '<' {
            LexOutcome::Next(TokenView::LessThan, i, i + 1)
        } else if c == '>' {
            LexOutcome::Next(TokenView::GreaterThan, i, i + 1)
        } else if c == '(' {
            LexOutcome::Next(TokenView::LParen, i, i + 1)
        } else if c == ')' {
            LexOutcome::Next(TokenView::RParen, i, i + 1)
        } else if c == '{' {
            LexOutcome::Next(TokenView::LBrace, i, i + 1)
        } else if c == '}' {
            LexOutcome::Next(TokenView::RBrace, i, i + 1)
        } else if c == '[' {
            LexOutcome::Next(TokenView::LBracket, i, i + 1)
        } else if c == ']' {
            LexOutcome::Next(TokenView::RBracket, i, i + 1)
        } else if c == ';' {
            LexOutcome::Next(TokenView::Semicolon, i, i + 1)
        } else if c == ':' {
            LexOutcome::Next(TokenView::Colon, i, i + 1)
        } else if c == ',' {
            LexOutcome::Next(TokenView::Comma, i, i + 1)
        } else if c == '.' {
            LexOutcome::Next(TokenView::Period, i, i + 1)
        } else {
            LexOutcome::Fail(LexerError::Other, i, i + 1)
        }
    }
}

// ---------------------------------------------------------------------------
// Bounds of the scanning functions
// ---------------------------------------------------------------------------
pub proof fn lemma_skip_spaces_bounds(s: Seq<char>, i: int)
    requires
        0 <= i <= s.len(),
    ensures
        i <= skip_spaces(s, i) <= s.len(),
    decreases s.len() - i,
{
    if i < s.len() && is_space_char(s[i]) {
        lemma_skip_spaces_bounds(s, i + 1);
    }
}

pub proof fn lemma_scan_digits_bounds(s: Seq<char>, i: int)
    requires
        0 <= i <= s.len(),
    ensures
        i <= scan_digits(s, i) <= s.len(),
    decreases s.len() - i,
{
    if i < s.len() && is_digit_char(s[i]) {
        lemma_scan_digits_bounds(s, i + 1);
    }
}

/// Every character inside a scanned digit run is a digit.
pub proof fn lemma_scan_digits_chars(s: Seq<char>, i: int)
    requires
        0 <= i <= s.len(),
    ensures
        forall|m: int| i <= m < scan_digits(s, i) ==> is_digit_char(#[trigger] s[m]),
    decreases s.len() - i,
{
    if i < s.len() && is_digit_char(s[i]) {
        lemma_scan_digits_chars(s, i + 1);
    }
}

pub proof fn lemma_scan_ident_bounds(s: Seq<char>, i: int)
    requires
        0 <= i <= s.len(),
    ensures
        i <= scan_ident(s, i) <= s.len(),
    decreases s.len() - i,
{
    if i < s.len() && is_ident_char(s[i]) {
        lemma_scan_ident_bounds(s, i + 1);
    }
}

pub proof fn lemma_scan_string_bounds(s: Seq<char>, i: int)
    requires
        0 <= i <= s.len(),
        scan_string(s, i) is Some,
    ensures
        i < scan_string(s, i)->0 <= s.len(),
    decreases s.len() - i,
{
    if i < s.len() && s[i] != '"' {
        if s[i] == '\\' {
            lemma_scan_string_bounds(s, i + 2);
        } else {
            lemma_scan_string_bounds(s, i + 1);
        }
    }
}

/// Skipping whitespace stops exactly at the first non-whitespace position.
pub proof fn lemma_skip_spaces_exact(s: Seq<char>, i: int, j: int)
    requires
        0 <= i <= j <= s.len(),
        forall|m: int| i <= m < j ==> is_space_char(#[trigger] s[m]),
        j == s.len() || !is_space_char(s[j]),
    ensures
        skip_spaces(s, i) == j,
    decreases j - i,
{
    if i < j {
        lemma_skip_spaces_exact(s, i + 1, j);
    }
}

/// Scanning digits stops exactly at the first non-digit position.
pub proof fn lemma_scan_digits_exact(s: Seq<char>, i: int, j: int)
    requires
        0 <= i <= j <= s.len(),
        forall|m: int| i <= m < j ==> is_digit_char(#[trigger] s[m]),
        j == s.len() || !is_digit_char(s[j]),
    ensures
        scan_digits(s, i) == j,
    decreases j - i,
{
    if i < j {
        lemma_scan_digits_exact(s, i + 1, j);
    }
}

/// Scanning identifier characters stops exactly at the first position
/// whose character cannot continue an identifier.
pub proof fn lemma_scan_ident_exact(s: Seq<char>, i: int, j: int)
    requires
        0 <= i <= j <= s.len(),
        forall|m: int| i <= m < j ==> is_ident_char(#[trigger] s[m]),
        j == s.len() || !is_ident_char(s[j]),
    ensures
        scan_ident(s, i) == j,
    decreases j - i,
{
    if i < j {
        lemma_scan_ident_exact(s, i + 1, j);
    }
}

/// Every lexeme's extent lies between the scan position and the end of the
/// input, and is never empty.
pub proof fn lemma_next_lexeme_bounds(s: Seq<char>, pos: int)
    requires
        0 <= pos <= s.len(),
    ensures
        match next_lexeme(s, pos) {
            LexOutcome::Next(_, st, en) => pos <= st < en <= s.len(),
            LexOutcome::Fail(_, st, en) => pos <= st < en,
            LexOutcome::End => true,
        },
{
    lemma_skip_spaces_bounds(s, pos);
    let i = skip_spaces(s, pos);
    if i < s.len() {
        if is_digit_char(s[i]) {
            lemma_scan_digits_bounds(s, i + 1);
            let j = scan_digits(s, i);
            if j + 1 < s.len() && s[j] == '.' && is_digit_char(s[j + 1]) {
                lemma_scan_digits_bounds(s, j + 2);
            }
        } else if is_ident_start_char(s[i]) {
            lemma_scan_ident_bounds(s, i + 1);
        } else if s[i] == '"' {
            if scan_string(s, i + 1) is Some {
                lemma_scan_string_bounds(s, i + 1);
            }
        }
    }
}

// ---------------------------------------------------------------------------
// The executable scanner
// ---------------------------------------------------------------------------
/// One step of the executable tokenizer.
#[derive(Debug, Clone)]
pub enum ScanStep {
    /// A token and its span; scanning resumes at the span's end.
    Token(Token, Span),
    /// Only whitespace remained.
    End,
    /// A lexical error and the extent that produced it.
    Error(LexerError, Span),
}

fn is_space(c: char) -> (b: bool)
    ensures
        b == is_space_char(c),
{
    c == ' ' || c == '\t' || c == '\n' || c == '\u{c}'
}

fn is_digit(c: char) -> (b: bool)
    ensures
        b == is_digit_char(c),
{
    '0' <= c && c <= '9'
}

fn is_ident_start(c: char) -> (b: bool)
    ensures
        b == is_ident_start_char(c),
{
    ('a' <= c && c <= 'z') || ('A' <= c && c <= 'Z') || c == '_'
}

fn is_ident_continue(c: char) -> (b: bool)
    ensures
        b == is_ident_char(c),
{
    is_ident_start(c) || is_digit(c)
}

/// Retains a lexed string literal's slice verbatim. Escape sequences are
/// not decoded into the characters they denote; the text between and
/// including the quotes is kept as it stands in the source.
pub fn parse_string_literal(lexed_slice: &str) -> (r: Option<String>)
    ensures
        r matches Some(t) && t@ == lexed_slice@,
{
    Some(lexed_slice.to_owned())
}

fn skip_spaces_exec(src: &str, nchars: usize, pos: usize) -> (i: usize)
    requires
        nchars == src@.len(),
        pos <= nchars,
    ensures
        i as int == skip_spaces(src@, pos as int),
        pos <= i <= nchars,
{
    let mut i = pos;
    while i < nchars && is_space(src.get_char(i))
        invariant
            pos <= i <= nchars,
            nchars == src@.len(),
            skip_spaces(src@, pos as int) == skip_spaces(src@, i as int),
        decreases nchars - i,
    {
        i = i + 1;
    }
    i
}

fn scan_digits_exec(src: &str, nchars: usize, pos: usize) -> (j: usize)
    requires
        nchars == src@.len(),
        pos <= nchars,
    ensures
        j as int == scan_digits(src@, pos as int),
        pos <= j <= nchars,
{
    let mut j = pos;
    while j < nchars && is_digit(src.get_char(j))
        invariant
            pos <= j <= nchars,
            nchars == src@.len(),
            scan_digits(src@, pos as int) == scan_digits(src@, j as int),
        decreases nchars - j,
    {
        j = j + 1;
    }
    j
}

fn scan_ident_exec(src: &str, nchars: usize, pos: usize) -> (j: usize)
    requires
        nchars == src@.len(),
        pos <= nchars,
    ensures
        j as int == scan_ident(src@, pos as int),
        pos <= j <= nchars,
{
    let mut j = pos;
    while j < nchars && is_ident_continue(src.get_char(j))
        invariant
            pos <= j <= nchars,
            nchars == src@.len(),
            scan_ident(src@, pos as int) == scan_ident(src@, j as int),
        decreases nchars - j,
    {
        j = j + 1;
    }
    j
}

fn scan_string_exec(src: &str, nchars: usize, pos: usize) -> (r: Option<usize>)
    requires
        nchars == src@.len(),
        pos <= nchars,
    ensures
        match r {
            Some(k) => scan_string(src@, pos as int) == Some(k as int) && pos < k <= nchars,
            None => scan_string(src@, pos as int) is None,
        },
{
    let mut p = pos;
    loop
        invariant
            pos <= p <= nchars,
            nchars == src@.len(),
            scan_string(src@, pos as int) == scan_string(src@, p as int),
        decreases nchars - p,
    {
        if p >= nchars {
            return None;
        }
        let c = src.get_char(p);
        if c == '"' {
            return Some(p + 1);
        } else if c == '\\' {
            if p + 1 < nchars {
                p = p + 2;
            } else {
                return None;
            }
        } else {
            p = p + 1;
        }
    }
}

/// Extends the digit sequence `[i, k)` by one digit on the right.
proof fn lemma_digits_value_step(s: Seq<char>, i: int, k: int)
    requires
        0 <= i <= k < s.len(),
    ensures
        digits_value(s.subrange(i, k + 1)) == digits_value(s.subrange(i, k)) * 10 + (s[k] as u32
            - 48),
{
    let w = s.subrange(i, k + 1);
    assert(w.drop_last() =~= s.subrange(i, k));
    assert(w.last() == s[k]);
}

/// The value of an all-digit sequence is non-negative.
pub proof fn lemma_digits_value_nonneg(ds: Seq<char>)
    requires
        forall|k: int| 0 <= k < ds.len() ==> is_digit_char(ds[k]),
    ensures
        digits_value(ds) >= 0,
    decreases ds.len(),
{
    if ds.len() > 0 {
        lemma_digits_value_nonneg(ds.drop_last());
    }
}

/// Extending an all-digit sequence on the right never lowers its value.
proof fn lemma_digits_value_monotonic(s: Seq<char>, i: int, k: int, j: int)
    requires
        0 <= i <= k <= j <= s.len(),
        forall|m: int| i <= m < j ==> is_digit_char(s[m]),
    ensures
        digits_value(s.subrange(i, k)) <= digits_value(s.subrange(i, j)),
    decreases j - k,
{
    if k < j {
        lemma_digits_value_monotonic(s, i, k, j - 1);
        lemma_digits_value_step(s, i, j - 1);
        assert(forall|m: int|
            0 <= m < s.subrange(i, j - 1).len() ==> is_digit_char(
                #[trigger] s.subrange(i, j - 1)[m],
            ));
        lemma_digits_value_nonneg(s.subrange(i, j - 1));
    }
}

/// Reads the digit run `[i, j)` as a 64-bit signed integer, detecting
/// overflow exactly: `None` means the run's value exceeds `i64::MAX`.
fn digits_to_i64(src: &str, nchars: usize, i: usize, j: usize) -> (r: Option<i64>)
    requires
        nchars == src@.len(),
        i <= j <= nchars,
        forall|m: int| i <= m < j ==> is_digit_char(src@[m]),
    ensures
        match r {
            Some(v) => v as int == digits_value(src@.subrange(i as int, j as int)),
            None => digits_value(src@.subrange(i as int, j as int)) > i64::MAX as int,
        },
{
    let ghost s = src@;
    let mut acc: i64 = 0;
    let mut k = i;
    proof {
        assert(s.subrange(i as int, i as int) =~= Seq::<char>::empty());
    }
    while k < j
        invariant
            i <= k <= j <= nchars,
            nchars == s.len(),
            s == src@,
            forall|m: int| i <= m < j ==> is_digit_char(s[m]),
            acc as int == digits_value(s.subrange(i as int, k as int)),
            acc >= 0,
        decreases j - k,
    {
        let c = src.get_char(k);
        let d: u32 = c as u32 - 48;
        proof {
            assert(is_digit_char(s[k as int]));
            assert(d <= 9);
        }
        if acc > 922_337_203_685_477_580i64 || (acc == 922_337_203_685_477_580i64 && d > 7) {
            proof {
                lemma_digits_value_step(s, i as int, k as int);
                lemma_digits_value_monotonic(s, i as int, k as int + 1, j as int);
            }
            return None;
        }
        acc = acc * 10 + (d as i64);
        k = k + 1;
        proof {
            lemma_digits_value_step(s, i as int, k as int - 1);
        }
    }
    Some(acc)
}

/// Classifies the word `[i, j)` as a keyword or an identifier.
fn classify_word(src: &str, nchars: usize, i: usize, j: usize) -> (t: Token)
    requires
        nchars == src@.len(),
        i < j <= nchars,
    ensures
        t@ == match keyword_token(src@.subrange(i as int, j as int)) {
            Some(kw) => kw,
            None => TokenView::Identifier(src@.subrange(i as int, j as int)),
        },
{
    let len = j - i;
    if len == 2 {
        let c0 = src.get_char(i);
        let c1 = src.get_char(i + 1);
        if c0 == 'f' && c1 == 'n' {
            return Token::Fn;
        }
        if c0 == 'i' && c1 == 'f' {
            return Token::If;
        }
    } else if len == 3 {
        let c0 = src.get_char(i);
        let c1 = src.get_char(i + 1);
        let c2 = src.get_char(i + 2);
        if c0 == 'l' && c1 == 'e' && c2 == 't' {
            return Token::Let;
        }
        if c0 == 'm' && c1 == 'u' && c2 == 't' {
            return Token::Mut;
        }
        if c0 == 'f' && c1 == 'o' && c2 == 'r' {
            return Token::For;
        }
    } else if len == 4 {
        let c0 = src.get_char(i);
        let c1 = src.get_char(i + 1);
        let c2 = src.get_char(i + 2);
        let c3 = src.get_char(i + 3);
        if c0 == 't' && c1 == 'r' && c2 == 'u' && c3 == 'e' {
            return Token::True;
        }
        if c0 == 't' && c1 == 'y' && c2 == 'p' && c3 == 'e' {
            return Token::Type;
        }
        if c0 == 'l' && c1 == 'o' && c2 == 'o' && c3 == 'p' {
            return Token::Loop;
        }
        if c0 == 'e' && c1 == 'l' && c2 == 's' && c3 == 'e' {
            return Token::Else;
        }
    } else if len == 5 {
        let c0 = src.get_char(i);
        let c1 = src.get_char(i + 1);
        let c2 = src.get_char(i + 2);
        let c3 = src.get_char(i + 3);
        let c4 = src.get_char(i + 4);
        if c0 == 'f' && c1 == 'a' && c2 == 'l' && c3 == 's' && c4 == 'e' {
            return Token::False;
        }
        if c0 == 'w' && c1 == 'h' && c2 == 'i' && c3 == 'l' && c4 == 'e' {
            return Token::While;
        }
    } else if len == 6 {
        let c0 = src.get_char(i);
        let c1 = src.get_char(i + 1);
        let c2 = src.get_char(i + 2);
        let c3 = src.get_char(i + 3);
        let c4 = src.get_char(i + 4);
        let c5 = src.get_char(i + 5);
        if c0 == 's' && c1 == 't' && c2 == 'r' && c3 == 'u' && c4 == 'c' && c5 == 't' {
            return Token::Struct;
        }
        if c0 == 'r' && c1 == 'e' && c2 == 't' && c3 == 'u' && c4 == 'r' && c5 == 'n' {
            return Token::Return;
        }
    }
    let text = src.substring_char(i, j).to_owned();
    Token::Identifier(text)
}

/// Scans the single lexeme beginning at or after `pos`, exactly as the
/// lexical grammar [`next_lexeme`] describes it. The tokenizer is a pure
/// function of the source and the position, so the token sequence is
/// restartable from the start by scanning from position zero.
pub fn scan_token(src: &str, nchars: usize, pos: usize) -> (r: ScanStep)
    requires
        nchars == src@.len(),
        pos <= nchars,
    ensures
        match next_lexeme(src@, pos as int) {
            LexOutcome::Next(tv, st, en) => r matches ScanStep::Token(t, sp) && t@ == tv && sp@
                == (SpanView { start: st, end: en }),
            LexOutcome::End => r is End,
            LexOutcome::Fail(e, st, en) => r matches ScanStep::Error(e2, sp) && e2 == e && sp@
                == (SpanView { start: st, end: en }),
        },
{
    let ghost s = src@;
    let i = skip_spaces_exec(src, nchars, pos);
    if i >= nchars {
        return ScanStep::End;
    }
    let c = src.get_char(i);
    if is_digit(c) {
        let j = scan_digits_exec(src, nchars, i);
        let is_float = j < nchars && src.get_char(j) == '.' && j + 1 < nchars && is_digit(
            src.get_char(j + 1),
        );
        if is_float {
            let k = scan_digits_exec(src, nchars, j + 2);
            let text = src.substring_char(i, k).to_owned();
            return ScanStep::Token(Token::FloatLiteral(text), Span { start: i, end: k });
        }
        proof {
            lemma_scan_digits_chars(s, i as int);
        }
        match digits_to_i64(src, nchars, i, j) {
            Some(v) => {
                return ScanStep::Token(Token::IntegerLiteral(v), Span { start: i, end: j });
            },
            None => {
                return ScanStep::Error(LexerError::ParseIntError, Span { start: i, end: j });
            },
        }
    } else if is_ident_start(c) {
        let j = scan_ident_exec(src, nchars, i);
        proof {
            lemma_scan_ident_bounds(s, i as int + 1);
            assert(scan_ident(s, i as int) >= i + 1);
        }
        let t = classify_word(src, nchars, i, j);
        return ScanStep::Token(t, Span { start: i, end: j });
    } else if c == '"' {
        match scan_string_exec(src, nchars, i + 1) {
            Some(k) => {
                let text = parse_string_literal(src.substring_char(i, k)).unwrap();
                return ScanStep::Token(Token::Str(text), Span { start: i, end: k });
            },
            None => {
                return ScanStep::Error(LexerError::Other, Span { start: i, end: i + 1 });
            },
        }
    } else if c == '=' {
        if i + 1 < nchars && src.get_char(i + 1) == '=' {
            return ScanStep::Token(Token::Equals, Span { start: i, end: i + 2 });
        }
        return ScanStep::Token(Token::Assign, Span { start: i, end: i + 1 });
    } else if c == '!' {
        if i + 1 < nchars && src.get_char(i + 1) == '=' {
            return ScanStep::Token(Token::NotEquals, Span { start: i, end: i + 2 });
        }
        return ScanStep::Error(LexerError::Other, Span { start: i, end: i + 1 });
    } else if c == '&' {
        if i + 1 < nchars && src.get_char(i + 1) == '&' {
            return ScanStep::Token(Token::And, Span { start: i, end: i + 2 });
        }
        return ScanStep::Error(LexerError::Other, Span { start: i, end: i + 1 });
    } else if c == '|' {
        if i + 1 < nchars && src.get_char(i + 1) == '|' {
            return ScanStep::Token(Token::Or, Span { start: i, end: i + 2 });
        }
        return ScanStep::Error(LexerError::Other, Span { start: i, end: i + 1 });
    } else if c == '-' {
        if i + 1 < nchars && src.get_char(i + 1) == '>' {
            return ScanStep::Token(Token::RightArrow, Span { start: i, end: i + 2 });
        }
        return ScanStep::Token(Token::Minus, Span { start: i, end: i + 1 });
    } else if c == '+' {
        return ScanStep::Token(Token::Plus, Span { start: i, end: i + 1 });
    } else if c == '*' {
        return ScanStep::Token(Token::Star, Span { start: i, end: i + 1 });
    } else if c == '/' {
        return ScanStep::Token(Token::Slash, Span { start: i, end: i + 1 });
    } else if c == '<' {
        return ScanStep::Token(Token::LessThan, Span { start: i, end: i + 1 });
    } else if c == '>' {
        return ScanStep::Token(Token::GreaterThan, Span { start: i, end: i + 1 });
    } else if c == '(' {
        return ScanStep::Token(Token::LParen, Span { start: i, end: i + 1 });
    } else if c == ')' {
        return ScanStep::Token(Token::RParen, Span { start: i, end: i + 1 });
    } else if c == '{' {
        return ScanStep::Token(Token::LBrace, Span { start: i, end: i + 1 });
    } else if c == '}' {
        return ScanStep::Token(Token::RBrace, Span { start: i, end: i + 1 });
    } else if c == '[' {
        return ScanStep::Token(Token::LBracket, Span { start: i, end: i + 1 });
    } else if c == ']' {
        return ScanStep::Token(Token::RBracket, Span { start: i, end: i + 1 });
    } else if c == ';' {
        return ScanStep::Token(Token::Semicolon, Span { start: i, end: i + 1 });
    } else if c == ':' {
        return ScanStep::Token(Token::Colon, Span { start: i, end: i + 1 });
    } else if c == ',' {
        return ScanStep::Token(Token::Comma, Span { start: i, end: i + 1 });
    } else if c == '.' {
        return ScanStep::Token(Token::Period, Span { start: i, end: i + 1 });
    } else {
        return ScanStep::Error(LexerError::Other, Span { start: i, end: i + 1 });
    }
}

} // verus!
