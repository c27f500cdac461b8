use vstd::prelude::*;

use crate::error::Span;

verus! {

/// The kind of a token, without what it carries.
#[derive(Debug, Clone, Copy, PartialEq, Eq, Structural)]
pub enum TokenTag {
    Eof,
    Semi,
    Assign,
    Colon,
    Comma,
    Dot,
    Plus,
    Minus,
    Star,
    Slash,
    LParen,
    RParen,
    LBracket,
    RBracket,
    Eq,
    Le,
    Ne,
    Lt,
    Ge,
    Gt,
    IntLit,
    Ident,
    StringLit,
    Program,
    Uses,
    Var,
    Procedure,
    Function,
    Begin,
    End,
    Array,
    Of,
    Integer,
    Boolean,
    String,
    Option,
    Result,
    Vector,
    List,
    Stack,
    KwMap,
    KwSet,
    Writeln,
    Readln,
    Return,
    If,
    Then,
    Else,
    While,
    Do,
    Or,
    And,
    Not,
    True,
    False,
}

/// The kind of a token: punctuation, a literal, an identifier (in lower
/// case) or a keyword.
#[derive(Debug, Clone)]
pub enum TokenKind {
    Eof,
    Semi,
    Assign,
    Colon,
    Comma,
    Dot,
    Plus,
    Minus,
    Star,
    Slash,
    LParen,
    RParen,
    LBracket,
    RBracket,
    Eq,
    Le,
    Ne,
    Lt,
    Ge,
    Gt,
    IntLit(i64),
    Ident(String),
    StringLit(String),
    Program,
    Uses,
    Var,
    Procedure,
    Function,
    Begin,
    End,
    Array,
    Of,
    Integer,
    Boolean,
    String,
    Option,
    Result,
    Vector,
    List,
    Stack,
    KwMap,
    KwSet,
    Writeln,
    Readln,
    Return,
    If,
    Then,
    Else,
    While,
    Do,
    Or,
    And,
    Not,
    True,
    False,
}

/// The content of a token kind: its tag, its integer value (zero when it has
/// none) and its text (empty when it has none).
pub type KindModel = (TokenTag, i64, Seq<char>);

/// A token: its kind and where it stands in the source.
#[derive(Debug, Clone)]
pub struct Token {
    pub kind: TokenKind,
    pub span: Span,
}

/// The model of a kind that carries nothing.
pub open spec fn bare(t: TokenTag) -> KindModel {
    (t, 0i64, Seq::<char>::empty())
}

impl TokenKind {
    /// The tag of this kind.
    pub open spec fn spec_tag(&self) -> TokenTag {
        match self {
            TokenKind::Eof => TokenTag::Eof,
            TokenKind::Semi => TokenTag::Semi,
            TokenKind::Assign => TokenTag::Assign,
            TokenKind::Colon => TokenTag::Colon,
            TokenKind::Comma => TokenTag::Comma,
            TokenKind::Dot => TokenTag::Dot,
            TokenKind::Plus => TokenTag::Plus,
            TokenKind::Minus => TokenTag::Minus,
            TokenKind::Star => TokenTag::Star,
            TokenKind::Slash => TokenTag::Slash,
            TokenKind::LParen => TokenTag::LParen,
            TokenKind::RParen => TokenTag::RParen,
            TokenKind::LBracket => TokenTag::LBracket,
            TokenKind::RBracket => TokenTag::RBracket,
            TokenKind::Eq => TokenTag::Eq,
            TokenKind::Le => TokenTag::Le,
            TokenKind::Ne => TokenTag::Ne,
            TokenKind::Lt => TokenTag::Lt,
            TokenKind::Ge => TokenTag::Ge,
            TokenKind::Gt => TokenTag::Gt,
            TokenKind::IntLit(..) => TokenTag::IntLit,
            TokenKind::Ident(..) => TokenTag::Ident,
            TokenKind::StringLit(..) => TokenTag::StringLit,
            TokenKind::Program => TokenTag::Program,
            TokenKind::Uses => TokenTag::Uses,
            TokenKind::Var => TokenTag::Var,
            TokenKind::Procedure => TokenTag::Procedure,
            TokenKind::Function => TokenTag::Function,
            TokenKind::Begin => TokenTag::Begin,
            TokenKind::End => TokenTag::End,
            TokenKind::Array => TokenTag::Array,
            TokenKind::Of => TokenTag::Of,
            TokenKind::Integer => TokenTag::Integer,
            TokenKind::Boolean => TokenTag::Boolean,
            TokenKind::String => TokenTag::String,
            TokenKind::Option => TokenTag::Option,
            TokenKind::Result => TokenTag::Result,
            TokenKind::Vector => TokenTag::Vector,
            TokenKind::List => TokenTag::List,
            TokenKind::Stack => TokenTag::Stack,
            TokenKind::KwMap => TokenTag::KwMap,
            TokenKind::KwSet => TokenTag::KwSet,
            TokenKind::Writeln => TokenTag::Writeln,
            TokenKind::Readln => TokenTag::Readln,
            TokenKind::Return => TokenTag::Return,
            TokenKind::If => TokenTag::If,
            TokenKind::Then => TokenTag::Then,
            TokenKind::Else => TokenTag::Else,
            TokenKind::While => TokenTag::While,
            TokenKind::Do => TokenTag::Do,
            TokenKind::Or => TokenTag::Or,
            TokenKind::And => TokenTag::And,
            TokenKind::Not => TokenTag::Not,
            TokenKind::True => TokenTag::True,
            TokenKind::False => TokenTag::False,
        }
    }

    /// The content of this kind.
    pub open spec fn model(&self) -> KindModel {
        match self {
            TokenKind::IntLit(v) => (TokenTag::IntLit, *v, Seq::<char>::empty()),
            TokenKind::Ident(s) => (TokenTag::Ident, 0i64, s@),
            TokenKind::StringLit(s) => (TokenTag::StringLit, 0i64, s@),
            _ => bare(self.spec_tag()),
        }
    }

    /// The tag of this kind.
    #[verifier::when_used_as_spec(spec_tag)]
    pub fn tag(&self) -> (t: TokenTag)
        ensures
            t == self.spec_tag(),
    {
        match self {
            TokenKind::Eof => TokenTag::Eof,
            TokenKind::Semi => TokenTag::Semi,
            TokenKind::Assign => TokenTag::Assign,
            TokenKind::Colon => TokenTag::Colon,
            TokenKind::Comma => TokenTag::Comma,
            TokenKind::Dot => TokenTag::Dot,
            TokenKind::Plus => TokenTag::Plus,
            TokenKind::Minus => TokenTag::Minus,
            TokenKind::Star => TokenTag::Star,
            TokenKind::Slash => TokenTag::Slash,
            TokenKind::LParen => TokenTag::LParen,
            TokenKind::RParen => TokenTag::RParen,
            TokenKind::LBracket => TokenTag::LBracket,
            TokenKind::RBracket => TokenTag::RBracket,
            TokenKind::Eq => TokenTag::Eq,
            TokenKind::Le => TokenTag::Le,
            TokenKind::Ne => TokenTag::Ne,
            TokenKind::Lt => TokenTag::Lt,
            TokenKind::Ge => TokenTag::Ge,
            TokenKind::Gt => TokenTag::Gt,
            TokenKind::IntLit(..) => TokenTag::IntLit,
            TokenKind::Ident(..) => TokenTag::Ident,
            TokenKind::StringLit(..) => TokenTag::StringLit,
            TokenKind::Program => TokenTag::Program,
            TokenKind::Uses => TokenTag::Uses,
            TokenKind::Var => TokenTag::Var,
            TokenKind::Procedure => TokenTag::Procedure,
            TokenKind::Function => TokenTag::Function,
            TokenKind::Begin => TokenTag::Begin,
            TokenKind::End => TokenTag::End,
            TokenKind::Array => TokenTag::Array,
            TokenKind::Of => TokenTag::Of,
            TokenKind::Integer => TokenTag::Integer,
            TokenKind::Boolean => TokenTag::Boolean,
            TokenKind::String => TokenTag::String,
            TokenKind::Option => TokenTag::Option,
            TokenKind::Result => TokenTag::Result,
            TokenKind::Vector => TokenTag::Vector,
            TokenKind::List => TokenTag::List,
            TokenKind::Stack => TokenTag::Stack,
            TokenKind::KwMap => TokenTag::KwMap,
            TokenKind::KwSet => TokenTag::KwSet,
            TokenKind::Writeln => TokenTag::Writeln,
            TokenKind::Readln => TokenTag::Readln,
            TokenKind::Return => TokenTag::Return,
            TokenKind::If => TokenTag::If,
            TokenKind::Then => TokenTag::Then,
            TokenKind::Else => TokenTag::Else,
            TokenKind::While => TokenTag::While,
            TokenKind::Do => TokenTag::Do,
            TokenKind::Or => TokenTag::Or,
            TokenKind::And => TokenTag::And,
            TokenKind::Not => TokenTag::Not,
            TokenKind::True => TokenTag::True,
            TokenKind::False => TokenTag::False,
        }
    }

    /// The kind of a tag that carries nothing.
    #[verifier::rlimit(50)]
    pub fn from_tag(t: TokenTag) -> (k: TokenKind)
        requires
            t != TokenTag::IntLit && t != TokenTag::Ident && t != TokenTag::StringLit,
        ensures
            k.model() == bare(t),
    {
        match t {
            TokenTag::Eof => TokenKind::Eof,
            TokenTag::Semi => TokenKind::Semi,
            TokenTag::Assign => TokenKind::Assign,
            TokenTag::Colon => TokenKind::Colon,
            TokenTag::Comma => TokenKind::Comma,
            TokenTag::Dot => TokenKind::Dot,
            TokenTag::Plus => TokenKind::Plus,
            TokenTag::Minus => TokenKind::Minus,
            TokenTag::Star => TokenKind::Star,
            TokenTag::Slash => TokenKind::Slash,
            TokenTag::LParen => TokenKind::LParen,
            TokenTag::RParen => TokenKind::RParen,
            TokenTag::LBracket => TokenKind::LBracket,
            TokenTag::RBracket => TokenKind::RBracket,
            TokenTag::Eq => TokenKind::Eq,
            TokenTag::Le => TokenKind::Le,
            TokenTag::Ne => TokenKind::Ne,
            TokenTag::Lt => TokenKind::Lt,
            TokenTag::Ge => TokenKind::Ge,
            TokenTag::Gt => TokenKind::Gt,
            TokenTag::Program => TokenKind::Program,
            TokenTag::Uses => TokenKind::Uses,
            TokenTag::Var => TokenKind::Var,
            TokenTag::Procedure => TokenKind::Procedure,
            TokenTag::Function => TokenKind::Function,
            TokenTag::Begin => TokenKind::Begin,
            TokenTag::End => TokenKind::End,
            TokenTag::Array => TokenKind::Array,
            TokenTag::Of => TokenKind::Of,
            TokenTag::Integer => TokenKind::Integer,
            TokenTag::Boolean => TokenKind::Boolean,
            TokenTag::String => TokenKind::String,
            TokenTag::Option => TokenKind::Option,
            TokenTag::Result => TokenKind::Result,
            TokenTag::Vector => TokenKind::Vector,
            TokenTag::List => TokenKind::List,
            TokenTag::Stack => TokenKind::Stack,
            TokenTag::KwMap => TokenKind::KwMap,
            TokenTag::KwSet => TokenKind::KwSet,
            TokenTag::Writeln => TokenKind::Writeln,
            TokenTag::Readln => TokenKind::Readln,
            TokenTag::Return => TokenKind::Return,
            TokenTag::If => TokenKind::If,
            TokenTag::Then => TokenKind::Then,
            TokenTag::Else => TokenKind::Else,
            TokenTag::While => TokenKind::While,
            TokenTag::Do => TokenKind::Do,
            TokenTag::Or => TokenKind::Or,
            TokenTag::And => TokenKind::And,
            TokenTag::Not => TokenKind::Not,
            TokenTag::True => TokenKind::True,
            TokenTag::False => TokenKind::False,
            TokenTag::IntLit => TokenKind::IntLit(0),
            TokenTag::Ident => TokenKind::Ident(String::new()),
            TokenTag::StringLit => TokenKind::StringLit(String::new()),
        }
    }
}

impl Token {
    /// The content of this token: its kind and its place.
    pub open spec fn model(&self) -> (KindModel, Span) {
        (self.kind.model(), self.span)
    }
}

/// The tag of a keyword, if the lower-case text is one.
pub open spec fn keyword_tag(text: Seq<char>) -> Option<TokenTag> {
    if text == "program"@ {
        Some(TokenTag::Program)
    } else if text == "uses"@ {
        Some(TokenTag::Uses)
    } else if text == "var"@ {
        Some(TokenTag::Var)
    } else if text == "procedure"@ {
        Some(TokenTag::Procedure)
    } else if text == "function"@ {
        Some(TokenTag::Function)
    } else if text == "begin"@ {
        Some(TokenTag::Begin)
    } else if text == "end"@ {
        Some(TokenTag::End)
    } else if text == "array"@ {
        Some(TokenTag::Array)
    } else if text == "of"@ {
        Some(TokenTag::Of)
    } else if text == "integer"@ {
        Some(TokenTag::Integer)
    } else if text == "boolean"@ {
        Some(TokenTag::Boolean)
    } else if text == "string"@ {
        Some(TokenTag::String)
    } else if text == "option"@ {
        Some(TokenTag::Option)
    } else if text == "result"@ {
        Some(TokenTag::Result)
    } else if text == "vector"@ {
        Some(TokenTag::Vector)
    } else if text == "list"@ {
        Some(TokenTag::List)
    } else if text == "stack"@ {
        Some(TokenTag::Stack)
    } else if text == "map"@ {
        Some(TokenTag::KwMap)
    } else if text == "set"@ {
        Some(TokenTag::KwSet)
    } else if text == "writeln"@ {
        Some(TokenTag::Writeln)
    } else if text == "readln"@ {
        Some(TokenTag::Readln)
    } else if text == "return"@ {
        Some(TokenTag::Return)
    } else if text == "if"@ {
        Some(TokenTag::If)
    } else if text == "then"@ {
        Some(TokenTag::Then)
    } else if text == "else"@ {
        Some(TokenTag::Else)
    } else if text == "while"@ {
        Some(TokenTag::While)
    } else if text == "do"@ {
        Some(TokenTag::Do)
    } else if text == "or"@ {
        Some(TokenTag::Or)
    } else if text == "and"@ {
        Some(TokenTag::And)
    } else if text == "not"@ {
        Some(TokenTag::Not)
    } else if text == "true"@ {
        Some(TokenTag::True)
    } else if text == "false"@ {
        Some(TokenTag::False)
    } else {
        None
    }
}

} // verus!
