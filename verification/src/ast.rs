//! Tree-construction facade: typed constructors for the nodes of the emitted
//! declaration tree (identifiers, qualified paths, generic types, expressions),
//! so the synthesizer never assembles the raw structure by hand.

use vstd::prelude::*;
use vstd::string::StringExecFns;

verus! {

/// A name node: a plain identifier of the declaration language.
pub struct Ident {
    pub name: String,
}

impl View for Ident {
    type V = Seq<char>;

    open spec fn view(&self) -> Seq<char> {
        self.name@
    }
}

impl Ident {
    /// Builds a name node from its text. The text must be non-empty; whether
    /// it is a valid identifier of the target language is the caller's
    /// responsibility and is not re-validated here.
    pub fn new(name: &str) -> (r: Self)
        requires
            name@.len() > 0,
        ensures
            r@ == name@,
    {
        Ident { name: String::from_str(name) }
    }
}

impl Clone for Ident {
    fn clone(&self) -> (r: Self)
        ensures
            r == *self,
    {
        Ident { name: self.name.clone() }
    }
}

/// One raw token of an emitted expression body.
pub enum Token {
    /// An identifier token.
    Name(Ident),
    /// The opening parenthesis `(`.
    OpenParen,
    /// The closing parenthesis `)`.
    CloseParen,
    /// The path separator `::`.
    PathSep,
}

/// The mathematical value of a single token.
pub enum TokenModel {
    Name(Seq<char>),
    OpenParen,
    CloseParen,
    PathSep,
}

impl View for Token {
    type V = TokenModel;

    open spec fn view(&self) -> TokenModel {
        match self {
            Token::Name(id) => TokenModel::Name(id@),
            Token::OpenParen => TokenModel::OpenParen,
            Token::CloseParen => TokenModel::CloseParen,
            Token::PathSep => TokenModel::PathSep,
        }
    }
}

/// The mathematical value of a token sequence.
pub open spec fn token_models(ts: Seq<Token>) -> Seq<TokenModel> {
    ts.map(|i: int, t: Token| t@)
}

/// One segment of a qualified path: an identifier, optionally carrying a
/// single trailing generic type argument.
pub struct PathSegment {
    pub ident: Ident,
    pub generic: Option<Type>,
}

/// Holds when a segment is the plain identifier `name` with no generic
/// argument.
pub open spec fn seg_named(s: PathSegment, name: Seq<char>) -> bool {
    &&& s.ident@ == name
    &&& s.generic is None
}

/// A path node: a chain of segments, as in a qualified name of the target
/// declaration language.
pub struct Path {
    pub segments: Vec<PathSegment>,
}

impl Path {
    /// An empty path, to be extended segment by segment.
    pub fn new() -> (r: Self)
        ensures
            r.segments@.len() == 0,
    {
        Path { segments: Vec::new() }
    }

    /// A path of the single plain segment `ident`.
    pub fn with_ident(ident: Ident) -> (r: Self)
        ensures
            r.segments@.len() == 1,
            r.segments@[0].ident == ident,
            r.segments@[0].generic is None,
    {
        let mut path = Self::new();
        path.push(ident);
        path
    }

    /// Appends a plain segment holding `ident`.
    pub fn push(&mut self, ident: Ident)
        ensures
            final(self).segments@ == old(self).segments@.push(
                (PathSegment { ident, generic: None }),
            ),
    {
        self.segments.push(PathSegment { ident, generic: None });
    }

    /// Appends a segment holding `ident` with the one generic argument `ty`.
    pub fn push_generic(&mut self, ident: Ident, ty: Type)
        ensures
            final(self).segments@ == old(self).segments@.push(
                (PathSegment { ident, generic: Some(ty) }),
            ),
    {
        self.segments.push(PathSegment { ident, generic: Some(ty) });
    }
}

/// A type node. Every type this generator emits is a path type.
pub struct Type {
    pub path: Path,
}

/// Holds when `t` is the bare one-segment path type `name`.
pub open spec fn type_is_ident_path(t: Type, name: Seq<char>) -> bool {
    &&& t.path.segments@.len() == 1
    &&& seg_named(t.path.segments@[0], name)
}

/// Holds when `t` is the standard-library optional type applied to the bare
/// path type `name`: the qualified path `std::option::Option` whose last
/// segment carries that one generic argument.
pub open spec fn type_is_option_of_name(t: Type, name: Seq<char>) -> bool {
    &&& t.path.segments@.len() == 3
    &&& seg_named(t.path.segments@[0], "std"@)
    &&& seg_named(t.path.segments@[1], "option"@)
    &&& t.path.segments@[2].ident@ == "Option"@
    &&& t.path.segments@[2].generic matches Some(inner) && type_is_ident_path(inner, name)
}

impl Type {
    /// The path type `path`.
    pub fn path(path: Path) -> (r: Self)
        ensures
            r.path == path,
    {
        Type { path }
    }

    /// The bare one-segment path type `ident`.
    pub fn path_from_ident(ident: Ident) -> (r: Self)
        ensures
            type_is_ident_path(r, ident@),
    {
        let path = Path::with_ident(ident);
        Self::path(path)
    }

    /// Wraps this type in the standard-library optional type, yielding
    /// `std::option::Option<self>`.
    pub fn into_option(self) -> (r: Self)
        ensures
            r.path.segments@.len() == 3,
            seg_named(r.path.segments@[0], "std"@),
            seg_named(r.path.segments@[1], "option"@),
            r.path.segments@[2].ident@ == "Option"@,
            r.path.segments@[2].generic == Some(self),
    {
        proof {
            reveal_strlit("std");
            reveal_strlit("option");
            reveal_strlit("Option");
        }
        let mut path = Path::new();
        path.push(Ident::new("std"));
        path.push(Ident::new("option"));
        path.push_generic(Ident::new("Option"), self);

        Self::path(path)
    }
}

/// An expression node for the emitted bodies.
pub enum Expr {
    /// An expression given directly as raw tokens.
    Tokens(Vec<Token>),
    /// A path expression naming `0`.
    Path(Path),
    /// A reference-taking expression `&e`.
    Reference(Box<Expr>),
}

impl Expr {
    /// An expression given directly by its tokens.
    pub fn tokens(tokens: Vec<Token>) -> (r: Self)
        ensures
            r == Expr::Tokens(tokens),
    {
        Expr::Tokens(tokens)
    }

    /// The path expression `path`.
    pub fn path(path: Path) -> (r: Self)
        ensures
            r == Expr::Path(path),
    {
        Expr::Path(path)
    }

    /// The expression taking a shared reference to `expr`.
    pub fn reference(expr: Self) -> (r: Self)
        ensures
            r matches Expr::Reference(inner) && *inner == expr,
    {
        Expr::Reference(Box::new(expr))
    }
}

} // verus!
