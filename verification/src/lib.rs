//! Companion-declaration generator for enumerated types with payload-free
//! variants: given a model of the input type declaration, it validates the
//! shape, derives the successor relation over the variants in declaration
//! order, and synthesizes the declarations for a successor query and a
//! restartable "all cases" sequence.

pub mod ast;
pub mod cases;
pub mod input;

use vstd::prelude::*;
use vstd::string::StringExecFns;
use crate::ast::{
    Ident, Path, Type, Expr, Token, TokenModel, token_models, seg_named, type_is_option_of_name,
};
use crate::cases::{VariantList, successor_name};
use crate::input::{DeriveInput, Data, DeriveError, analyze, variant_names, accepted, rejected_with};

verus! {

/// A named field of an emitted record declaration.
pub struct Field {
    pub ident: Ident,
    pub ty: Type,
}

/// An emitted record-type declaration with named fields.
pub struct ItemStruct {
    pub ident: Ident,
    pub fields: Vec<Field>,
}

/// One arm of the emitted successor-query match: a variant pattern given as
/// a qualified path, and the expression the arm yields.
pub struct Arm {
    pub pat: Path,
    pub body: Expr,
}

/// The emitted successor-query match expression.
pub struct ExprMatch {
    pub scrutinee: Expr,
    pub arms: Vec<Arm>,
}

/// The bundle of emitted declarations, produced fresh per invocation and
/// handed back to the caller for splicing beside the original type: the
/// pieces that parametrize the successor query, the sequence-carrier type,
/// its constructor, its advance logic, and the "enumerate all cases" entry
/// point.
pub struct Artifact {
    /// The original type's name.
    pub enum_ident: Ident,
    /// The successor query's return type: optional of the original type.
    pub option_type: Type,
    /// The sequence-carrier type's name.
    pub iter_ident: Ident,
    /// The sequence-carrier type declaration.
    pub iter_struct: ItemStruct,
    /// The successor query's body: the match over the variants.
    pub match_expr: ExprMatch,
    /// The first variant in declaration order, seeding the entry point.
    pub first_variant: Ident,
}

/// The tokens of an emitted "present, holding the next variant" arm body:
/// `Some(enum_name::variant)`.
pub open spec fn some_variant_tokens(enum_name: Seq<char>, variant: Seq<char>) -> Seq<TokenModel> {
    seq![
        TokenModel::Name("Some"@),
        TokenModel::OpenParen,
        TokenModel::Name(enum_name),
        TokenModel::PathSep,
        TokenModel::Name(variant),
        TokenModel::CloseParen,
    ]
}

/// The tokens of the emitted "absent" arm body: `None`.
pub open spec fn none_tokens() -> Seq<TokenModel> {
    seq![TokenModel::Name("None"@)]
}

/// Holds when `arm` is the successor-query arm owed for variant `left` of
/// the type `enum_name`: its pattern is the qualified path
/// `enum_name::left`, and its body yields the successor wrapped as present,
/// or absent when `right` is the terminal marker.
pub open spec fn arm_encodes(
    arm: Arm,
    enum_name: Seq<char>,
    left: Seq<char>,
    right: Option<Seq<char>>,
) -> bool {
    &&& arm.pat.segments@.len() == 2
    &&& seg_named(arm.pat.segments@[0], enum_name)
    &&& seg_named(arm.pat.segments@[1], left)
    &&& (arm.body matches Expr::Tokens(ts) && token_models(ts@) == (match right {
        Some(v) => some_variant_tokens(enum_name, v),
        None => none_tokens(),
    }))
}

/// Holds when `m` is the successor-query match owed for the type
/// `enum_name` with variants `names`: it matches on a reference to `self`
/// and carries one arm per variant, in declaration order, each mapping its
/// variant to the successor relation's value at that position.
pub open spec fn match_encodes(m: ExprMatch, enum_name: Seq<char>, names: Seq<Seq<char>>) -> bool {
    &&& (m.scrutinee matches Expr::Reference(inner) && (*inner matches Expr::Path(p)
        && p.segments@.len() == 1 && seg_named(p.segments@[0], "self"@)))
    &&& m.arms@.len() == names.len()
    &&& forall|i: int|
        0 <= i < names.len() ==> arm_encodes(
            #[trigger] m.arms@[i],
            enum_name,
            names[i],
            successor_name(names, i),
        )
}

/// The name of the emitted sequence-carrier type: the original type's name
/// with the fixed suffix.
pub open spec fn iter_name_of(enum_name: Seq<char>) -> Seq<char> {
    enum_name + "Iterator"@
}

/// Holds when `s` is the sequence-carrier declaration owed for the type
/// `enum_name`: named with the fixed suffix, with the single field
/// `current` holding "optional value of the original type".
pub open spec fn iter_struct_for(s: ItemStruct, enum_name: Seq<char>) -> bool {
    &&& s.ident@ == iter_name_of(enum_name)
    &&& s.fields@.len() == 1
    &&& s.fields@[0].ident@ == "current"@
    &&& type_is_option_of_name(s.fields@[0].ty, enum_name)
}

/// Holds when `a` is the full bundle owed for an accepted input with type
/// name `enum_name` and variants `names` in declaration order.
pub open spec fn artifact_for(a: Artifact, enum_name: Seq<char>, names: Seq<Seq<char>>) -> bool {
    &&& a.enum_ident@ == enum_name
    &&& type_is_option_of_name(a.option_type, enum_name)
    &&& a.iter_ident@ == iter_name_of(enum_name)
    &&& iter_struct_for(a.iter_struct, enum_name)
    &&& match_encodes(a.match_expr, enum_name, names)
    &&& names.len() >= 1 && a.first_variant@ == names[0]
}

/// Synthesizes the sequence-carrier declaration: a record named after the
/// input type with the fixed suffix, whose one field `current` holds the
/// current position as "optional value of the original type".
pub fn gen_iter_struct(input: &DeriveInput) -> (r: ItemStruct)
    ensures
        iter_struct_for(r, input.ident@),
{
    proof {
        reveal_strlit("Iterator");
        reveal_strlit("current");
    }
    let enum_type = Type::path_from_ident(input.ident.clone());
    let iter_name_text = input.ident.name.clone().concat("Iterator");
    let iter_struct_name = Ident::new(iter_name_text.as_str());

    let mut fields: Vec<Field> = Vec::new();
    fields.push(Field { ident: Ident::new("current"), ty: enum_type.into_option() });

    ItemStruct { ident: iter_struct_name, fields }
}

/// Synthesizes one successor-query arm: the pattern `enum_ident::left`,
/// yielding `Some(enum_ident::right)` when a successor is given, and `None`
/// when `left` is terminal.
pub fn gen_match_arm(enum_ident: &Ident, left: &Ident, right: Option<&Ident>) -> (r: Arm)
    ensures
        arm_encodes(
            r,
            enum_ident@,
            left@,
            (match right {
                Some(id) => Some(id@),
                None => None,
            }),
        ),
{
    proof {
        reveal_strlit("Some");
        reveal_strlit("None");
    }
    let mut enum_path = Path::new();
    enum_path.push(enum_ident.clone());
    enum_path.push(left.clone());

    let mut ts: Vec<Token> = Vec::new();
    match right {
        Some(id) => {
            ts.push(Token::Name(Ident::new("Some")));
            ts.push(Token::OpenParen);
            ts.push(Token::Name(enum_ident.clone()));
            ts.push(Token::PathSep);
            ts.push(Token::Name(id.clone()));
            ts.push(Token::CloseParen);
            proof {
                assert(token_models(ts@) =~= some_variant_tokens(enum_ident@, id@));
            }
        },
        None => {
            ts.push(Token::Name(Ident::new("None")));
            proof {
                assert(token_models(ts@) =~= none_tokens());
            }
        },
    }
    let body = Expr::tokens(ts);
    Arm { pat: enum_path, body }
}

/// Synthesizes the successor-query match over `&self`: one arm per variant,
/// in declaration order, each mapping its variant to the one directly
/// following it wrapped as present, and the last variant to absent.
pub fn gen_match_expr(enum_ident: &Ident, variants: &VariantList) -> (r: ExprMatch)
    ensures
        match_encodes(r, enum_ident@, variants@),
{
    proof {
        reveal_strlit("self");
    }
    let self_ident = Ident::new("self");
    let self_expr = Expr::path(Path::with_ident(self_ident));
    let match_field = Expr::reference(self_expr);

    let n = variants.len();
    let mut arms: Vec<Arm> = Vec::new();
    let mut i: usize = 0;
    while i < n
        invariant
            n == variants@.len(),
            i <= n,
            arms@.len() == i,
            forall|j: int|
                0 <= j < i ==> arm_encodes(
                    #[trigger] arms@[j],
                    enum_ident@,
                    variants@[j],
                    successor_name(variants@, j),
                ),
        decreases n - i,
    {
        let left = variants.name(i);
        let right = if i + 1 == n {
            None
        } else {
            Some(variants.name(i + 1))
        };
        let arm = gen_match_arm(enum_ident, left, right);
        arms.push(arm);
        i += 1;
    }

    ExprMatch { scrutinee: match_field, arms }
}

/// The full generation pipeline: validate the input declaration, extract the
/// ordered variant list, derive the successor relation, and synthesize the
/// bundle of companion declarations. Exactly the inputs `accepted` admits
/// produce a bundle; every other input is rejected with the error owed to
/// it, and no partial output is produced.
pub fn derive(input: &DeriveInput) -> (r: Result<Artifact, DeriveError>)
    ensures
        match r {
            Ok(a) => accepted(*input) && (input.data matches Data::Enum(vs) && artifact_for(
                a,
                input.ident@,
                variant_names(vs@),
            )),
            Err(e) => !accepted(*input) && rejected_with(*input, e),
        },
{
    let variants = match analyze(input) {
        Ok(v) => v,
        Err(e) => {
            return Err(e);
        },
    };
    proof {
        reveal_strlit("Iterator");
    }

    let enum_ident = input.ident.clone();
    let enum_type = Type::path_from_ident(input.ident.clone());
    let option_type = enum_type.into_option();
    let iter_name_text = input.ident.name.clone().concat("Iterator");
    let iter_ident = Ident::new(iter_name_text.as_str());

    let iter_struct = gen_iter_struct(input);
    let first_variant = variants.name(0).clone();
    let match_expr = gen_match_expr(&input.ident, &variants);

    Ok(Artifact { enum_ident, option_type, iter_ident, iter_struct, match_expr, first_variant })
}

} // verus!
