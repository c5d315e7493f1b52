//! The variant model: raw declarations as the host-syntax layer hands them
//! over, their normalized per-variant descriptors, and the pairwise
//! validation that derived names will not collide.

use vstd::prelude::*;
use vstd::string::StringExecFns;

use crate::error::{CollisionError, Error, ParseError};
use crate::idents::{check_ident, is_ident, snake_case, snake_of};

verus! {

/// One declared field of a variant, as the host-syntax layer hands it over.
pub struct FieldParsed {
    /// The field's name, for record-like variants; `None` for tuple fields.
    pub ident: Option<String>,
    /// The field's type, as source text.
    pub ty: String,
}

/// One raw variant declaration.
pub struct VariantInput {
    /// The variant's declared name.
    pub ident: String,
    /// The text of the rename annotation, if one is present.
    pub rename: Option<String>,
    /// The declared fields, in order.
    pub fields: Vec<FieldParsed>,
}

/// A sum-type declaration, as the host-syntax layer hands it over.
pub struct EnumDecl {
    /// The sum type's name.
    pub ident: String,
    /// The generic parameter list as source text, angle brackets included
    /// and lifetime parameters alongside type parameters, or empty when the
    /// type has none.
    pub generics: String,
    /// The `where` clause as source text, or empty when the type has none.
    pub where_clause: String,
    /// The declared variants, in order.
    pub variants: Vec<VariantInput>,
}

/// A variant's field shape, computed once from its declared fields and fixed
/// for the rest of the pass.
pub enum FieldShape {
    /// No declared fields.
    Empty,
    /// Exactly one unnamed field, with its type text.
    SingleUnnamed(String),
    /// Two or more unnamed fields, with their type texts in order.
    MultiUnnamed(Vec<String>),
    /// Named (record-like) fields.
    Named,
}

/// How a shape classifies a declared field list: no fields are `Empty`,
/// unnamed fields are `SingleUnnamed`/`MultiUnnamed` by count and carry the
/// field types in order, named fields are `Named` whatever their count.
pub open spec fn shape_matches(fields: Seq<FieldParsed>, shape: FieldShape) -> bool {
    match shape {
        FieldShape::Empty => fields.len() == 0,
        FieldShape::SingleUnnamed(t) => {
            &&& fields.len() == 1
            &&& fields[0].ident is None
            &&& t@ == fields[0].ty@
        },
        FieldShape::MultiUnnamed(ts) => {
            &&& fields.len() > 1
            &&& fields[0].ident is None
            &&& ts@.len() == fields.len()
            &&& forall|i: int| 0 <= i < fields.len() ==> #[trigger] ts@[i]@ == fields[i].ty@
        },
        FieldShape::Named => fields.len() > 0 && fields[0].ident is Some,
    }
}

/// Classifies a declared field list into its shape.
pub fn classify_fields(fields: &Vec<FieldParsed>) -> (r: FieldShape)
    ensures
        shape_matches(fields@, r),
{
    if fields.len() == 0 {
        return FieldShape::Empty;
    }
    let first = &fields[0];
    if first.ident.is_some() {
        FieldShape::Named
    } else if fields.len() == 1 {
        FieldShape::SingleUnnamed(first.ty.clone())
    } else {
        let mut ts: Vec<String> = Vec::new();
        let mut i: usize = 0;
        while i < fields.len()
            invariant
                0 <= i <= fields@.len(),
                ts@.len() == i as int,
                forall|k: int| 0 <= k < i ==> #[trigger] ts@[k]@ == fields@[k].ty@,
            decreases fields@.len() - i,
        {
            let f = &fields[i];
            ts.push(f.ty.clone());
            i += 1;
        }
        FieldShape::MultiUnnamed(ts)
    }
}

/// The normalized descriptor of one variant: its identity, the name used to
/// derive every helper function's identifier, and its field shape.
pub struct VariantParsed {
    /// The variant's declared name, used for pattern matching in emitted code.
    pub ident: String,
    /// The name used to build derived function identifiers: the rename
    /// annotation verbatim when present, otherwise the declared name folded
    /// to `snake_case`.
    pub used_name: String,
    /// The variant's field shape.
    pub shape: FieldShape,
}

/// The used name a raw variant resolves to.
pub open spec fn resolved_used_name(v: VariantInput) -> Seq<char> {
    match v.rename {
        Option::Some(r) => r@,
        Option::None => snake_of(v.ident@),
    }
}

/// Whether a raw variant can be resolved at all: a rename annotation, when
/// present, must hold a usable identifier.
pub open spec fn variant_accepted(v: VariantInput) -> bool {
    match v.rename {
        Option::Some(r) => is_ident(r@),
        Option::None => true,
    }
}

/// How a raw variant and its normalized descriptor relate.
pub open spec fn parses_to(v: VariantInput, p: VariantParsed) -> bool {
    &&& p.ident@ == v.ident@
    &&& p.used_name@ == resolved_used_name(v)
    &&& shape_matches(v.fields@, p.shape)
}

/// The diagnostic for a rename annotation that is not a usable identifier.
pub open spec fn rename_message(rename: Seq<char>, variant: Seq<char>) -> Seq<char> {
    "`"@ + rename + "` on variant `"@ + variant
        + "` cannot be used as a function name. give the rename attribute a plain identifier, as in: `#[variantly(rename = \"some_other_name\")]`"@
}

fn build_rename_message(rename: &String, variant: &String) -> (r: String)
    ensures
        r@ == rename_message(rename@, variant@),
{
    let mut m = String::from_str("`");
    m.append(rename.as_str());
    m.append("` on variant `");
    m.append(variant.as_str());
    m.append(
        "` cannot be used as a function name. give the rename attribute a plain identifier, as in: `#[variantly(rename = \"some_other_name\")]`",
    );
    m
}

/// Whether an error is the rename diagnostic for the given raw variant.
pub open spec fn is_rename_error(e: Error, v: VariantInput) -> bool {
    &&& v.rename is Some
    &&& e matches Error::Parse(pe) && pe.variant@ == v.ident@ && pe.message@ == rename_message(
        v.rename->0@,
        v.ident@,
    )
}

impl VariantParsed {
    /// Builds the descriptor for one raw variant: resolves its used name —
    /// the rename annotation verbatim when present and usable, otherwise the
    /// declared name folded to `snake_case` — and classifies its fields.
    pub fn from_input(variant: &VariantInput) -> (r: Result<VariantParsed, Error>)
        ensures
            match r {
                Result::Ok(p) => variant_accepted(*variant) && parses_to(*variant, p),
                Result::Err(e) => !variant_accepted(*variant) && is_rename_error(e, *variant),
            },
    {
        let used_name = match &variant.rename {
            Option::Some(rename) => {
                if check_ident(rename.as_str()) {
                    rename.clone()
                } else {
                    return Result::Err(
                        Error::Parse(
                            ParseError {
                                variant: variant.ident.clone(),
                                message: build_rename_message(rename, &variant.ident),
                            },
                        ),
                    );
                }
            },
            Option::None => snake_case(variant.ident.as_str()),
        };
        Result::Ok(
            VariantParsed {
                ident: variant.ident.clone(),
                used_name,
                shape: classify_fields(&variant.fields),
            },
        )
    }
}

/// Whether every raw variant of a declaration can be resolved.
pub open spec fn all_variants_accepted(vs: Seq<VariantInput>) -> bool {
    forall|i: int| 0 <= i < vs.len() ==> variant_accepted(#[trigger] vs[i])
}

/// Builds the variant model of a whole declaration, in declaration order,
/// stopping at the first variant that cannot be resolved.
pub fn try_parse_variants(item_enum: &EnumDecl) -> (r: Result<Vec<VariantParsed>, Error>)
    ensures
        match r {
            Result::Ok(ps) => {
                &&& all_variants_accepted(item_enum.variants@)
                &&& ps@.len() == item_enum.variants@.len()
                &&& forall|i: int|
                    0 <= i < ps@.len() ==> parses_to(item_enum.variants@[i], #[trigger] ps@[i])
            },
            Result::Err(e) => exists|i: int|
                {
                    &&& 0 <= i < item_enum.variants@.len()
                    &&& !variant_accepted(#[trigger] item_enum.variants@[i])
                    &&& forall|j: int|
                        0 <= j < i ==> variant_accepted(#[trigger] item_enum.variants@[j])
                    &&& is_rename_error(e, item_enum.variants@[i])
                },
        },
{
    let mut ps: Vec<VariantParsed> = Vec::new();
    let mut i: usize = 0;
    while i < item_enum.variants.len()
        invariant
            0 <= i <= item_enum.variants@.len(),
            ps@.len() == i as int,
            forall|j: int| 0 <= j < i ==> variant_accepted(#[trigger] item_enum.variants@[j]),
            forall|j: int|
                0 <= j < i ==> parses_to(item_enum.variants@[j], #[trigger] ps@[j]),
        decreases item_enum.variants@.len() - i,
    {
        match VariantParsed::from_input(&item_enum.variants[i]) {
            Result::Ok(p) => {
                ps.push(p);
            },
            Result::Err(e) => {
                return Result::Err(e);
            },
        }
        i += 1;
    }
    Result::Ok(ps)
}

/// Whether the pair at `(i, j)` collides: both indices are in range, `i`
/// comes first, and the two variants resolve to the same used name.
pub open spec fn collides_at(vs: Seq<VariantParsed>, i: int, j: int) -> bool {
    0 <= i < j < vs.len() && vs[i].used_name@ == vs[j].used_name@
}

/// Whether any two distinct variants resolve to the same used name.
pub open spec fn has_collision(vs: Seq<VariantParsed>) -> bool {
    exists|i: int, j: int| collides_at(vs, i, j)
}

/// Pair order of the validation traversal: outer index ascending, then inner
/// index ascending.
pub open spec fn pair_before(i: int, j: int, i2: int, j2: int) -> bool {
    i < i2 || (i == i2 && j < j2)
}

/// The collision diagnostic, naming both offending variants and the
/// remediation syntax.
pub open spec fn collision_message(a: Seq<char>, b: Seq<char>) -> Seq<char> {
    "`"@ + a
        + "` cannot be coerced into a unique & idiomatic snake_case function name as it would collide with the `"@
        + b
        + "` variant of the same Enum. use the following attribute on this or the conflicting variant to resolve: `#[variantly(rename = \"some_other_name\")]`"@
}

/// Whether an error is the collision diagnostic for the given pair.
pub open spec fn is_collision_error(e: Error, a: VariantParsed, b: VariantParsed) -> bool {
    &&& e matches Error::Collision(c)
    &&& e->Collision_0.first@ == a.ident@
    &&& e->Collision_0.second@ == b.ident@
    &&& e->Collision_0.message@ == collision_message(a.ident@, b.ident@)
}

/// Validates that one pair of variants derives distinct used names; reports
/// both variants by their declared names otherwise.
pub fn compare_used_names(a: &VariantParsed, b: &VariantParsed) -> (r: Result<(), Error>)
    ensures
        r is Ok <==> a.used_name@ != b.used_name@,
        r is Err ==> is_collision_error(r->Err_0, *a, *b),
{
    if a.used_name == b.used_name {
        let mut m = String::from_str("`");
        m.append(a.ident.as_str());
        m.append(
            "` cannot be coerced into a unique & idiomatic snake_case function name as it would collide with the `",
        );
        m.append(b.ident.as_str());
        m.append(
            "` variant of the same Enum. use the following attribute on this or the conflicting variant to resolve: `#[variantly(rename = \"some_other_name\")]`",
        );
        Result::Err(
            Error::Collision(
                CollisionError { first: a.ident.clone(), second: b.ident.clone(), message: m },
            ),
        )
    } else {
        Result::Ok(())
    }
}

/// Runs the pairwise naming validation over the whole variant list: every
/// unordered pair is examined exactly once, in traversal order (outer index
/// ascending, inner index ascending), and the first colliding pair is
/// reported at once.
pub fn validate_compare(variants: &Vec<VariantParsed>) -> (r: Result<(), Error>)
    ensures
        r is Ok <==> !has_collision(variants@),
        r is Err ==> exists|i: int, j: int|
            {
                &&& collides_at(variants@, i, j)
                &&& forall|p: int, q: int|
                    pair_before(p, q, i, j) ==> !collides_at(variants@, p, q)
                &&& is_collision_error(r->Err_0, variants@[i], variants@[j])
            },
{
    let n = variants.len();
    let mut i: usize = 0;
    while i < n
        invariant
            n == variants@.len(),
            0 <= i <= n,
            forall|p: int, q: int| p < i ==> !collides_at(variants@, p, q),
        decreases n - i,
    {
        let mut j: usize = i + 1;
        while j < n
            invariant
                n == variants@.len(),
                0 <= i < n,
                i < j <= n,
                forall|p: int, q: int| p < i ==> !collides_at(variants@, p, q),
                forall|q: int| q < j ==> !collides_at(variants@, i as int, q),
            decreases n - j,
        {
            match compare_used_names(&variants[i], &variants[j]) {
                Result::Ok(_) => {},
                Result::Err(e) => {
                    proof {
                        let gi = i as int;
                        let gj = j as int;
                        assert(collides_at(variants@, gi, gj));
                        assert forall|p: int, q: int|
                            pair_before(p, q, gi, gj) implies !collides_at(variants@, p, q) by {}
                    }
                    return Result::Err(e);
                },
            }
            j += 1;
        }
        i += 1;
    }
    Result::Ok(())
}

} // verus!
