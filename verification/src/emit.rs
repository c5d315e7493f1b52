//! The function emitter: for each variant, the applicable operation family
//! is rendered as source-level function definitions, in declaration order,
//! and collected into one implementation block for the sum type.
//!
//! Empty-field and named-field variants receive the existence checks alone;
//! variants with unnamed fields receive the full combinator family.  Every
//! rendered definition is pinned exactly: its name is the derived name of its
//! operation, and its text is the template for that operation, spliced with
//! the enum name, the variant's names, its field types, and the placeholder
//! binders drawn for the variant.

use vstd::prelude::*;
use vstd::string::StringExecFns;

use crate::error::Error;
use crate::idents::{derived_name, generate_idents, is_placeholder_ident, name_for};
use crate::input::{
    all_variants_accepted, collides_at, has_collision, is_collision_error, is_rename_error,
    pair_before, parses_to, try_parse_variants, validate_compare, variant_accepted, EnumDecl,
    FieldShape, VariantParsed,
};

verus! {

/// One emitted function definition: its derived name, and its full source
/// text.
pub struct FnDef {
    /// The function's name.
    pub name: String,
    /// The function's definition, as source text.
    pub text: String,
}

/// One emitted implementation block: the sum type's identity and the ordered
/// emitted function definitions of all its variants.
pub struct ImplBlock {
    /// The sum type's name.
    pub enum_ident: String,
    /// The generic parameter list, spliced verbatim.
    pub generics: String,
    /// The `where` clause, spliced verbatim.
    pub where_clause: String,
    /// The emitted functions, in variant declaration order.
    pub functions: Vec<FnDef>,
}

/// The items of a group, separated by commas.
pub open spec fn tail_join(items: Seq<Seq<char>>) -> Seq<char>
    decreases items.len(),
{
    if items.len() == 0 {
        Seq::empty()
    } else {
        ", "@ + items[0] + tail_join(items.drop_first())
    }
}

/// The items of a group, comma-separated.
pub open spec fn comma_join(items: Seq<Seq<char>>) -> Seq<char> {
    if items.len() == 0 {
        Seq::empty()
    } else {
        items[0] + tail_join(items.drop_first())
    }
}

/// A comma-separated group in parentheses: the uniform rendering of both the
/// field-type tuple and the binder tuple (a one-item group degenerates to the
/// parenthesized bare item).
pub open spec fn paren_group(items: Seq<Seq<char>>) -> Seq<char> {
    "("@ + comma_join(items) + ")"@
}

/// The views of a list of strings.
pub open spec fn views_of(ss: Seq<String>) -> Seq<Seq<char>> {
    ss.map_values(|s: String| s@)
}

proof fn lemma_tail_join_push(items: Seq<Seq<char>>, x: Seq<char>)
    ensures
        tail_join(items.push(x)) == tail_join(items) + ", "@ + x,
    decreases items.len(),
{
    if items.len() == 0 {
        assert(items.push(x).drop_first() =~= Seq::<Seq<char>>::empty());
        assert(tail_join(Seq::<Seq<char>>::empty()) == Seq::<char>::empty());
        assert(tail_join(items) == Seq::<char>::empty());
        assert(items.push(x)[0] == x);
        assert(tail_join(items.push(x)) =~= tail_join(items) + ", "@ + x);
    } else {
        assert(items.push(x).drop_first() =~= items.drop_first().push(x));
        lemma_tail_join_push(items.drop_first(), x);
        assert(tail_join(items.push(x)) =~= tail_join(items) + ", "@ + x);
    }
}

/// Renders a comma-separated group in parentheses.
pub fn join_group(parts: &Vec<String>) -> (r: String)
    ensures
        r@ == paren_group(views_of(parts@)),
{
    let mut r = String::from_str("(");
    let mut i: usize = 0;
    while i < parts.len()
        invariant
            0 <= i <= parts@.len(),
            r@ == "("@ + comma_join(views_of(parts@).take(i as int)),
        decreases parts@.len() - i,
    {
        let p = &parts[i];
        if i == 0 {
            r.append(p.as_str());
            proof {
                let views = views_of(parts@);
                assert(views.take(1).drop_first() =~= Seq::<Seq<char>>::empty());
                assert(comma_join(views.take(1)) =~= views[0]);
            }
        } else {
            r.append(", ");
            r.append(p.as_str());
            proof {
                let views = views_of(parts@);
                let s = views.take(i as int);
                let x = views[i as int];
                assert(views.take(i as int + 1) =~= s.push(x));
                assert(s.push(x).drop_first() =~= s.drop_first().push(x));
                lemma_tail_join_push(s.drop_first(), x);
                assert(s.push(x)[0] == s[0]);
                assert(comma_join(s.push(x)) =~= comma_join(s) + ", "@ + x);
            }
        }
        i += 1;
    }
    proof {
        assert(views_of(parts@).take(parts@.len() as int) =~= views_of(parts@));
    }
    r.append(")");
    r
}

/// The pattern (and constructor) text of a variant over the given binders:
/// `Enum::Variant(b0, b1)`.
pub open spec fn pattern_text(e: Seq<char>, v: Seq<char>, binders: Seq<Seq<char>>) -> Seq<char> {
    e + "::"@ + v + paren_group(binders)
}

/// Renders the pattern text of a variant over the given binders.
pub fn build_pattern(e: &str, v: &str, binders: &Vec<String>) -> (r: String)
    ensures
        r@ == pattern_text(e@, v@, views_of(binders@)),
{
    let mut r = e.to_owned();
    r.append("::");
    r.append(v);
    let group = join_group(binders);
    r.append(group.as_str());
    r
}

/// How a variant's fields are matched when their values are ignored.
pub open spec fn ignore_text(shape: FieldShape) -> Seq<char> {
    match shape {
        FieldShape::Empty => ""@,
        FieldShape::SingleUnnamed(_) => "(..)"@,
        FieldShape::MultiUnnamed(_) => "(..)"@,
        FieldShape::Named => " { .. }"@,
    }
}

/// Whether a variant holds unnamed fields and so receives the full
/// combinator family.
pub open spec fn is_tuple_shape(shape: FieldShape) -> bool {
    shape is SingleUnnamed || shape is MultiUnnamed
}

/// The field types a tuple-shaped variant holds, in order.
pub open spec fn tuple_tys(shape: FieldShape) -> Seq<Seq<char>> {
    match shape {
        FieldShape::SingleUnnamed(t) => seq![t@],
        FieldShape::MultiUnnamed(ts) => views_of(ts@),
        _ => Seq::empty(),
    }
}

/// Whether a definition carries the derived name of `op` and the given text.
pub open spec fn def_named(d: FnDef, op: Seq<char>, used: Seq<char>, text: Seq<char>) -> bool {
    d.name@ == derived_name(op, used) && d.text@ == text
}

// The per-operation templates.  Parameters: `e` the enum name, `v` the
// variant's declared name, `u` its used name, `ig` the ignore pattern,
// `tyg` the parenthesized field-type group, `pat` the variant pattern over
// the drawn binders, `varg` the parenthesized binder group.

pub open spec fn is_fn_text(e: Seq<char>, v: Seq<char>, u: Seq<char>, ig: Seq<char>) -> Seq<char> {
    "    pub fn is_"@ + u + "(&self) -> bool {\n        match self {\n            "@ + e + "::"@ + v
        + ig + " => true,\n            _ => false,\n        }\n    }\n\n"@
}

pub open spec fn is_not_fn_text(u: Seq<char>) -> Seq<char> {
    "    pub fn is_not_"@ + u + "(&self) -> bool {\n        !self.is_"@ + u + "()\n    }\n\n"@
}

pub open spec fn ok_fn_text(u: Seq<char>, tyg: Seq<char>, pat: Seq<char>, varg: Seq<char>) -> Seq<
    char,
> {
    "    pub fn ok_"@ + u + "(self) -> Option<"@ + tyg
        + "> {\n        match self {\n            "@ + pat + " => Some("@ + varg
        + "),\n            _ => None,\n        }\n    }\n\n"@
}

pub open spec fn ok_or_fn_text(u: Seq<char>, tyg: Seq<char>) -> Seq<char> {
    "    pub fn ok_or_"@ + u + "<E>(self, or: E) -> Result<"@ + tyg
        + ", E> {\n        self.ok_or_else_"@ + u + "(|| or)\n    }\n\n"@
}

pub open spec fn ok_or_else_fn_text(
    u: Seq<char>,
    tyg: Seq<char>,
    pat: Seq<char>,
    varg: Seq<char>,
) -> Seq<char> {
    "    pub fn ok_or_else_"@ + u + "<E, F: FnOnce() -> E>(self, or_else: F) -> Result<"@ + tyg
        + ", E> {\n        match self {\n            "@ + pat + " => Ok("@ + varg
        + "),\n            _ => Err(or_else()),\n        }\n    }\n\n"@
}

pub open spec fn unwrap_fn_text(u: Seq<char>, tyg: Seq<char>) -> Seq<char> {
    "    pub fn unwrap_"@ + u + "(self) -> "@ + tyg + " {\n        self.unwrap_or_else_"@ + u
        + "(|| panic!())\n    }\n\n"@
}

pub open spec fn unwrap_or_fn_text(u: Seq<char>, tyg: Seq<char>) -> Seq<char> {
    "    pub fn unwrap_or_"@ + u + "(self, or: "@ + tyg + ") -> "@ + tyg
        + " {\n        self.unwrap_or_else_"@ + u + "(|| or)\n    }\n\n"@
}

pub open spec fn unwrap_or_else_fn_text(
    u: Seq<char>,
    tyg: Seq<char>,
    pat: Seq<char>,
    varg: Seq<char>,
) -> Seq<char> {
    "    pub fn unwrap_or_else_"@ + u + "<F: FnOnce() -> "@ + tyg + ">(self, or_else: F) -> "@
        + tyg + " {\n        match self {\n            "@ + pat + " => "@ + varg
        + ",\n            _ => or_else(),\n        }\n    }\n\n"@
}

pub open spec fn expect_fn_text(u: Seq<char>, tyg: Seq<char>) -> Seq<char> {
    "    pub fn expect_"@ + u + "(self, msg: &str) -> "@ + tyg
        + " {\n        self.unwrap_or_else_"@ + u + "(|| panic!(\"{}\", msg))\n    }\n\n"@
}

pub open spec fn and_fn_text(e: Seq<char>, v: Seq<char>, u: Seq<char>) -> Seq<char> {
    "    pub fn and_"@ + u + "(self, and: Self) -> Self {\n        match (&self, &and) {\n            ("@
        + e + "::"@ + v + "(..), "@ + e + "::"@ + v
        + "(..)) => and,\n            _ => self,\n        }\n    }\n\n"@
}

pub open spec fn and_then_fn_text(
    u: Seq<char>,
    tyg: Seq<char>,
    pat: Seq<char>,
    varg: Seq<char>,
) -> Seq<char> {
    "    pub fn and_then_"@ + u + "<F: FnOnce("@ + tyg + ") -> "@ + tyg
        + ">(self, and_then: F) -> Self {\n        match self {\n            "@ + pat
        + " => {\n                let "@ + varg + " = and_then("@ + varg
        + ");\n                "@ + pat
        + "\n            },\n            _ => self,\n        }\n    }\n\n"@
}

pub open spec fn or_fn_text(e: Seq<char>, v: Seq<char>, u: Seq<char>) -> Seq<char> {
    "    pub fn or_"@ + u + "(self, or: Self) -> Self {\n        match &self {\n            "@ + e
        + "::"@ + v + "(..) => self,\n            _ => or,\n        }\n    }\n\n"@
}

pub open spec fn or_else_fn_text(
    u: Seq<char>,
    tyg: Seq<char>,
    pat: Seq<char>,
    varg: Seq<char>,
) -> Seq<char> {
    "    pub fn or_else_"@ + u + "<F: FnOnce() -> "@ + tyg
        + ">(self, or_else: F) -> Self {\n        match self {\n            "@ + pat + " => "@
        + pat + ",\n            _ => {\n                let "@ + varg
        + " = or_else();\n                "@ + pat
        + "\n            },\n        }\n    }\n\n"@
}

pub open spec fn replace_fn_text(
    e: Seq<char>,
    v: Seq<char>,
    u: Seq<char>,
    tyg: Seq<char>,
    pat: Seq<char>,
    varg: Seq<char>,
) -> Seq<char> {
    "    pub fn replace_"@ + u + "(&mut self, "@ + varg + ": "@ + tyg
        + ") -> Self {\n        match self {\n            "@ + e + "::"@ + v
        + "(..) => core::mem::replace(self, "@ + pat + "),\n            _ => "@ + pat
        + ",\n        }\n    }\n\n"@
}

fn render_is_fn(e: &str, v: &str, u: &str, ig: &str) -> (d: FnDef)
    ensures
        def_named(d, "is"@, u@, is_fn_text(e@, v@, u@, ig@)),
{
    let name = name_for("is", u);
    let mut t = String::from_str("    pub fn is_");
    t.append(u);
    t.append("(&self) -> bool {\n        match self {\n            ");
    t.append(e);
    t.append("::");
    t.append(v);
    t.append(ig);
    t.append(" => true,\n            _ => false,\n        }\n    }\n\n");
    FnDef { name, text: t }
}

fn render_is_not_fn(u: &str) -> (d: FnDef)
    ensures
        def_named(d, "is_not"@, u@, is_not_fn_text(u@)),
{
    let name = name_for("is_not", u);
    let mut t = String::from_str("    pub fn is_not_");
    t.append(u);
    t.append("(&self) -> bool {\n        !self.is_");
    t.append(u);
    t.append("()\n    }\n\n");
    FnDef { name, text: t }
}

fn render_ok_fn(u: &str, tyg: &str, pat: &str, varg: &str) -> (d: FnDef)
    ensures
        def_named(d, "ok"@, u@, ok_fn_text(u@, tyg@, pat@, varg@)),
{
    let name = name_for("ok", u);
    let mut t = String::from_str("    pub fn ok_");
    t.append(u);
    t.append("(self) -> Option<");
    t.append(tyg);
    t.append("> {\n        match self {\n            ");
    t.append(pat);
    t.append(" => Some(");
    t.append(varg);
    t.append("),\n            _ => None,\n        }\n    }\n\n");
    FnDef { name, text: t }
}

fn render_ok_or_fn(u: &str, tyg: &str) -> (d: FnDef)
    ensures
        def_named(d, "ok_or"@, u@, ok_or_fn_text(u@, tyg@)),
{
    let name = name_for("ok_or", u);
    let mut t = String::from_str("    pub fn ok_or_");
    t.append(u);
    t.append("<E>(self, or: E) -> Result<");
    t.append(tyg);
    t.append(", E> {\n        self.ok_or_else_");
    t.append(u);
    t.append("(|| or)\n    }\n\n");
    FnDef { name, text: t }
}

fn render_ok_or_else_fn(u: &str, tyg: &str, pat: &str, varg: &str) -> (d: FnDef)
    ensures
        def_named(d, "ok_or_else"@, u@, ok_or_else_fn_text(u@, tyg@, pat@, varg@)),
{
    let name = name_for("ok_or_else", u);
    let mut t = String::from_str("    pub fn ok_or_else_");
    t.append(u);
    t.append("<E, F: FnOnce() -> E>(self, or_else: F) -> Result<");
    t.append(tyg);
    t.append(", E> {\n        match self {\n            ");
    t.append(pat);
    t.append(" => Ok(");
    t.append(varg);
    t.append("),\n            _ => Err(or_else()),\n        }\n    }\n\n");
    FnDef { name, text: t }
}

fn render_unwrap_fn(u: &str, tyg: &str) -> (d: FnDef)
    ensures
        def_named(d, "unwrap"@, u@, unwrap_fn_text(u@, tyg@)),
{
    let name = name_for("unwrap", u);
    let mut t = String::from_str("    pub fn unwrap_");
    t.append(u);
    t.append("(self) -> ");
    t.append(tyg);
    t.append(" {\n        self.unwrap_or_else_");
    t.append(u);
    t.append("(|| panic!())\n    }\n\n");
    FnDef { name, text: t }
}

fn render_unwrap_or_fn(u: &str, tyg: &str) -> (d: FnDef)
    ensures
        def_named(d, "unwrap_or"@, u@, unwrap_or_fn_text(u@, tyg@)),
{
    let name = name_for("unwrap_or", u);
    let mut t = String::from_str("    pub fn unwrap_or_");
    t.append(u);
    t.append("(self, or: ");
    t.append(tyg);
    t.append(") -> ");
    t.append(tyg);
    t.append(" {\n        self.unwrap_or_else_");
    t.append(u);
    t.append("(|| or)\n    }\n\n");
    FnDef { name, text: t }
}

fn render_unwrap_or_else_fn(u: &str, tyg: &str, pat: &str, varg: &str) -> (d: FnDef)
    ensures
        def_named(d, "unwrap_or_else"@, u@, unwrap_or_else_fn_text(u@, tyg@, pat@, varg@)),
{
    let name = name_for("unwrap_or_else", u);
    let mut t = String::from_str("    pub fn unwrap_or_else_");
    t.append(u);
    t.append("<F: FnOnce() -> ");
    t.append(tyg);
    t.append(">(self, or_else: F) -> ");
    t.append(tyg);
    t.append(" {\n        match self {\n            ");
    t.append(pat);
    t.append(" => ");
    t.append(varg);
    t.append(",\n            _ => or_else(),\n        }\n    }\n\n");
    FnDef { name, text: t }
}

fn render_expect_fn(u: &str, tyg: &str) -> (d: FnDef)
    ensures
        def_named(d, "expect"@, u@, expect_fn_text(u@, tyg@)),
{
    let name = name_for("expect", u);
    let mut t = String::from_str("    pub fn expect_");
    t.append(u);
    t.append("(self, msg: &str) -> ");
    t.append(tyg);
    t.append(" {\n        self.unwrap_or_else_");
    t.append(u);
    t.append("(|| panic!(\"{}\", msg))\n    }\n\n");
    FnDef { name, text: t }
}

fn render_and_fn(e: &str, v: &str, u: &str) -> (d: FnDef)
    ensures
        def_named(d, "and"@, u@, and_fn_text(e@, v@, u@)),
{
    let name = name_for("and", u);
    let mut t = String::from_str("    pub fn and_");
    t.append(u);
    t.append("(self, and: Self) -> Self {\n        match (&self, &and) {\n            (");
    t.append(e);
    t.append("::");
    t.append(v);
    t.append("(..), ");
    t.append(e);
    t.append("::");
    t.append(v);
    t.append("(..)) => and,\n            _ => self,\n        }\n    }\n\n");
    FnDef { name, text: t }
}

fn render_and_then_fn(u: &str, tyg: &str, pat: &str, varg: &str) -> (d: FnDef)
    ensures
        def_named(d, "and_then"@, u@, and_then_fn_text(u@, tyg@, pat@, varg@)),
{
    let name = name_for("and_then", u);
    let mut t = String::from_str("    pub fn and_then_");
    t.append(u);
    t.append("<F: FnOnce(");
    t.append(tyg);
    t.append(") -> ");
    t.append(tyg);
    t.append(">(self, and_then: F) -> Self {\n        match self {\n            ");
    t.append(pat);
    t.append(" => {\n                let ");
    t.append(varg);
    t.append(" = and_then(");
    t.append(varg);
    t.append(");\n                ");
    t.append(pat);
    t.append("\n            },\n            _ => self,\n        }\n    }\n\n");
    FnDef { name, text: t }
}

fn render_or_fn(e: &str, v: &str, u: &str) -> (d: FnDef)
    ensures
        def_named(d, "or"@, u@, or_fn_text(e@, v@, u@)),
{
    let name = name_for("or", u);
    let mut t = String::from_str("    pub fn or_");
    t.append(u);
    t.append("(self, or: Self) -> Self {\n        match &self {\n            ");
    t.append(e);
    t.append("::");
    t.append(v);
    t.append("(..) => self,\n            _ => or,\n        }\n    }\n\n");
    FnDef { name, text: t }
}

fn render_or_else_fn(u: &str, tyg: &str, pat: &str, varg: &str) -> (d: FnDef)
    ensures
        def_named(d, "or_else"@, u@, or_else_fn_text(u@, tyg@, pat@, varg@)),
{
    let name = name_for("or_else", u);
    let mut t = String::from_str("    pub fn or_else_");
    t.append(u);
    t.append("<F: FnOnce() -> ");
    t.append(tyg);
    t.append(">(self, or_else: F) -> Self {\n        match self {\n            ");
    t.append(pat);
    t.append(" => ");
    t.append(pat);
    t.append(",\n            _ => {\n                let ");
    t.append(varg);
    t.append(" = or_else();\n                ");
    t.append(pat);
    t.append("\n            },\n        }\n    }\n\n");
    FnDef { name, text: t }
}

fn render_replace_fn(e: &str, v: &str, u: &str, tyg: &str, pat: &str, varg: &str) -> (d: FnDef)
    ensures
        def_named(d, "replace"@, u@, replace_fn_text(e@, v@, u@, tyg@, pat@, varg@)),
{
    let name = name_for("replace", u);
    let mut t = String::from_str("    pub fn replace_");
    t.append(u);
    t.append("(&mut self, ");
    t.append(varg);
    t.append(": ");
    t.append(tyg);
    t.append(") -> Self {\n        match self {\n            ");
    t.append(e);
    t.append("::");
    t.append(v);
    t.append("(..) => core::mem::replace(self, ");
    t.append(pat);
    t.append("),\n            _ => ");
    t.append(pat);
    t.append(",\n        }\n    }\n\n");
    FnDef { name, text: t }
}

/// The combinator family of one tuple-shaped variant, over the given drawn
/// binders: twelve definitions, each with its derived name and its template
/// text.
pub open spec fn tuple_defs_with(
    e: Seq<char>,
    v: Seq<char>,
    u: Seq<char>,
    tys: Seq<Seq<char>>,
    binders: Seq<Seq<char>>,
    defs: Seq<FnDef>,
) -> bool {
    let tyg = paren_group(tys);
    let varg = paren_group(binders);
    let pat = pattern_text(e, v, binders);
    &&& binders.len() == tys.len()
    &&& (forall|k: int| 0 <= k < binders.len() ==> is_placeholder_ident(#[trigger] binders[k]))
    &&& defs.len() == 12
    &&& def_named(defs[0], "ok"@, u, ok_fn_text(u, tyg, pat, varg))
    &&& def_named(defs[1], "ok_or"@, u, ok_or_fn_text(u, tyg))
    &&& def_named(defs[2], "ok_or_else"@, u, ok_or_else_fn_text(u, tyg, pat, varg))
    &&& def_named(defs[3], "unwrap"@, u, unwrap_fn_text(u, tyg))
    &&& def_named(defs[4], "unwrap_or"@, u, unwrap_or_fn_text(u, tyg))
    &&& def_named(defs[5], "unwrap_or_else"@, u, unwrap_or_else_fn_text(u, tyg, pat, varg))
    &&& def_named(defs[6], "expect"@, u, expect_fn_text(u, tyg))
    &&& def_named(defs[7], "and"@, u, and_fn_text(e, v, u))
    &&& def_named(defs[8], "and_then"@, u, and_then_fn_text(u, tyg, pat, varg))
    &&& def_named(defs[9], "or"@, u, or_fn_text(e, v, u))
    &&& def_named(defs[10], "or_else"@, u, or_else_fn_text(u, tyg, pat, varg))
    &&& def_named(defs[11], "replace"@, u, replace_fn_text(e, v, u, tyg, pat, varg))
}

/// The combinator family of one tuple-shaped variant, for some drawn binders.
pub open spec fn tuple_defs_ok(
    e: Seq<char>,
    v: Seq<char>,
    u: Seq<char>,
    tys: Seq<Seq<char>>,
    defs: Seq<FnDef>,
) -> bool {
    exists|binders: Seq<Seq<char>>| tuple_defs_with(e, v, u, tys, binders, defs)
}

/// The full emitted definition list of one variant: the existence checks for
/// every shape, and nothing else unless the variant holds unnamed fields, in
/// which case the twelve-function combinator family follows.
pub open spec fn variant_defs_ok(e: Seq<char>, p: VariantParsed, defs: Seq<FnDef>) -> bool {
    &&& defs.len() == if is_tuple_shape(p.shape) {
        14int
    } else {
        2int
    }
    &&& def_named(
        defs[0],
        "is"@,
        p.used_name@,
        is_fn_text(e, p.ident@, p.used_name@, ignore_text(p.shape)),
    )
    &&& def_named(defs[1], "is_not"@, p.used_name@, is_not_fn_text(p.used_name@))
    &&& is_tuple_shape(p.shape) ==> tuple_defs_ok(
        e,
        p.ident@,
        p.used_name@,
        tuple_tys(p.shape),
        defs.skip(2),
    )
}

/// Emits the combinator family of one tuple-shaped variant, appending its
/// twelve definitions to the accumulator: a fresh set of placeholder binders
/// is drawn for the variant's binding sites, and every definition's name and
/// text is pinned by [`tuple_defs_ok`].
pub fn handle_tuple(variant: &VariantParsed, functions: &mut Vec<FnDef>, enum_name: &str)
    requires
        is_tuple_shape(variant.shape),
    ensures
        final(functions)@.len() == old(functions)@.len() + 12,
        final(functions)@.subrange(0, old(functions)@.len() as int) == old(functions)@,
        tuple_defs_ok(
            enum_name@,
            variant.ident@,
            variant.used_name@,
            tuple_tys(variant.shape),
            final(functions)@.skip(old(functions)@.len() as int),
        ),
{
    let tys: Vec<String> = match &variant.shape {
        FieldShape::SingleUnnamed(t) => {
            let mut one: Vec<String> = Vec::new();
            one.push(t.clone());
            one
        },
        FieldShape::MultiUnnamed(ts) => {
            let mut all: Vec<String> = Vec::new();
            let mut i: usize = 0;
            while i < ts.len()
                invariant
                    0 <= i <= ts@.len(),
                    all@.len() == i as int,
                    forall|k: int| 0 <= k < i ==> #[trigger] all@[k]@ == ts@[k]@,
                decreases ts@.len() - i,
            {
                let t = &ts[i];
                all.push(t.clone());
                i += 1;
            }
            all
        },
        _ => {
            proof {
                assert(false);
            }
            Vec::new()
        },
    };
    proof {
        assert(views_of(tys@) =~= tuple_tys(variant.shape));
    }
    let binders = generate_idents(tys.len());
    let tyg = join_group(&tys);
    let varg = join_group(&binders);
    let pat = build_pattern(enum_name, variant.ident.as_str(), &binders);
    let u = variant.used_name.as_str();
    let d0 = render_ok_fn(u, tyg.as_str(), pat.as_str(), varg.as_str());
    let d1 = render_ok_or_fn(u, tyg.as_str());
    let d2 = render_ok_or_else_fn(u, tyg.as_str(), pat.as_str(), varg.as_str());
    let d3 = render_unwrap_fn(u, tyg.as_str());
    let d4 = render_unwrap_or_fn(u, tyg.as_str());
    let d5 = render_unwrap_or_else_fn(u, tyg.as_str(), pat.as_str(), varg.as_str());
    let d6 = render_expect_fn(u, tyg.as_str());
    let d7 = render_and_fn(enum_name, variant.ident.as_str(), u);
    let d8 = render_and_then_fn(u, tyg.as_str(), pat.as_str(), varg.as_str());
    let d9 = render_or_fn(enum_name, variant.ident.as_str(), u);
    let d10 = render_or_else_fn(u, tyg.as_str(), pat.as_str(), varg.as_str());
    let d11 = render_replace_fn(
        enum_name,
        variant.ident.as_str(),
        u,
        tyg.as_str(),
        pat.as_str(),
        varg.as_str(),
    );
    functions.push(d0);
    functions.push(d1);
    functions.push(d2);
    functions.push(d3);
    functions.push(d4);
    functions.push(d5);
    functions.push(d6);
    functions.push(d7);
    functions.push(d8);
    functions.push(d9);
    functions.push(d10);
    functions.push(d11);
    proof {
        let base = old(functions)@.len() as int;
        let added = functions@.skip(base);
        assert(functions@.subrange(0, base) =~= old(functions)@);
        assert(added =~= seq![d0, d1, d2, d3, d4, d5, d6, d7, d8, d9, d10, d11]);
        let bviews = views_of(binders@);
        assert forall|k: int| 0 <= k < bviews.len() implies is_placeholder_ident(
            #[trigger] bviews[k],
        ) by {
            assert(bviews[k] == binders@[k]@);
        }
        assert(tuple_defs_with(
            enum_name@,
            variant.ident@,
            variant.used_name@,
            tuple_tys(variant.shape),
            bviews,
            added,
        ));
    }
}

/// The concatenated text of a definition list, in order.
pub open spec fn defs_text(defs: Seq<FnDef>) -> Seq<char>
    decreases defs.len(),
{
    if defs.len() == 0 {
        Seq::empty()
    } else {
        defs[0].text@ + defs_text(defs.drop_first())
    }
}

proof fn lemma_defs_text_push(defs: Seq<FnDef>, d: FnDef)
    ensures
        defs_text(defs.push(d)) == defs_text(defs) + d.text@,
    decreases defs.len(),
{
    if defs.len() == 0 {
        assert(defs.push(d).drop_first() =~= Seq::<FnDef>::empty());
        assert(defs_text(Seq::<FnDef>::empty()) == Seq::<char>::empty());
        assert(defs.push(d)[0] == d);
        assert(defs_text(defs.push(d)) =~= defs_text(defs) + d.text@);
    } else {
        assert(defs.push(d).drop_first() =~= defs.drop_first().push(d));
        lemma_defs_text_push(defs.drop_first(), d);
        assert(defs.push(d)[0] == defs[0]);
        assert(defs_text(defs.push(d)) =~= defs_text(defs) + d.text@);
    }
}

/// The header of the emitted implementation block, honouring the sum type's
/// generics and `where` clause.
pub open spec fn impl_header_text(
    name: Seq<char>,
    generics: Seq<char>,
    where_clause: Seq<char>,
) -> Seq<char> {
    if where_clause.len() == 0 {
        "impl"@ + generics + " "@ + name + generics + " {\n"@
    } else {
        "impl"@ + generics + " "@ + name + generics + " "@ + where_clause + " {\n"@
    }
}

/// The full text of an emitted implementation block.
pub open spec fn impl_text(b: ImplBlock) -> Seq<char> {
    impl_header_text(b.enum_ident@, b.generics@, b.where_clause@) + defs_text(b.functions@)
        + "}\n"@
}

impl ImplBlock {
    /// Renders the implementation block as source text: the header, the
    /// ordered concatenation of every emitted definition, and the closing
    /// brace.
    pub fn render(&self) -> (r: String)
        ensures
            r@ == impl_text(*self),
    {
        let mut r = String::from_str("impl");
        r.append(self.generics.as_str());
        r.append(" ");
        r.append(self.enum_ident.as_str());
        r.append(self.generics.as_str());
        if !self.where_clause.as_str().is_empty() {
            r.append(" ");
            r.append(self.where_clause.as_str());
        }
        r.append(" {\n");
        assert(r@ == impl_header_text(self.enum_ident@, self.generics@, self.where_clause@));
        let ghost header = r@;
        let mut i: usize = 0;
        while i < self.functions.len()
            invariant
                0 <= i <= self.functions@.len(),
                r@ == header + defs_text(self.functions@.take(i as int)),
            decreases self.functions@.len() - i,
        {
            let d = &self.functions[i];
            r.append(d.text.as_str());
            proof {
                let taken = self.functions@.take(i as int);
                assert(self.functions@.take(i as int + 1) =~= taken.push(
                    self.functions@[i as int],
                ));
                lemma_defs_text_push(taken, self.functions@[i as int]);
            }
            i += 1;
        }
        proof {
            assert(self.functions@.take(self.functions@.len() as int) =~= self.functions@);
        }
        r.append("}\n");
        r
    }
}

/// The ordered concatenation of per-variant definition lists.
pub open spec fn concat_defs(fam: Seq<Seq<FnDef>>) -> Seq<FnDef>
    decreases fam.len(),
{
    if fam.len() == 0 {
        Seq::empty()
    } else {
        fam[0] + concat_defs(fam.drop_first())
    }
}

proof fn lemma_concat_defs_push(fam: Seq<Seq<FnDef>>, defs: Seq<FnDef>)
    ensures
        concat_defs(fam.push(defs)) == concat_defs(fam) + defs,
    decreases fam.len(),
{
    if fam.len() == 0 {
        assert(fam.push(defs).drop_first() =~= Seq::<Seq<FnDef>>::empty());
        assert(concat_defs(Seq::<Seq<FnDef>>::empty()) == Seq::<FnDef>::empty());
        assert(fam.push(defs)[0] == defs);
        assert(concat_defs(fam.push(defs)) =~= concat_defs(fam) + defs);
    } else {
        assert(fam.push(defs).drop_first() =~= fam.drop_first().push(defs));
        lemma_concat_defs_push(fam.drop_first(), defs);
        assert(fam.push(defs)[0] == fam[0]);
        assert(concat_defs(fam.push(defs)) =~= concat_defs(fam) + defs);
    }
}

/// A failed resolution of some raw variant: the first variant whose rename
/// annotation cannot be used is reported.
pub open spec fn derive_parse_err(item: EnumDecl, e: Error) -> bool {
    exists|i: int|
        {
            &&& 0 <= i < item.variants@.len()
            &&& !variant_accepted(#[trigger] item.variants@[i])
            &&& forall|j: int| 0 <= j < i ==> variant_accepted(#[trigger] item.variants@[j])
            &&& is_rename_error(e, item.variants@[i])
        }
}

/// Evidence of a naming collision: the given resolved variants belong to the
/// declaration, some pair of them collides, and the error reports the first
/// such pair in traversal order.
pub open spec fn collision_evidence(item: EnumDecl, e: Error, ps: Seq<VariantParsed>) -> bool {
    &&& ps.len() == item.variants@.len()
    &&& (forall|i: int| 0 <= i < ps.len() ==> parses_to(item.variants@[i], #[trigger] ps[i]))
    &&& exists|i: int, j: int|
        {
            &&& collides_at(ps, i, j)
            &&& (forall|p: int, q: int| pair_before(p, q, i, j) ==> !collides_at(ps, p, q))
            &&& is_collision_error(e, ps[i], ps[j])
        }
}

/// A naming collision among the resolved variants: the first colliding pair
/// in traversal order is reported, and nothing is emitted.
pub open spec fn derive_collision_err(item: EnumDecl, e: Error) -> bool {
    &&& all_variants_accepted(item.variants@)
    &&& exists|ps: Seq<VariantParsed>| collision_evidence(item, e, ps)
}

/// A successful emission for the given resolved variants and per-variant
/// definition lists.
pub open spec fn derive_emitted_with(
    item: EnumDecl,
    b: ImplBlock,
    ps: Seq<VariantParsed>,
    fam: Seq<Seq<FnDef>>,
) -> bool {
    &&& ps.len() == item.variants@.len()
    &&& (forall|i: int| 0 <= i < ps.len() ==> parses_to(item.variants@[i], #[trigger] ps[i]))
    &&& !has_collision(ps)
    &&& fam.len() == ps.len()
    &&& (forall|i: int|
        0 <= i < fam.len() ==> variant_defs_ok(item.ident@, ps[i], #[trigger] fam[i]))
    &&& b.functions@ == concat_defs(fam)
}

/// A successful emission: every variant resolved, no pair of used names
/// collides, and the block holds exactly the per-variant definition lists of
/// [`variant_defs_ok`], concatenated in declaration order.
pub open spec fn derive_emitted(item: EnumDecl, b: ImplBlock) -> bool {
    &&& b.enum_ident@ == item.ident@
    &&& b.generics@ == item.generics@
    &&& b.where_clause@ == item.where_clause@
    &&& exists|ps: Seq<VariantParsed>, fam: Seq<Seq<FnDef>>| derive_emitted_with(item, b, ps, fam)
}

/// The whole generation pass for one sum-type declaration: build the variant
/// model, validate every unordered pair of used names, and only then emit,
/// variant by variant in declaration order.  On any failure nothing is
/// emitted and the one reportable error is returned.
#[verifier::loop_isolation(false)]
pub fn derive_variantly_fns(item_enum: &EnumDecl) -> (r: Result<ImplBlock, Error>)
    ensures
        match r {
            Result::Ok(b) => derive_emitted(*item_enum, b),
            Result::Err(e) => derive_parse_err(*item_enum, e) || derive_collision_err(
                *item_enum,
                e,
            ),
        },
{
    let variants = match try_parse_variants(item_enum) {
        Result::Ok(v) => v,
        Result::Err(e) => {
            return Result::Err(e);
        },
    };
    match validate_compare(&variants) {
        Result::Ok(_) => {},
        Result::Err(e) => {
            proof {
                assert(collision_evidence(*item_enum, e, variants@));
                assert(derive_collision_err(*item_enum, e));
            }
            return Result::Err(e);
        },
    }
    let mut functions: Vec<FnDef> = Vec::new();
    let ghost mut fam: Seq<Seq<FnDef>> = Seq::empty();
    let mut i: usize = 0;
    while i < variants.len()
        invariant
            0 <= i <= variants@.len(),
            fam.len() == i as int,
            forall|k: int|
                0 <= k < i ==> variant_defs_ok(item_enum.ident@, variants@[k], #[trigger] fam[k]),
            functions@ == concat_defs(fam),
        decreases variants@.len() - i,
    {
        let ghost base = functions@.len() as int;
        let ghost fam0 = fam;
        let v = &variants[i];
        let ig: &str = match &v.shape {
            FieldShape::Empty => "",
            FieldShape::SingleUnnamed(_) => "(..)",
            FieldShape::MultiUnnamed(_) => "(..)",
            FieldShape::Named => " { .. }",
        };
        let d_is = render_is_fn(item_enum.ident.as_str(), v.ident.as_str(), v.used_name.as_str(), ig);
        functions.push(d_is);
        let d_is_not = render_is_not_fn(v.used_name.as_str());
        functions.push(d_is_not);
        let is_tuple = match &v.shape {
            FieldShape::SingleUnnamed(_) => true,
            FieldShape::MultiUnnamed(_) => true,
            _ => false,
        };
        let ghost s2 = functions@;
        if is_tuple {
            handle_tuple(v, &mut functions, item_enum.ident.as_str());
        }
        proof {
            let defs = functions@.skip(base);
            assert(s2[base] == d_is);
            assert(s2[base + 1] == d_is_not);
            if is_tuple_shape(v.shape) {
                assert(functions@.subrange(0, base + 2) == s2);
                assert(functions@[base] == s2[base]);
                assert(functions@[base + 1] == s2[base + 1]);
                assert(defs.skip(2) =~= functions@.skip(base + 2));
            }
            assert(functions@.subrange(0, base) =~= concat_defs(fam0));
            assert(defs[0] == functions@[base]);
            assert(defs[1] == functions@[base + 1]);
            assert(variant_defs_ok(item_enum.ident@, variants@[i as int], defs));
            fam = fam0.push(defs);
            lemma_concat_defs_push(fam0, defs);
            assert(functions@ =~= functions@.subrange(0, base) + functions@.skip(base));
            assert(functions@ == concat_defs(fam));
        }
        i += 1;
    }
    let b = ImplBlock {
        enum_ident: item_enum.ident.clone(),
        generics: item_enum.generics.clone(),
        where_clause: item_enum.where_clause.clone(),
        functions,
    };
    proof {
        assert(derive_emitted_with(*item_enum, b, variants@, fam));
        assert(derive_emitted(*item_enum, b));
    }
    Result::Ok(b)
}

} // verus!
