//! Laws that relate several parts of the library: uniqueness of derived
//! names after validation, and combinator laws stated over the
//! hand-expanded families and proved from their contracts alone.

use vstd::prelude::*;

use crate::emit::{derive_emitted_with, FnDef, ImplBlock};
use crate::idents::lemma_derived_name_injective;
use crate::input::{collides_at, EnumDecl, VariantParsed};
use crate::shapes::TestEnum;

verus! {

/// Uniqueness carried through derivation: in an emitted block, the
/// validated distinctness of used names makes the derived names of any one
/// operation distinct across variants — here stated for the two functions
/// every variant receives.
pub proof fn lemma_emitted_names_distinct(
    item: EnumDecl,
    b: ImplBlock,
    ps: Seq<VariantParsed>,
    fam: Seq<Seq<FnDef>>,
    i: int,
    j: int,
)
    requires
        derive_emitted_with(item, b, ps, fam),
        0 <= i < fam.len(),
        0 <= j < fam.len(),
        i != j,
    ensures
        fam[i][0].name@ != fam[j][0].name@,
        fam[i][1].name@ != fam[j][1].name@,
{
    let lo = if i < j {
        i
    } else {
        j
    };
    let hi = if i < j {
        j
    } else {
        i
    };
    assert(!collides_at(ps, lo, hi));
    assert(ps[i].used_name@ != ps[j].used_name@);
    lemma_derived_name_injective("is"@, ps[i].used_name@, ps[j].used_name@);
    lemma_derived_name_injective("is_not"@, ps[i].used_name@, ps[j].used_name@);
}

/// Round trip through the `ok` conversion: a single-field variant converted
/// to an `Option` yields exactly the held value, and any other instance
/// yields `None`.
pub fn law_ok_round_trip(x: u128, w: TestEnum) -> (r: (Option<u128>, Option<u128>))
    requires
        !(w is Int),
    ensures
        r.0 == Some(x),
        r.1 is None,
{
    (TestEnum::Int(x).ok_int(), w.ok_int())
}

/// The `and`/`or` asymmetry: over two instances of the same valued variant,
/// `and` keeps the second operand's value while `or` keeps the first's.
pub fn law_and_or_asymmetry(a: u128, b: u128) -> (r: (u128, u128))
    ensures
        r.0 == b,
        r.1 == a,
{
    let first = TestEnum::Int(a).and_int(TestEnum::Int(b)).unwrap_int();
    let second = TestEnum::Int(a).or_int(TestEnum::Int(b)).unwrap_int();
    (first, second)
}

/// Laziness of `or_else`: on an instance that already matches, the closure
/// is never invoked — this function verifies without asking anything of `f`,
/// which could not be established if `f` could be called.
pub fn law_or_else_lazy<F: FnOnce() -> u128>(a: u128, f: F) -> (r: u128)
    ensures
        r == a,
{
    TestEnum::Int(a).or_else_int(f).unwrap_int()
}

/// Laziness of `ok_or_else`: on an instance that already matches, the error
/// closure is never invoked, and the held value comes back in `Ok`.
pub fn law_ok_or_else_lazy<F: FnOnce() -> u128>(x: u128, f: F) -> (r: Result<u128, u128>)
    ensures
        r == Ok::<u128, u128>(x),
{
    TestEnum::Int(x).ok_or_else_int(f)
}

} // verus!
