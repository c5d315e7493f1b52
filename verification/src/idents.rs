//! Synthesis of the identifiers that the emitted helper functions carry:
//! derived function names (`{operation}_{used_name}`), case folding of variant
//! names, and the throwaway placeholder binders used inside emitted patterns.

use vstd::prelude::*;
use vstd::string::StringExecFns;

verus! {

/// Characters that may open a function identifier.
pub open spec fn is_ident_start_char(c: char) -> bool {
    ||| 'a' as u32 <= c as u32 && c as u32 <= 'z' as u32
    ||| 'A' as u32 <= c as u32 && c as u32 <= 'Z' as u32
    ||| c == '_'
}

/// Characters that may continue a function identifier.
pub open spec fn is_ident_char(c: char) -> bool {
    ||| is_ident_start_char(c)
    ||| '0' as u32 <= c as u32 && c as u32 <= '9' as u32
}

/// A non-empty ASCII identifier: a valid function name.
pub open spec fn is_ident(s: Seq<char>) -> bool {
    &&& s.len() > 0
    &&& is_ident_start_char(s[0])
    &&& forall|i: int| 0 <= i < s.len() ==> is_ident_char(#[trigger] s[i])
}

/// The canonical derived function name for one operation of one variant:
/// the operation, a separator, and the variant's used name, verbatim.
pub open spec fn derived_name(operation: Seq<char>, used_name: Seq<char>) -> Seq<char> {
    operation + "_"@ + used_name
}

/// Decides [`is_ident`] for a string.
pub fn check_ident(s: &str) -> (r: bool)
    ensures
        r == is_ident(s@),
{
    let n = s.unicode_len();
    if n == 0 {
        return false;
    }
    let mut i: usize = 0;
    while i < n
        invariant
            n == s@.len(),
            0 < n,
            0 <= i <= n,
            i > 0 ==> is_ident_start_char(s@[0]),
            forall|j: int| 0 <= j < i ==> is_ident_char(#[trigger] s@[j]),
        decreases n - i,
    {
        let c = s.get_char(i);
        let u = c as u32;
        let start_ok = (97 <= u && u <= 122) || (65 <= u && u <= 90) || c == '_';
        let continue_ok = start_ok || (48 <= u && u <= 57);
        if i == 0 {
            if !start_ok {
                return false;
            }
        } else {
            if !continue_ok {
                return false;
            }
        }
        i += 1;
    }
    true
}

/// Builds the derived function name for one operation of one variant.
pub fn name_for(operation: &str, used_name: &str) -> (r: String)
    ensures
        r@ == derived_name(operation@, used_name@),
{
    let mut r = operation.to_owned();
    r.append("_");
    r.append(used_name);
    r
}

/// For one fixed operation, distinct used names derive distinct function
/// names: the validated uniqueness of used names carries over to every
/// function family that the emitter derives from them.
pub proof fn lemma_derived_name_injective(
    operation: Seq<char>,
    used_a: Seq<char>,
    used_b: Seq<char>,
)
    requires
        used_a != used_b,
    ensures
        derived_name(operation, used_a) != derived_name(operation, used_b),
{
    if derived_name(operation, used_a) == derived_name(operation, used_b) {
        let sep = operation.len() + "_"@.len();
        assert(derived_name(operation, used_a).len() == sep + used_a.len());
        assert(derived_name(operation, used_b).len() == sep + used_b.len());
        assert(used_a.len() == used_b.len());
        assert forall|i: int| 0 <= i < used_a.len() implies used_a[i] == used_b[i] by {
            assert(derived_name(operation, used_a)[sep + i] == used_a[i]);
            assert(derived_name(operation, used_b)[sep + i] == used_b[i]);
        }
        assert(used_a =~= used_b);
    }
}

/// What the case folder returns for a given sequence of characters.
pub uninterp spec fn snake_of(s: Seq<char>) -> Seq<char>;

/// Folds a variant's declared name to the `snake_case` form used in derived
/// function names.
///
/// Relies on inflector's `to_snake_case`: the result depends on the input
/// characters alone, and an empty input stays empty.
#[verifier::external_body]
pub(crate) fn snake_case(s: &str) -> (r: String)
    ensures
        r@ == snake_of(s@),
        s@.len() == 0 ==> r@.len() == 0,
{
    inflector::cases::snakecase::to_snake_case(s)
}

/// Lower-case hexadecimal digits: the alphabet of placeholder suffixes.
pub open spec fn is_hex_lower_char(c: char) -> bool {
    ||| '0' as u32 <= c as u32 && c as u32 <= '9' as u32
    ||| 'a' as u32 <= c as u32 && c as u32 <= 'f' as u32
}

/// The shape of a generated placeholder binder: the fixed prefix followed by
/// 32 lower-case hexadecimal digits.
pub open spec fn is_placeholder_ident(s: Seq<char>) -> bool {
    &&& s.len() == 38
    &&& s.subrange(0, 6) == "ident_"@
    &&& forall|i: int| 6 <= i < 38 ==> is_hex_lower_char(#[trigger] s[i])
}

/// Every placeholder binder is a valid identifier, so splicing one into an
/// emitted pattern can never break the emitted code.
pub proof fn lemma_placeholder_is_ident(s: Seq<char>)
    requires
        is_placeholder_ident(s),
    ensures
        is_ident(s),
{
    reveal_strlit("ident_");
    assert forall|i: int| 0 <= i < s.len() implies is_ident_char(#[trigger] s[i]) by {
        if i < 6 {
            assert(s[i] == s.subrange(0, 6)[i]);
        }
    }
    assert(s[0] == s.subrange(0, 6)[0]);
}

/// Generates one statistically-unique placeholder binder.
///
/// Relies on `uuid::Uuid::new_v4` and the `simple` formatter: the rendering
/// is exactly 32 lower-case hexadecimal digits, and each drawn value is
/// random, so nothing beyond the shape of the result is promised.
#[verifier::external_body]
pub fn unique_ident() -> (r: String)
    ensures
        is_placeholder_ident(r@),
{
    format!("ident_{}", uuid::Uuid::new_v4().simple())
}

/// Generates `count` placeholder binders, one per binding site of a pattern.
pub fn generate_idents(count: usize) -> (r: Vec<String>)
    ensures
        r@.len() == count as int,
        forall|i: int| 0 <= i < r@.len() ==> is_placeholder_ident(#[trigger] r@[i]@),
{
    let mut idents: Vec<String> = Vec::new();
    let mut k: usize = 0;
    while k < count
        invariant
            k <= count,
            idents@.len() == k as int,
            forall|i: int| 0 <= i < idents@.len() ==> is_placeholder_ident(#[trigger] idents@[i]@),
        decreases count - k,
    {
        idents.push(unique_ident());
        k += 1;
    }
    idents
}

} // verus!
