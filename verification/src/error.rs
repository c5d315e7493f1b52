//! The one reportable error value of the generation pass.
//!
//! Two failure sources feed it: the structured input could not be resolved
//! (a malformed rename annotation), or two variants derive the same used
//! name.  Either way generation stops before any output is produced and the
//! caller receives the diagnostic text plus the declared names of the
//! variants at fault, so it can point at their source locations.

use vstd::prelude::*;
use vstd::string::StringExecFns;

verus! {

/// The structured input could not be resolved into a variant model.
pub struct ParseError {
    /// Declared name of the variant whose declaration is at fault.
    pub variant: String,
    /// Human-readable diagnostic text.
    pub message: String,
}

/// Two variants derive the same used name, so their helper functions would
/// collide.
pub struct CollisionError {
    /// Declared name of the earlier variant of the first colliding pair.
    pub first: String,
    /// Declared name of the later variant of the first colliding pair.
    pub second: String,
    /// Human-readable diagnostic text, including the remediation syntax.
    pub message: String,
}

/// Any failure of the generation pass.
pub enum Error {
    Parse(ParseError),
    Collision(CollisionError),
}

/// The diagnostic text an error carries.
pub open spec fn diagnostic_message(e: Error) -> Seq<char> {
    match e {
        Error::Parse(p) => p.message@,
        Error::Collision(c) => c.message@,
    }
}

/// One character of diagnostic text, escaped for a string literal.
pub open spec fn escaped_char(c: char) -> Seq<char> {
    if c == '"' {
        seq!['\\', '"']
    } else if c == '\\' {
        seq!['\\', '\\']
    } else {
        seq![c]
    }
}

/// Diagnostic text escaped for a string literal: quotes and backslashes gain
/// a leading backslash, everything else is kept.
pub open spec fn escaped(s: Seq<char>) -> Seq<char>
    decreases s.len(),
{
    if s.len() == 0 {
        Seq::empty()
    } else {
        escaped_char(s[0]) + escaped(s.drop_first())
    }
}

proof fn lemma_escaped_append(s: Seq<char>, t: Seq<char>)
    ensures
        escaped(s + t) == escaped(s) + escaped(t),
    decreases s.len(),
{
    if s.len() == 0 {
        assert(s + t =~= t);
        assert(escaped(s) + escaped(t) =~= escaped(t));
    } else {
        assert((s + t).drop_first() =~= s.drop_first() + t);
        lemma_escaped_append(s.drop_first(), t);
        assert(escaped(s + t) =~= escaped(s) + escaped(t));
    }
}

/// Escapes diagnostic text for inclusion in an emitted string literal.
pub fn escape_text(s: &str) -> (r: String)
    ensures
        r@ == escaped(s@),
{
    let n = s.unicode_len();
    let mut out = String::new();
    let mut i: usize = 0;
    while i < n
        invariant
            n == s@.len(),
            0 <= i <= n,
            out@ == escaped(s@.subrange(0, i as int)),
        decreases n - i,
    {
        let c = s.get_char(i);
        if c == '"' {
            out.append("\\\"");
        } else if c == '\\' {
            out.append("\\\\");
        } else {
            let piece = s.substring_char(i, i + 1);
            out.append(piece);
        }
        proof {
            let prefix = s@.subrange(0, i as int);
            let one = s@.subrange(i as int, i as int + 1);
            assert(one =~= seq![s@[i as int]]);
            lemma_escaped_append(prefix, one);
            assert(escaped(one.drop_first()) =~= Seq::<char>::empty());
            assert(escaped(one) =~= escaped_char(s@[i as int]));
            if c == '"' {
                reveal_strlit("\\\"");
            } else if c == '\\' {
                reveal_strlit("\\\\");
            }
            assert(out@ =~= escaped(prefix) + escaped_char(s@[i as int]));
            assert(s@.subrange(0, i as int + 1) =~= prefix + one);
        }
        i += 1;
    }
    assert(s@.subrange(0, n as int) =~= s@);
    out
}

impl Error {
    /// Renders the diagnostic as the text of a `compile_error!` invocation,
    /// ready to be spliced in place of the implementation block that failed
    /// to generate.
    pub fn to_compile_error(self) -> (r: String)
        ensures
            r@ == "compile_error! { \""@ + escaped(diagnostic_message(self)) + "\" }"@,
    {
        let msg = match &self {
            Error::Parse(p) => &p.message,
            Error::Collision(c) => &c.message,
        };
        let mut out = String::from_str("compile_error! { \"");
        out.append(escape_text(msg.as_str()).as_str());
        out.append("\" }");
        out
    }

    /// The diagnostic text this error carries.
    pub fn message(&self) -> (r: &String)
        ensures
            r@ == diagnostic_message(*self),
    {
        match self {
            Error::Parse(p) => &p.message,
            Error::Collision(c) => &c.message,
        }
    }
}

} // verus!
