//! A sum type with single-value, multi-value, record-like and empty
//! variants, carrying the full hand-expanded method families.
//!
//! Each method here is one emitted template of [`crate::emit`], written out
//! for this type and proved against its exact contract: the existence checks
//! for every variant, and the full combinator family for every variant with
//! unnamed fields.

use vstd::prelude::*;

verus! {

/// One variant of every field shape, under the short names that the
/// integration suite drives.
pub enum TestEnum {
    A,
    B(String),
    C(String),
    D(u128),
    E { value: u128 },
    F(String, u128, String),
}

impl TestEnum {
    pub fn is_a(&self) -> (r: bool)
        ensures
            r == (self is A),
    {
        match self {
            TestEnum::A => true,
            _ => false,
        }
    }

    pub fn is_not_a(&self) -> (r: bool)
        ensures
            r == !(self is A),
    {
        !self.is_a()
    }

    pub fn is_b(&self) -> (r: bool)
        ensures
            r == (self is B),
    {
        match self {
            TestEnum::B(..) => true,
            _ => false,
        }
    }

    pub fn is_not_b(&self) -> (r: bool)
        ensures
            r == !(self is B),
    {
        !self.is_b()
    }

    pub fn ok_b(self) -> (r: Option<String>)
        ensures
            self matches TestEnum::B(x) ==> r == Some(x),
            !(self is B) ==> r is None,
    {
        match self {
            TestEnum::B(x) => Some(x),
            _ => None,
        }
    }

    pub fn ok_or_b<Er>(self, err: Er) -> (r: Result<String, Er>)
        ensures
            self matches TestEnum::B(x) ==> r == Ok::<String, Er>(x),
            !(self is B) ==> r == Err::<String, Er>(err),
    {
        match self {
            TestEnum::B(x) => Ok(x),
            _ => Err(err),
        }
    }

    pub fn ok_or_else_b<Er, F: FnOnce() -> Er>(self, err: F) -> (r: Result<String, Er>)
        requires
            !(self is B) ==> call_requires(err, ()),
        ensures
            self matches TestEnum::B(x) ==> r == Ok::<String, Er>(x),
            !(self is B) ==> (r matches Err(e) && call_ensures(err, (), e)),
    {
        match self {
            TestEnum::B(x) => Ok(x),
            _ => Err(err()),
        }
    }

    pub fn unwrap_b(self) -> (r: String)
        requires
            self is B,
        ensures
            self == TestEnum::B(r),
    {
        match self {
            TestEnum::B(x) => x,
            _ => vstd::pervasive::unreached(),
        }
    }

    pub fn unwrap_or_b(self, or: String) -> (r: String)
        ensures
            self matches TestEnum::B(x) ==> r == x,
            !(self is B) ==> r == or,
    {
        match self {
            TestEnum::B(x) => x,
            _ => or,
        }
    }

    pub fn unwrap_or_else_b<F: FnOnce() -> String>(self, or_else: F) -> (r: String)
        requires
            !(self is B) ==> call_requires(or_else, ()),
        ensures
            self matches TestEnum::B(x) ==> r == x,
            !(self is B) ==> call_ensures(or_else, (), r),
    {
        match self {
            TestEnum::B(x) => x,
            _ => or_else(),
        }
    }

    #[allow(unused_variables)]
    pub fn expect_b(self, msg: &str) -> (r: String)
        requires
            self is B,
        ensures
            self == TestEnum::B(r),
    {
        match self {
            TestEnum::B(x) => x,
            _ => vstd::pervasive::unreached(),
        }
    }

    pub fn and_b(self, and: TestEnum) -> (r: TestEnum)
        ensures
            self is B && and is B ==> r == and,
            !(self is B && and is B) ==> r == self,
    {
        match (&self, &and) {
            (TestEnum::B(..), TestEnum::B(..)) => and,
            _ => self,
        }
    }

    pub fn and_then_b<F: FnOnce(String) -> String>(self, and_then: F) -> (r: TestEnum)
        requires
            self matches TestEnum::B(x) ==> call_requires(and_then, (x,)),
        ensures
            !(self is B) ==> r == self,
            self matches TestEnum::B(x) ==> (r matches TestEnum::B(p) && call_ensures(and_then, (x,), p)),
    {
        match self {
            TestEnum::B(x) => TestEnum::B(and_then(x)),
            _ => self,
        }
    }

    pub fn or_b(self, or: TestEnum) -> (r: TestEnum)
        ensures
            self is B ==> r == self,
            !(self is B) ==> r == or,
    {
        match &self {
            TestEnum::B(..) => self,
            _ => or,
        }
    }

    pub fn or_else_b<F: FnOnce() -> String>(self, or_else: F) -> (r: TestEnum)
        requires
            !(self is B) ==> call_requires(or_else, ()),
        ensures
            self is B ==> r == self,
            !(self is B) ==> (r matches TestEnum::B(p) && call_ensures(or_else, (), p)),
    {
        match &self {
            TestEnum::B(..) => self,
            _ => TestEnum::B(or_else()),
        }
    }

    pub fn replace_b(&mut self, value: String) -> (r: TestEnum)
        ensures
            *old(self) is B ==> *final(self) == TestEnum::B(value) && r == *old(self),
            !(*old(self) is B) ==> *final(self) == *old(self) && r == TestEnum::B(value),
    {
        let mut next = TestEnum::B(value);
        if self.is_b() {
            core::mem::swap(self, &mut next);
            next
        } else {
            next
        }
    }

    pub fn is_c(&self) -> (r: bool)
        ensures
            r == (self is C),
    {
        match self {
            TestEnum::C(..) => true,
            _ => false,
        }
    }

    pub fn is_not_c(&self) -> (r: bool)
        ensures
            r == !(self is C),
    {
        !self.is_c()
    }

    pub fn ok_c(self) -> (r: Option<String>)
        ensures
            self matches TestEnum::C(x) ==> r == Some(x),
            !(self is C) ==> r is None,
    {
        match self {
            TestEnum::C(x) => Some(x),
            _ => None,
        }
    }

    pub fn ok_or_c<Er>(self, err: Er) -> (r: Result<String, Er>)
        ensures
            self matches TestEnum::C(x) ==> r == Ok::<String, Er>(x),
            !(self is C) ==> r == Err::<String, Er>(err),
    {
        match self {
            TestEnum::C(x) => Ok(x),
            _ => Err(err),
        }
    }

    pub fn ok_or_else_c<Er, F: FnOnce() -> Er>(self, err: F) -> (r: Result<String, Er>)
        requires
            !(self is C) ==> call_requires(err, ()),
        ensures
            self matches TestEnum::C(x) ==> r == Ok::<String, Er>(x),
            !(self is C) ==> (r matches Err(e) && call_ensures(err, (), e)),
    {
        match self {
            TestEnum::C(x) => Ok(x),
            _ => Err(err()),
        }
    }

    pub fn unwrap_c(self) -> (r: String)
        requires
            self is C,
        ensures
            self == TestEnum::C(r),
    {
        match self {
            TestEnum::C(x) => x,
            _ => vstd::pervasive::unreached(),
        }
    }

    pub fn unwrap_or_c(self, or: String) -> (r: String)
        ensures
            self matches TestEnum::C(x) ==> r == x,
            !(self is C) ==> r == or,
    {
        match self {
            TestEnum::C(x) => x,
            _ => or,
        }
    }

    pub fn unwrap_or_else_c<F: FnOnce() -> String>(self, or_else: F) -> (r: String)
        requires
            !(self is C) ==> call_requires(or_else, ()),
        ensures
            self matches TestEnum::C(x) ==> r == x,
            !(self is C) ==> call_ensures(or_else, (), r),
    {
        match self {
            TestEnum::C(x) => x,
            _ => or_else(),
        }
    }

    #[allow(unused_variables)]
    pub fn expect_c(self, msg: &str) -> (r: String)
        requires
            self is C,
        ensures
            self == TestEnum::C(r),
    {
        match self {
            TestEnum::C(x) => x,
            _ => vstd::pervasive::unreached(),
        }
    }

    pub fn and_c(self, and: TestEnum) -> (r: TestEnum)
        ensures
            self is C && and is C ==> r == and,
            !(self is C && and is C) ==> r == self,
    {
        match (&self, &and) {
            (TestEnum::C(..), TestEnum::C(..)) => and,
            _ => self,
        }
    }

    pub fn and_then_c<F: FnOnce(String) -> String>(self, and_then: F) -> (r: TestEnum)
        requires
            self matches TestEnum::C(x) ==> call_requires(and_then, (x,)),
        ensures
            !(self is C) ==> r == self,
            self matches TestEnum::C(x) ==> (r matches TestEnum::C(p) && call_ensures(and_then, (x,), p)),
    {
        match self {
            TestEnum::C(x) => TestEnum::C(and_then(x)),
            _ => self,
        }
    }

    pub fn or_c(self, or: TestEnum) -> (r: TestEnum)
        ensures
            self is C ==> r == self,
            !(self is C) ==> r == or,
    {
        match &self {
            TestEnum::C(..) => self,
            _ => or,
        }
    }

    pub fn or_else_c<F: FnOnce() -> String>(self, or_else: F) -> (r: TestEnum)
        requires
            !(self is C) ==> call_requires(or_else, ()),
        ensures
            self is C ==> r == self,
            !(self is C) ==> (r matches TestEnum::C(p) && call_ensures(or_else, (), p)),
    {
        match &self {
            TestEnum::C(..) => self,
            _ => TestEnum::C(or_else()),
        }
    }

    pub fn replace_c(&mut self, value: String) -> (r: TestEnum)
        ensures
            *old(self) is C ==> *final(self) == TestEnum::C(value) && r == *old(self),
            !(*old(self) is C) ==> *final(self) == *old(self) && r == TestEnum::C(value),
    {
        let mut next = TestEnum::C(value);
        if self.is_c() {
            core::mem::swap(self, &mut next);
            next
        } else {
            next
        }
    }

    pub fn is_d(&self) -> (r: bool)
        ensures
            r == (self is D),
    {
        match self {
            TestEnum::D(..) => true,
            _ => false,
        }
    }

    pub fn is_not_d(&self) -> (r: bool)
        ensures
            r == !(self is D),
    {
        !self.is_d()
    }

    pub fn ok_d(self) -> (r: Option<u128>)
        ensures
            self matches TestEnum::D(x) ==> r == Some(x),
            !(self is D) ==> r is None,
    {
        match self {
            TestEnum::D(x) => Some(x),
            _ => None,
        }
    }

    pub fn ok_or_d<Er>(self, err: Er) -> (r: Result<u128, Er>)
        ensures
            self matches TestEnum::D(x) ==> r == Ok::<u128, Er>(x),
            !(self is D) ==> r == Err::<u128, Er>(err),
    {
        match self {
            TestEnum::D(x) => Ok(x),
            _ => Err(err),
        }
    }

    pub fn ok_or_else_d<Er, F: FnOnce() -> Er>(self, err: F) -> (r: Result<u128, Er>)
        requires
            !(self is D) ==> call_requires(err, ()),
        ensures
            self matches TestEnum::D(x) ==> r == Ok::<u128, Er>(x),
            !(self is D) ==> (r matches Err(e) && call_ensures(err, (), e)),
    {
        match self {
            TestEnum::D(x) => Ok(x),
            _ => Err(err()),
        }
    }

    pub fn unwrap_d(self) -> (r: u128)
        requires
            self is D,
        ensures
            self == TestEnum::D(r),
    {
        match self {
            TestEnum::D(x) => x,
            _ => vstd::pervasive::unreached(),
        }
    }

    pub fn unwrap_or_d(self, or: u128) -> (r: u128)
        ensures
            self matches TestEnum::D(x) ==> r == x,
            !(self is D) ==> r == or,
    {
        match self {
            TestEnum::D(x) => x,
            _ => or,
        }
    }

    pub fn unwrap_or_else_d<F: FnOnce() -> u128>(self, or_else: F) -> (r: u128)
        requires
            !(self is D) ==> call_requires(or_else, ()),
        ensures
            self matches TestEnum::D(x) ==> r == x,
            !(self is D) ==> call_ensures(or_else, (), r),
    {
        match self {
            TestEnum::D(x) => x,
            _ => or_else(),
        }
    }

    #[allow(unused_variables)]
    pub fn expect_d(self, msg: &str) -> (r: u128)
        requires
            self is D,
        ensures
            self == TestEnum::D(r),
    {
        match self {
            TestEnum::D(x) => x,
            _ => vstd::pervasive::unreached(),
        }
    }

    pub fn and_d(self, and: TestEnum) -> (r: TestEnum)
        ensures
            self is D && and is D ==> r == and,
            !(self is D && and is D) ==> r == self,
    {
        match (&self, &and) {
            (TestEnum::D(..), TestEnum::D(..)) => and,
            _ => self,
        }
    }

    pub fn and_then_d<F: FnOnce(u128) -> u128>(self, and_then: F) -> (r: TestEnum)
        requires
            self matches TestEnum::D(x) ==> call_requires(and_then, (x,)),
        ensures
            !(self is D) ==> r == self,
            self matches TestEnum::D(x) ==> (r matches TestEnum::D(p) && call_ensures(and_then, (x,), p)),
    {
        match self {
            TestEnum::D(x) => TestEnum::D(and_then(x)),
            _ => self,
        }
    }

    pub fn or_d(self, or: TestEnum) -> (r: TestEnum)
        ensures
            self is D ==> r == self,
            !(self is D) ==> r == or,
    {
        match &self {
            TestEnum::D(..) => self,
            _ => or,
        }
    }

    pub fn or_else_d<F: FnOnce() -> u128>(self, or_else: F) -> (r: TestEnum)
        requires
            !(self is D) ==> call_requires(or_else, ()),
        ensures
            self is D ==> r == self,
            !(self is D) ==> (r matches TestEnum::D(p) && call_ensures(or_else, (), p)),
    {
        match &self {
            TestEnum::D(..) => self,
            _ => TestEnum::D(or_else()),
        }
    }

    pub fn replace_d(&mut self, value: u128) -> (r: TestEnum)
        ensures
            *old(self) is D ==> *final(self) == TestEnum::D(value) && r == *old(self),
            !(*old(self) is D) ==> *final(self) == *old(self) && r == TestEnum::D(value),
    {
        let mut next = TestEnum::D(value);
        if self.is_d() {
            core::mem::swap(self, &mut next);
            next
        } else {
            next
        }
    }

    pub fn is_e(&self) -> (r: bool)
        ensures
            r == (self is E),
    {
        match self {
            TestEnum::E { .. } => true,
            _ => false,
        }
    }

    pub fn is_not_e(&self) -> (r: bool)
        ensures
            r == !(self is E),
    {
        !self.is_e()
    }

    pub fn is_f(&self) -> (r: bool)
        ensures
            r == (self is F),
    {
        match self {
            TestEnum::F(..) => true,
            _ => false,
        }
    }

    pub fn is_not_f(&self) -> (r: bool)
        ensures
            r == !(self is F),
    {
        !self.is_f()
    }

    pub fn ok_f(self) -> (r: Option<(String, u128, String)>)
        ensures
            self matches TestEnum::F(x, y, z) ==> r == Some((x, y, z)),
            !(self is F) ==> r is None,
    {
        match self {
            TestEnum::F(x, y, z) => Some((x, y, z)),
            _ => None,
        }
    }

    pub fn ok_or_f<Er>(self, err: Er) -> (r: Result<(String, u128, String), Er>)
        ensures
            self matches TestEnum::F(x, y, z) ==> r == Ok::<(String, u128, String), Er>((x, y, z)),
            !(self is F) ==> r == Err::<(String, u128, String), Er>(err),
    {
        match self {
            TestEnum::F(x, y, z) => Ok((x, y, z)),
            _ => Err(err),
        }
    }

    pub fn ok_or_else_f<Er, F: FnOnce() -> Er>(self, err: F) -> (r: Result<(String, u128, String), Er>)
        requires
            !(self is F) ==> call_requires(err, ()),
        ensures
            self matches TestEnum::F(x, y, z) ==> r == Ok::<(String, u128, String), Er>((x, y, z)),
            !(self is F) ==> (r matches Err(e) && call_ensures(err, (), e)),
    {
        match self {
            TestEnum::F(x, y, z) => Ok((x, y, z)),
            _ => Err(err()),
        }
    }

    pub fn unwrap_f(self) -> (r: (String, u128, String))
        requires
            self is F,
        ensures
            self == TestEnum::F(r.0, r.1, r.2),
    {
        match self {
            TestEnum::F(x, y, z) => (x, y, z),
            _ => vstd::pervasive::unreached(),
        }
    }

    pub fn unwrap_or_f(self, or: (String, u128, String)) -> (r: (String, u128, String))
        ensures
            self matches TestEnum::F(x, y, z) ==> r == (x, y, z),
            !(self is F) ==> r == or,
    {
        match self {
            TestEnum::F(x, y, z) => (x, y, z),
            _ => or,
        }
    }

    pub fn unwrap_or_else_f<F: FnOnce() -> (String, u128, String)>(self, or_else: F) -> (r: (String, u128, String))
        requires
            !(self is F) ==> call_requires(or_else, ()),
        ensures
            self matches TestEnum::F(x, y, z) ==> r == (x, y, z),
            !(self is F) ==> call_ensures(or_else, (), r),
    {
        match self {
            TestEnum::F(x, y, z) => (x, y, z),
            _ => or_else(),
        }
    }

    #[allow(unused_variables)]
    pub fn expect_f(self, msg: &str) -> (r: (String, u128, String))
        requires
            self is F,
        ensures
            self == TestEnum::F(r.0, r.1, r.2),
    {
        match self {
            TestEnum::F(x, y, z) => (x, y, z),
            _ => vstd::pervasive::unreached(),
        }
    }

    pub fn and_f(self, and: TestEnum) -> (r: TestEnum)
        ensures
            self is F && and is F ==> r == and,
            !(self is F && and is F) ==> r == self,
    {
        match (&self, &and) {
            (TestEnum::F(..), TestEnum::F(..)) => and,
            _ => self,
        }
    }

    pub fn and_then_f<F: FnOnce((String, u128, String)) -> (String, u128, String)>(self, and_then: F) -> (r: TestEnum)
        requires
            self matches TestEnum::F(x, y, z) ==> call_requires(and_then, ((x, y, z),)),
        ensures
            !(self is F) ==> r == self,
            self matches TestEnum::F(x, y, z) ==> (r matches TestEnum::F(p, q, s) && call_ensures(and_then, ((x, y, z),), (p, q, s))),
    {
        match self {
            TestEnum::F(x, y, z) => {
                let t = and_then((x, y, z));
                TestEnum::F(t.0, t.1, t.2)
            },
            _ => self,
        }
    }

    pub fn or_f(self, or: TestEnum) -> (r: TestEnum)
        ensures
            self is F ==> r == self,
            !(self is F) ==> r == or,
    {
        match &self {
            TestEnum::F(..) => self,
            _ => or,
        }
    }

    pub fn or_else_f<F: FnOnce() -> (String, u128, String)>(self, or_else: F) -> (r: TestEnum)
        requires
            !(self is F) ==> call_requires(or_else, ()),
        ensures
            self is F ==> r == self,
            !(self is F) ==> (r matches TestEnum::F(p, q, s) && call_ensures(or_else, (), (p, q, s))),
    {
        match &self {
            TestEnum::F(..) => self,
            _ => {
                let t = or_else();
                TestEnum::F(t.0, t.1, t.2)
            },
        }
    }

    pub fn replace_f(&mut self, value: (String, u128, String)) -> (r: TestEnum)
        ensures
            *old(self) is F ==> *final(self) == TestEnum::F(value.0, value.1, value.2) && r == *old(self),
            !(*old(self) is F) ==> *final(self) == *old(self) && r == TestEnum::F(value.0, value.1, value.2),
    {
        let (v0, v1, v2) = value;
        let mut next = TestEnum::F(v0, v1, v2);
        if self.is_f() {
            core::mem::swap(self, &mut next);
            next
        } else {
            next
        }
    }
}

} // verus!
