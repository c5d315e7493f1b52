//! A sum type with one variant per field shape, carrying the full
//! hand-expanded method families under descriptive variant names.
//!
//! Each method here is one emitted template of [`crate::emit`], written out
//! for this type and proved against its exact contract: the existence checks
//! for every variant, and the full combinator family for every variant with
//! unnamed fields.

use vstd::prelude::*;

verus! {

/// One variant per field shape, under descriptive names.
pub enum TestEnum {
    Unit,
    OtherUnit,
    Int(u128),
    Tuple(String, u128),
    StructLike { value: u128 },
}

impl TestEnum {
    pub fn new_tuple(num: u128) -> (r: TestEnum)
        ensures
            r matches TestEnum::Tuple(s, n) && n == num,
    {
        TestEnum::Tuple(num.to_string(), num)
    }

    pub fn is_unit(&self) -> (r: bool)
        ensures
            r == (self is Unit),
    {
        match self {
            TestEnum::Unit => true,
            _ => false,
        }
    }

    pub fn is_not_unit(&self) -> (r: bool)
        ensures
            r == !(self is Unit),
    {
        !self.is_unit()
    }

    pub fn is_other_unit(&self) -> (r: bool)
        ensures
            r == (self is OtherUnit),
    {
        match self {
            TestEnum::OtherUnit => true,
            _ => false,
        }
    }

    pub fn is_not_other_unit(&self) -> (r: bool)
        ensures
            r == !(self is OtherUnit),
    {
        !self.is_other_unit()
    }

    pub fn is_int(&self) -> (r: bool)
        ensures
            r == (self is Int),
    {
        match self {
            TestEnum::Int(..) => true,
            _ => false,
        }
    }

    pub fn is_not_int(&self) -> (r: bool)
        ensures
            r == !(self is Int),
    {
        !self.is_int()
    }

    pub fn ok_int(self) -> (r: Option<u128>)
        ensures
            self matches TestEnum::Int(x) ==> r == Some(x),
            !(self is Int) ==> r is None,
    {
        match self {
            TestEnum::Int(x) => Some(x),
            _ => None,
        }
    }

    pub fn ok_or_int<Er>(self, err: Er) -> (r: Result<u128, Er>)
        ensures
            self matches TestEnum::Int(x) ==> r == Ok::<u128, Er>(x),
            !(self is Int) ==> r == Err::<u128, Er>(err),
    {
        match self {
            TestEnum::Int(x) => Ok(x),
            _ => Err(err),
        }
    }

    pub fn ok_or_else_int<Er, F: FnOnce() -> Er>(self, err: F) -> (r: Result<u128, Er>)
        requires
            !(self is Int) ==> call_requires(err, ()),
        ensures
            self matches TestEnum::Int(x) ==> r == Ok::<u128, Er>(x),
            !(self is Int) ==> (r matches Err(e) && call_ensures(err, (), e)),
    {
        match self {
            TestEnum::Int(x) => Ok(x),
            _ => Err(err()),
        }
    }

    pub fn unwrap_int(self) -> (r: u128)
        requires
            self is Int,
        ensures
            self == TestEnum::Int(r),
    {
        match self {
            TestEnum::Int(x) => x,
            _ => vstd::pervasive::unreached(),
        }
    }

    pub fn unwrap_or_int(self, or: u128) -> (r: u128)
        ensures
            self matches TestEnum::Int(x) ==> r == x,
            !(self is Int) ==> r == or,
    {
        match self {
            TestEnum::Int(x) => x,
            _ => or,
        }
    }

    pub fn unwrap_or_else_int<F: FnOnce() -> u128>(self, or_else: F) -> (r: u128)
        requires
            !(self is Int) ==> call_requires(or_else, ()),
        ensures
            self matches TestEnum::Int(x) ==> r == x,
            !(self is Int) ==> call_ensures(or_else, (), r),
    {
        match self {
            TestEnum::Int(x) => x,
            _ => or_else(),
        }
    }

    #[allow(unused_variables)]
    pub fn expect_int(self, msg: &str) -> (r: u128)
        requires
            self is Int,
        ensures
            self == TestEnum::Int(r),
    {
        match self {
            TestEnum::Int(x) => x,
            _ => vstd::pervasive::unreached(),
        }
    }

    pub fn and_int(self, and: TestEnum) -> (r: TestEnum)
        ensures
            self is Int && and is Int ==> r == and,
            !(self is Int && and is Int) ==> r == self,
    {
        match (&self, &and) {
            (TestEnum::Int(..), TestEnum::Int(..)) => and,
            _ => self,
        }
    }

    pub fn and_then_int<F: FnOnce(u128) -> u128>(self, and_then: F) -> (r: TestEnum)
        requires
            self matches TestEnum::Int(x) ==> call_requires(and_then, (x,)),
        ensures
            !(self is Int) ==> r == self,
            self matches TestEnum::Int(x) ==> (r matches TestEnum::Int(p) && call_ensures(and_then, (x,), p)),
    {
        match self {
            TestEnum::Int(x) => TestEnum::Int(and_then(x)),
            _ => self,
        }
    }

    pub fn or_int(self, or: TestEnum) -> (r: TestEnum)
        ensures
            self is Int ==> r == self,
            !(self is Int) ==> r == or,
    {
        match &self {
            TestEnum::Int(..) => self,
            _ => or,
        }
    }

    pub fn or_else_int<F: FnOnce() -> u128>(self, or_else: F) -> (r: TestEnum)
        requires
            !(self is Int) ==> call_requires(or_else, ()),
        ensures
            self is Int ==> r == self,
            !(self is Int) ==> (r matches TestEnum::Int(p) && call_ensures(or_else, (), p)),
    {
        match &self {
            TestEnum::Int(..) => self,
            _ => TestEnum::Int(or_else()),
        }
    }

    pub fn replace_int(&mut self, value: u128) -> (r: TestEnum)
        ensures
            *old(self) is Int ==> *final(self) == TestEnum::Int(value) && r == *old(self),
            !(*old(self) is Int) ==> *final(self) == *old(self) && r == TestEnum::Int(value),
    {
        let mut next = TestEnum::Int(value);
        if self.is_int() {
            core::mem::swap(self, &mut next);
            next
        } else {
            next
        }
    }

    pub fn is_tuple(&self) -> (r: bool)
        ensures
            r == (self is Tuple),
    {
        match self {
            TestEnum::Tuple(..) => true,
            _ => false,
        }
    }

    pub fn is_not_tuple(&self) -> (r: bool)
        ensures
            r == !(self is Tuple),
    {
        !self.is_tuple()
    }

    pub fn ok_tuple(self) -> (r: Option<(String, u128)>)
        ensures
            self matches TestEnum::Tuple(x, y) ==> r == Some((x, y)),
            !(self is Tuple) ==> r is None,
    {
        match self {
            TestEnum::Tuple(x, y) => Some((x, y)),
            _ => None,
        }
    }

    pub fn ok_or_tuple<Er>(self, err: Er) -> (r: Result<(String, u128), Er>)
        ensures
            self matches TestEnum::Tuple(x, y) ==> r == Ok::<(String, u128), Er>((x, y)),
            !(self is Tuple) ==> r == Err::<(String, u128), Er>(err),
    {
        match self {
            TestEnum::Tuple(x, y) => Ok((x, y)),
            _ => Err(err),
        }
    }

    pub fn ok_or_else_tuple<Er, F: FnOnce() -> Er>(self, err: F) -> (r: Result<(String, u128), Er>)
        requires
            !(self is Tuple) ==> call_requires(err, ()),
        ensures
            self matches TestEnum::Tuple(x, y) ==> r == Ok::<(String, u128), Er>((x, y)),
            !(self is Tuple) ==> (r matches Err(e) && call_ensures(err, (), e)),
    {
        match self {
            TestEnum::Tuple(x, y) => Ok((x, y)),
            _ => Err(err()),
        }
    }

    pub fn unwrap_tuple(self) -> (r: (String, u128))
        requires
            self is Tuple,
        ensures
            self == TestEnum::Tuple(r.0, r.1),
    {
        match self {
            TestEnum::Tuple(x, y) => (x, y),
            _ => vstd::pervasive::unreached(),
        }
    }

    pub fn unwrap_or_tuple(self, or: (String, u128)) -> (r: (String, u128))
        ensures
            self matches TestEnum::Tuple(x, y) ==> r == (x, y),
            !(self is Tuple) ==> r == or,
    {
        match self {
            TestEnum::Tuple(x, y) => (x, y),
            _ => or,
        }
    }

    pub fn unwrap_or_else_tuple<F: FnOnce() -> (String, u128)>(self, or_else: F) -> (r: (String, u128))
        requires
            !(self is Tuple) ==> call_requires(or_else, ()),
        ensures
            self matches TestEnum::Tuple(x, y) ==> r == (x, y),
            !(self is Tuple) ==> call_ensures(or_else, (), r),
    {
        match self {
            TestEnum::Tuple(x, y) => (x, y),
            _ => or_else(),
        }
    }

    #[allow(unused_variables)]
    pub fn expect_tuple(self, msg: &str) -> (r: (String, u128))
        requires
            self is Tuple,
        ensures
            self == TestEnum::Tuple(r.0, r.1),
    {
        match self {
            TestEnum::Tuple(x, y) => (x, y),
            _ => vstd::pervasive::unreached(),
        }
    }

    pub fn and_tuple(self, and: TestEnum) -> (r: TestEnum)
        ensures
            self is Tuple && and is Tuple ==> r == and,
            !(self is Tuple && and is Tuple) ==> r == self,
    {
        match (&self, &and) {
            (TestEnum::Tuple(..), TestEnum::Tuple(..)) => and,
            _ => self,
        }
    }

    pub fn and_then_tuple<F: FnOnce((String, u128)) -> (String, u128)>(self, and_then: F) -> (r: TestEnum)
        requires
            self matches TestEnum::Tuple(x, y) ==> call_requires(and_then, ((x, y),)),
        ensures
            !(self is Tuple) ==> r == self,
            self matches TestEnum::Tuple(x, y) ==> (r matches TestEnum::Tuple(p, q) && call_ensures(and_then, ((x, y),), (p, q))),
    {
        match self {
            TestEnum::Tuple(x, y) => {
                let t = and_then((x, y));
                TestEnum::Tuple(t.0, t.1)
            },
            _ => self,
        }
    }

    pub fn or_tuple(self, or: TestEnum) -> (r: TestEnum)
        ensures
            self is Tuple ==> r == self,
            !(self is Tuple) ==> r == or,
    {
        match &self {
            TestEnum::Tuple(..) => self,
            _ => or,
        }
    }

    pub fn or_else_tuple<F: FnOnce() -> (String, u128)>(self, or_else: F) -> (r: TestEnum)
        requires
            !(self is Tuple) ==> call_requires(or_else, ()),
        ensures
            self is Tuple ==> r == self,
            !(self is Tuple) ==> (r matches TestEnum::Tuple(p, q) && call_ensures(or_else, (), (p, q))),
    {
        match &self {
            TestEnum::Tuple(..) => self,
            _ => {
                let t = or_else();
                TestEnum::Tuple(t.0, t.1)
            },
        }
    }

    pub fn replace_tuple(&mut self, value: (String, u128)) -> (r: TestEnum)
        ensures
            *old(self) is Tuple ==> *final(self) == TestEnum::Tuple(value.0, value.1) && r == *old(self),
            !(*old(self) is Tuple) ==> *final(self) == *old(self) && r == TestEnum::Tuple(value.0, value.1),
    {
        let (v0, v1) = value;
        let mut next = TestEnum::Tuple(v0, v1);
        if self.is_tuple() {
            core::mem::swap(self, &mut next);
            next
        } else {
            next
        }
    }

    pub fn is_struct_like(&self) -> (r: bool)
        ensures
            r == (self is StructLike),
    {
        match self {
            TestEnum::StructLike { .. } => true,
            _ => false,
        }
    }

    pub fn is_not_struct_like(&self) -> (r: bool)
        ensures
            r == !(self is StructLike),
    {
        !self.is_struct_like()
    }
}

} // verus!
