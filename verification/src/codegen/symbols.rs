use vstd::prelude::*;

use crate::ast::Type;
use crate::error::{message3, CompileError};
use crate::text::str_eq;

verus! {

/// The local variables of the function being compiled, in the order they
/// were declared; a variable's slot is its position. No name occurs twice.
#[derive(Debug)]
pub struct Symbols {
    locals: Vec<(String, Type)>,
}

/// The slot of the latest local called `name`, if any.
pub open spec fn slot_of(s: Seq<(Seq<char>, Type)>, name: Seq<char>) -> Option<int>
    decreases s.len(),
{
    if s.len() == 0 {
        None
    } else if s.last().0 == name {
        Some(s.len() - 1)
    } else {
        slot_of(s.drop_last(), name)
    }
}

/// Whether no name occurs twice among the locals.
pub open spec fn distinct_names(s: Seq<(Seq<char>, Type)>) -> bool {
    forall|i: int, j: int| 0 <= i < j < s.len() ==> s[i].0 != s[j].0
}

/// The message of a name declared twice.
pub open spec fn duplicate_message(name: Seq<char>) -> Seq<char> {
    "duplicate variable '"@ + name + "'"@
}

/// The message of a name that is not a local.
pub open spec fn unknown_variable_message(name: Seq<char>) -> Seq<char> {
    "unknown variable '"@ + name + "'"@
}

/// The slot that a name maps to is the position of its entry.
pub proof fn lemma_slot_of_bounds(s: Seq<(Seq<char>, Type)>, name: Seq<char>)
    ensures
        slot_of(s, name) matches Some(i) ==> 0 <= i < s.len() && s[i].0 == name,
        slot_of(s, name) is None ==> forall|i: int| 0 <= i < s.len() ==> s[i].0 != name,
    decreases s.len(),
{
    if s.len() > 0 {
        lemma_slot_of_bounds(s.drop_last(), name);
        assert forall|i: int| 0 <= i < s.len() - 1 implies s.drop_last()[i] == s[i] by {}
    }
}

impl Symbols {
    /// The locals as names and types.
    pub closed spec fn model(&self) -> Seq<(Seq<char>, Type)> {
        self.locals@.map_values(|p: (String, Type)| (p.0@, p.1))
    }

    /// Whether no name occurs twice.
    pub open spec fn wf(&self) -> bool {
        distinct_names(self.model())
    }

    /// No locals.
    pub fn new() -> (s: Symbols)
        ensures
            s.model() == Seq::<(Seq<char>, Type)>::empty(),
            s.wf(),
    {
        let s = Symbols { locals: Vec::new() };
        assert(s.model() =~= Seq::<(Seq<char>, Type)>::empty());
        s
    }

    /// The number of locals declared.
    pub fn count(&self) -> (n: usize)
        ensures
            n == self.model().len(),
    {
        self.locals.len()
    }

    /// The position of the latest local called `name`, if any.
    fn find(&self, name: &str) -> (r: Option<usize>)
        ensures
            match r {
                Some(i) => slot_of(self.model(), name@) == Some(i as int) && i < self.model().len(),
                None => slot_of(self.model(), name@) is None,
            },
    {
        let ghost m = self.model();
        let mut k: usize = self.locals.len();
        assert(m.take(k as int) =~= m);
        while k > 0
            invariant
                k <= self.locals@.len(),
                m == self.model(),
                slot_of(m, name@) == slot_of(m.take(k as int), name@),
            decreases k,
        {
            assert(m.take(k as int).drop_last() =~= m.take(k - 1));
            if str_eq(self.locals[k - 1].0.as_str(), name) {
                return Some(k - 1);
            }
            k = k - 1;
        }
        None
    }

    /// Declares a local; its slot is the number of locals declared before
    /// it. A name that is already a local is refused.
    pub fn declare(&mut self, name: &str, ty: &Type) -> (r: Result<u32, CompileError>)
        requires
            old(self).wf(),
        ensures
            final(self).wf(),
            match r {
                Ok(idx) => {
                    &&& slot_of(old(self).model(), name@) is None
                    &&& idx == old(self).model().len() as u32
                    &&& final(self).model() == old(self).model().push((name@, *ty))
                },
                Err(e) => {
                    &&& slot_of(old(self).model(), name@) is Some
                    &&& e.message@ == duplicate_message(name@)
                    &&& e.span.is_none()
                    &&& final(self).model() == old(self).model()
                },
            },
    {
        if self.find(name).is_some() {
            return Err(CompileError::new_simple(message3("duplicate variable '", name, "'")));
        }
        let idx = self.locals.len() as u32;
        let ghost prev = self.model();
        self.locals.push((name.to_string(), ty.duplicate()));
        proof {
            lemma_slot_of_bounds(prev, name@);
            assert(self.model() =~= prev.push((name@, *ty)));
        }
        Ok(idx)
    }

    /// The slot of a local.
    pub fn get(&self, name: &str) -> (r: Result<u32, CompileError>)
        ensures
            match r {
                Ok(idx) => slot_of(self.model(), name@) matches Some(i) && idx == i as u32,
                Err(e) => slot_of(self.model(), name@) is None && e.message@
                    == unknown_variable_message(name@) && e.span.is_none(),
            },
    {
        match self.find(name) {
            Some(i) => Ok(i as u32),
            None => Err(CompileError::new_simple(message3("unknown variable '", name, "'"))),
        }
    }

    /// The type of a local, if it is one.
    pub fn get_type(&self, name: &str) -> (r: Option<&Type>)
        ensures
            match r {
                Some(t) => slot_of(self.model(), name@) matches Some(i) && *t == self.model()[i].1,
                None => slot_of(self.model(), name@) is None,
            },
    {
        match self.find(name) {
            Some(i) => Some(&self.locals[i].1),
            None => None,
        }
    }
}

/// A name, once declared, maps to the slot that `declare` returned, and the
/// type it was declared with.
pub proof fn lemma_declare_then_get(s: Seq<(Seq<char>, Type)>, name: Seq<char>, ty: Type)
    ensures
        slot_of(s.push((name, ty)), name) == Some(s.len() as int),
        s.push((name, ty))[s.len() as int].1 == ty,
{
    assert(s.push((name, ty)).last().0 == name);
}

} // verus!
