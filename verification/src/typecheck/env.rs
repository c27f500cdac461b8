use vstd::prelude::*;

use crate::ast::Type;
use crate::text::str_eq;

verus! {

/// The parameter types and result type of a function.
#[derive(Debug)]
pub struct FuncSig {
    pub params: Vec<Type>,
    pub ret: Type,
}

/// The parameter types of a procedure.
#[derive(Debug)]
pub struct ProcSig {
    pub params: Vec<Type>,
}

/// The names in scope while checking: variables, functions and procedures,
/// each list read from its latest entry backwards (a later entry for a name
/// hides earlier ones), and the result type of the function being checked,
/// if any.
#[derive(Debug)]
pub struct TypeEnv {
    pub vars: Vec<(String, Type)>,
    pub funcs: Vec<(String, FuncSig)>,
    pub procs: Vec<(String, ProcSig)>,
    pub current_return: Option<Type>,
}

/// The mathematical content of a type environment.
pub struct EnvModel {
    pub vars: Seq<(Seq<char>, Type)>,
    pub funcs: Seq<(Seq<char>, (Seq<Type>, Type))>,
    pub procs: Seq<(Seq<char>, Seq<Type>)>,
    pub ret: Option<Type>,
}

/// The value of the latest entry for `name`, if there is one.
pub open spec fn lookup<V>(s: Seq<(Seq<char>, V)>, name: Seq<char>) -> Option<V>
    decreases s.len(),
{
    if s.len() == 0 {
        None
    } else if s.last().0 == name {
        Some(s.last().1)
    } else {
        lookup(s.drop_last(), name)
    }
}

impl TypeEnv {
    pub open spec fn model(&self) -> EnvModel {
        EnvModel {
            vars: self.vars@.map_values(|p: (String, Type)| (p.0@, p.1)),
            funcs: self.funcs@.map_values(|p: (String, FuncSig)| (p.0@, (p.1.params@, p.1.ret))),
            procs: self.procs@.map_values(|p: (String, ProcSig)| (p.0@, p.1.params@)),
            ret: self.current_return,
        }
    }

    /// An environment with no names and no result type.
    pub fn new() -> (env: TypeEnv)
        ensures
            env.model().vars.len() == 0,
            env.model().funcs.len() == 0,
            env.model().procs.len() == 0,
            env.model().ret.is_none(),
    {
        TypeEnv { vars: Vec::new(), funcs: Vec::new(), procs: Vec::new(), current_return: None }
    }
}

/// The latest entry for a name gives the lookup's value.
pub proof fn lemma_lookup_latest<V>(s: Seq<(Seq<char>, V)>, name: Seq<char>, i: int)
    requires
        0 <= i < s.len(),
        s[i].0 == name,
        forall|j: int| i < j < s.len() ==> (#[trigger] s[j]).0 != name,
    ensures
        lookup(s, name) == Some(s[i].1),
    decreases s.len(),
{
    if i < s.len() - 1 {
        assert(s.last() == s[s.len() - 1]);
        lemma_lookup_latest(s.drop_last(), name, i);
    }
}

/// A name with no entry has no value.
pub proof fn lemma_lookup_none<V>(s: Seq<(Seq<char>, V)>, name: Seq<char>)
    requires
        forall|j: int| 0 <= j < s.len() ==> (#[trigger] s[j]).0 != name,
    ensures
        lookup(s, name).is_none(),
    decreases s.len(),
{
    if s.len() > 0 {
        assert(s.last() == s[s.len() - 1]);
        lemma_lookup_none(s.drop_last(), name);
    }
}

/// A new entry for a name is what the name then looks up to.
pub proof fn lemma_lookup_push<V>(s: Seq<(Seq<char>, V)>, name: Seq<char>, v: V, other: Seq<char>)
    ensures
        lookup(s.push((name, v)), other) == (if other == name {
            Some(v)
        } else {
            lookup(s, other)
        }),
{
    assert(s.push((name, v)).drop_last() =~= s);
}

/// The index of the latest entry for `name`, if any.
pub fn find_latest<V>(entries: &Vec<(String, V)>, name: &str) -> (r: Option<usize>)
    ensures
        match r {
            Some(i) => {
                &&& i < entries@.len()
                &&& entries@[i as int].0@ == name@
                &&& forall|j: int| i < j < entries@.len() ==> (#[trigger] entries@[j]).0@ != name@
            },
            None => forall|j: int| 0 <= j < entries@.len() ==> (#[trigger] entries@[j]).0@ != name@,
        },
{
    let mut k: usize = entries.len();
    while k > 0
        invariant
            k <= entries@.len(),
            forall|j: int| k <= j < entries@.len() ==> (#[trigger] entries@[j]).0@ != name@,
        decreases k,
    {
        let key = &entries[k - 1].0;
        if str_eq(key.as_str(), name) {
            return Some(k - 1);
        }
        k = k - 1;
    }
    None
}

impl TypeEnv {
    /// The type of the variable `name`, if it is in scope.
    pub fn var_type(&self, name: &str) -> (r: Option<Type>)
        ensures
            r == lookup(self.model().vars, name@),
    {
        let ghost m = self.model().vars;
        match find_latest(&self.vars, name) {
            Some(i) => {
                proof {
                    assert forall|j: int| i < j < m.len() implies (#[trigger] m[j]).0 != name@ by {
                        assert(m[j].0 == self.vars@[j].0@);
                    }
                    lemma_lookup_latest(m, name@, i as int);
                }
                Some(self.vars[i].1.duplicate())
            },
            None => {
                proof {
                    assert forall|j: int| 0 <= j < m.len() implies (#[trigger] m[j]).0 != name@ by {
                        assert(m[j].0 == self.vars@[j].0@);
                    }
                    lemma_lookup_none(m, name@);
                }
                None
            },
        }
    }

    /// The index of the latest entry for the function `name`, if it is in
    /// scope.
    pub fn func_index(&self, name: &str) -> (r: Option<usize>)
        ensures
            match r {
                Some(i) => i < self.funcs@.len() && lookup(self.model().funcs, name@) == Some(
                    (self.funcs@[i as int].1.params@, self.funcs@[i as int].1.ret),
                ),
                None => lookup(self.model().funcs, name@).is_none(),
            },
    {
        let ghost m = self.model().funcs;
        match find_latest(&self.funcs, name) {
            Some(i) => {
                proof {
                    assert forall|j: int| i < j < m.len() implies (#[trigger] m[j]).0 != name@ by {
                        assert(m[j].0 == self.funcs@[j].0@);
                    }
                    lemma_lookup_latest(m, name@, i as int);
                }
                Some(i)
            },
            None => {
                proof {
                    assert forall|j: int| 0 <= j < m.len() implies (#[trigger] m[j]).0 != name@ by {
                        assert(m[j].0 == self.funcs@[j].0@);
                    }
                    lemma_lookup_none(m, name@);
                }
                None
            },
        }
    }

    /// The index of the latest entry for the procedure `name`, if it is in
    /// scope.
    pub fn proc_index(&self, name: &str) -> (r: Option<usize>)
        ensures
            match r {
                Some(i) => i < self.procs@.len() && lookup(self.model().procs, name@) == Some(
                    self.procs@[i as int].1.params@,
                ),
                None => lookup(self.model().procs, name@).is_none(),
            },
    {
        let ghost m = self.model().procs;
        match find_latest(&self.procs, name) {
            Some(i) => {
                proof {
                    assert forall|j: int| i < j < m.len() implies (#[trigger] m[j]).0 != name@ by {
                        assert(m[j].0 == self.procs@[j].0@);
                    }
                    lemma_lookup_latest(m, name@, i as int);
                }
                Some(i)
            },
            None => {
                proof {
                    assert forall|j: int| 0 <= j < m.len() implies (#[trigger] m[j]).0 != name@ by {
                        assert(m[j].0 == self.procs@[j].0@);
                    }
                    lemma_lookup_none(m, name@);
                }
                None
            },
        }
    }
}

} // verus!
