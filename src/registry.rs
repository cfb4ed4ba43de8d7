//! The function-call registry: the names of the functions that generated
//! content may call, each bound to a handler by its position. Built once at
//! start-up and never changed.

use vstd::prelude::*;

verus! {

/// The registered function names; the handler of a name is the one at the
/// same position.
#[derive(Debug)]
pub struct FunctionRegistry {
    names: Vec<String>,
}

/// The position of the first name of `names` equal to `name`, or -1.
pub open spec fn position_of(names: Seq<Seq<char>>, name: Seq<char>) -> int
    decreases names.len(),
{
    if names.len() == 0 {
        -1
    } else if names.last() == name && position_of(names.drop_last(), name) < 0 {
        names.len() - 1
    } else {
        position_of(names.drop_last(), name)
    }
}

pub proof fn lemma_position_of(names: Seq<Seq<char>>, name: Seq<char>)
    ensures
        -1 <= position_of(names, name) < names.len(),
        position_of(names, name) >= 0 ==> names[position_of(names, name)] == name,
        forall|j: int| 0 <= j < names.len() && (position_of(names, name) < 0 || j < position_of(names, name))
            ==> names[j] != name,
    decreases names.len(),
{
    if names.len() > 0 {
        let t = names.drop_last();
        lemma_position_of(t, name);
        assert forall|j: int| 0 <= j < names.len() && (position_of(names, name) < 0 || j < position_of(names, name))
            implies names[j] != name by {
            if j < names.len() - 1 {
                assert(t[j] == names[j]);
            }
        }
    }
}

impl FunctionRegistry {
    /// The registered names, in registration order.
    pub closed spec fn view(&self) -> Seq<Seq<char>> {
        self.names@.map_values(|s: String| s@)
    }

    /// The registry of the given names.
    pub fn new(names: Vec<String>) -> (r: Self)
        ensures
            r@ == names@.map_values(|s: String| s@),
    {
        FunctionRegistry { names }
    }

    pub fn len(&self) -> (r: usize)
        ensures
            r == self@.len(),
    {
        self.names.len()
    }

    /// The handler position of `name`: that of the first registration of it.
    /// A name that was never registered is refused.
    pub fn lookup(&self, name: &String) -> (r: Option<usize>)
        ensures
            r is None <==> position_of(self@, name@) < 0,
            r matches Some(i) ==> i == position_of(self@, name@),
            r matches Some(i) ==> self@[i as int] == name@,
    {
        proof {
            lemma_position_of(self@, name@);
        }
        let mut i: usize = 0;
        while i < self.names.len()
            invariant
                i <= self@.len(),
                self@.len() == self.names@.len(),
                -1 <= position_of(self@, name@) < self@.len(),
                position_of(self@, name@) >= 0 ==> self@[position_of(self@, name@)] == name@,
                forall|j: int| 0 <= j < self@.len() && (position_of(self@, name@) < 0 || j < position_of(self@, name@))
                    ==> self@[j] != name@,
                position_of(self@, name@) < 0 || i <= position_of(self@, name@),
            decreases self@.len() - i,
        {
            proof {
                assert(self@[i as int] == self.names@[i as int]@);
            }
            if self.names[i] == *name {
                return Some(i);
            }
            i = i + 1;
        }
        None
    }
}

} // verus!
