//! Variables: the ambient environment and the mappings derived from it.

use vstd::prelude::*;
use vstd::string::*;
use super::text::{
    lemma_precedes_asymmetric,
    lemma_precedes_irreflexive,
    lemma_precedes_transitive,
    precedes,
    rank,
    to_chars,
    Rank,
};

verus! {

/// A name with the value bound to it.
pub type Binding = (Seq<char>, Seq<char>);

/// Whether the names of `b` strictly ascend in the order of `str`.
pub open spec fn ascending(b: Seq<Binding>) -> bool {
    forall|i: int, j: int| #![trigger b[i], b[j]] 0 <= i < j < b.len() ==> precedes(b[i].0, b[j].0)
}

/// Whether position `i` of `b` binds `name`.
pub open spec fn binds_at(b: Seq<Binding>, name: Seq<char>, i: int) -> bool {
    0 <= i < b.len() && b[i].0 == name
}

/// The mapping that the bindings of `b` make up.
pub open spec fn bindings_map(b: Seq<Binding>) -> Map<Seq<char>, Seq<char>> {
    Map::new(
        |name: Seq<char>| exists|i: int| binds_at(b, name, i),
        |name: Seq<char>| b[choose|i: int| binds_at(b, name, i)].1,
    )
}

/// The bindings of `m` by ascending name.
pub open spec fn sorted_bindings(m: Map<Seq<char>, Seq<char>>) -> Seq<Binding> {
    choose|b: Seq<Binding>| ascending(b) && bindings_map(b) == m
}

/// In an ascending sequence every position is the only one with its name,
/// so the mapping holds exactly the value found there.
pub proof fn lemma_binding_at(b: Seq<Binding>, i: int)
    requires
        ascending(b),
        0 <= i < b.len(),
    ensures
        bindings_map(b).contains_key(b[i].0),
        bindings_map(b)[b[i].0] == b[i].1,
{
    assert(binds_at(b, b[i].0, i));
    let j = choose|j: int| binds_at(b, b[i].0, j);
    if j < i {
        lemma_precedes_asymmetric(b[j].0, b[i].0);
    } else if i < j {
        lemma_precedes_asymmetric(b[i].0, b[j].0);
    }
}

/// Dropping the last binding of an ascending sequence removes its name from
/// the mapping and changes nothing else.
pub proof fn lemma_drop_last_binding(b: Seq<Binding>)
    requires
        ascending(b),
        b.len() > 0,
    ensures
        ascending(b.drop_last()),
        bindings_map(b.drop_last()) == bindings_map(b).remove(b.last().0),
{
    let front = b.drop_last();
    let rest = bindings_map(b).remove(b.last().0);
    assert(ascending(front)) by {
        assert forall|i: int, j: int| #![trigger front[i], front[j]] 0 <= i < j < front.len()
            implies precedes(front[i].0, front[j].0) by {
            assert(precedes(b[i].0, b[j].0));
        }
    }
    let small = bindings_map(front);
    assert forall|name: Seq<char>| #[trigger] small.dom().contains(name) implies rest.dom().contains(
        name,
    ) && rest[name] == small[name] by {
        let i = choose|i: int| binds_at(front, name, i);
        assert(binds_at(b, name, i));
        assert(precedes(b[i].0, b[b.len() - 1].0));
        lemma_precedes_asymmetric(b[i].0, b.last().0);
        lemma_binding_at(front, i);
        lemma_binding_at(b, i);
    }
    assert forall|name: Seq<char>| #[trigger] rest.dom().contains(name) implies small.dom().contains(
        name,
    ) by {
        let i = choose|i: int| binds_at(b, name, i);
        assert(binds_at(front, name, i));
    }
    assert(bindings_map(front) =~= rest);
}

/// An ascending sequence makes up a finite mapping with one name for each
/// of its bindings.
pub proof fn lemma_bindings_count(b: Seq<Binding>)
    requires
        ascending(b),
    ensures
        bindings_map(b).dom().finite(),
        bindings_map(b).dom().len() == b.len(),
    decreases b.len(),
{
    if b.len() == 0 {
        assert(bindings_map(b).dom() =~= Set::<Seq<char>>::empty());
    } else {
        lemma_drop_last_binding(b);
        lemma_bindings_count(b.drop_last());
        lemma_binding_at(b, b.len() - 1);
        let front = bindings_map(b.drop_last()).dom();
        assert(bindings_map(b).dom() =~= front.insert(b.last().0));
    }
}

/// A mapping has at most one ascending sequence of bindings.
pub proof fn lemma_ascending_unique(b1: Seq<Binding>, b2: Seq<Binding>)
    requires
        ascending(b1),
        ascending(b2),
        bindings_map(b1) == bindings_map(b2),
    ensures
        b1 == b2,
    decreases b1.len(),
{
    if b1.len() == 0 {
        if b2.len() > 0 {
            lemma_binding_at(b2, 0);
            let i = choose|i: int| binds_at(b1, b2[0].0, i);
            assert(false);
        }
        assert(b1 =~= b2);
    } else {
        lemma_binding_at(b1, b1.len() - 1);
        let x = b1.last().0;
        let i2 = choose|i: int| binds_at(b2, x, i);
        assert(binds_at(b2, x, i2));
        lemma_binding_at(b2, b2.len() - 1);
        let y = b2.last().0;
        let i1 = choose|i: int| binds_at(b1, y, i);
        assert(binds_at(b1, y, i1));
        if i2 < b2.len() - 1 {
            assert(precedes(b2[i2].0, b2[b2.len() - 1].0));
            if i1 < b1.len() - 1 {
                assert(precedes(b1[i1].0, b1[b1.len() - 1].0));
                lemma_precedes_asymmetric(x, y);
            }
            lemma_precedes_asymmetric(x, y);
        }
        assert(x == y);
        assert(b1.last() == b2.last());
        lemma_drop_last_binding(b1);
        lemma_drop_last_binding(b2);
        lemma_ascending_unique(b1.drop_last(), b2.drop_last());
        assert(b1 =~= b1.drop_last().push(b1.last()));
        assert(b2 =~= b2.drop_last().push(b2.last()));
    }
}

/// An ascending sequence is the sorted form of the mapping it makes up.
pub proof fn lemma_sorted_bindings(b: Seq<Binding>)
    requires
        ascending(b),
    ensures
        sorted_bindings(bindings_map(b)) == b,
{
    let m = bindings_map(b);
    let c = sorted_bindings(m);
    assert(ascending(b) && bindings_map(b) == m);
    lemma_ascending_unique(c, b);
}

/// Replacing the value at a position rebinds its name and nothing else.
pub proof fn lemma_update_binding(b: Seq<Binding>, i: int, value: Seq<char>)
    requires
        ascending(b),
        0 <= i < b.len(),
    ensures
        ascending(b.update(i, (b[i].0, value))),
        bindings_map(b.update(i, (b[i].0, value))) == bindings_map(b).insert(b[i].0, value),
{
    let c = b.update(i, (b[i].0, value));
    let want = bindings_map(b).insert(b[i].0, value);
    assert(ascending(c)) by {
        assert forall|x: int, y: int| #![trigger c[x], c[y]] 0 <= x < y < c.len() implies precedes(
            c[x].0,
            c[y].0,
        ) by {
            assert(precedes(b[x].0, b[y].0));
        }
    }
    let got = bindings_map(c);
    assert forall|name: Seq<char>| #[trigger] got.dom().contains(name) implies want.dom().contains(
        name,
    ) && want[name] == got[name] by {
        let j = choose|j: int| binds_at(c, name, j);
        assert(binds_at(b, name, j));
        lemma_binding_at(c, j);
        lemma_binding_at(b, j);
        if j < i {
            lemma_precedes_asymmetric(b[j].0, b[i].0);
        } else if i < j {
            lemma_precedes_asymmetric(b[i].0, b[j].0);
        }
    }
    assert forall|name: Seq<char>| #[trigger] want.dom().contains(name) implies got.dom().contains(
        name,
    ) by {
        if name == b[i].0 {
            assert(binds_at(c, name, i));
        } else {
            let j = choose|j: int| binds_at(b, name, j);
            assert(binds_at(c, name, j));
        }
    }
    assert(got =~= want);
}

/// Whether `name` belongs at position `i` of `b` and is not bound there.
pub open spec fn gap_at(b: Seq<Binding>, name: Seq<char>, i: int) -> bool {
    &&& 0 <= i <= b.len()
    &&& forall|j: int| #![trigger b[j]] 0 <= j < i ==> precedes(b[j].0, name)
    &&& i < b.len() ==> precedes(name, b[i].0)
}

/// A name that belongs in a gap of an ascending sequence is not bound.
pub proof fn lemma_gap_unbound(b: Seq<Binding>, name: Seq<char>, i: int)
    requires
        ascending(b),
        gap_at(b, name, i),
    ensures
        !bindings_map(b).contains_key(name),
{
    if bindings_map(b).contains_key(name) {
        let j = choose|j: int| binds_at(b, name, j);
        lemma_precedes_irreflexive(name);
        if j < i {
            assert(precedes(b[j].0, name));
        } else if j == i {
        } else {
            assert(precedes(b[i].0, b[j].0));
            lemma_precedes_transitive(name, b[i].0, b[j].0);
        }
    }
}

/// Putting a binding into its gap keeps the order and adds it to the mapping.
pub proof fn lemma_insert_binding(b: Seq<Binding>, i: int, name: Seq<char>, value: Seq<char>)
    requires
        ascending(b),
        gap_at(b, name, i),
    ensures
        ascending(b.insert(i, (name, value))),
        bindings_map(b.insert(i, (name, value))) == bindings_map(b).insert(name, value),
{
    let c = b.insert(i, (name, value));
    let want = bindings_map(b).insert(name, value);
    assert(ascending(c)) by {
        assert forall|x: int, y: int| #![trigger c[x], c[y]] 0 <= x < y < c.len() implies precedes(
            c[x].0,
            c[y].0,
        ) by {
            if y < i {
                assert(precedes(b[x].0, b[y].0));
            } else if y == i {
                assert(precedes(b[x].0, name));
            } else if x < i {
                assert(precedes(b[x].0, b[y - 1].0));
            } else if x == i {
                if y - 1 > i {
                    assert(precedes(b[i].0, b[y - 1].0));
                    lemma_precedes_transitive(name, b[i].0, b[y - 1].0);
                }
            } else {
                assert(precedes(b[x - 1].0, b[y - 1].0));
            }
        }
    }
    lemma_gap_unbound(b, name, i);
    let got = bindings_map(c);
    assert forall|other: Seq<char>| #[trigger] got.dom().contains(other) implies want.dom().contains(
        other,
    ) && want[other] == got[other] by {
        let j = choose|j: int| binds_at(c, other, j);
        lemma_binding_at(c, j);
        if j < i {
            assert(binds_at(b, other, j));
            lemma_binding_at(b, j);
        } else if j > i {
            assert(binds_at(b, other, j - 1));
            lemma_binding_at(b, j - 1);
        }
    }
    assert forall|other: Seq<char>| #[trigger] want.dom().contains(other) implies got.dom().contains(
        other,
    ) by {
        if other == name {
            assert(binds_at(c, other, i));
        } else {
            let j = choose|j: int| binds_at(b, other, j);
            if j < i {
                assert(binds_at(c, other, j));
            } else {
                assert(binds_at(c, other, j + 1));
            }
        }
    }
    assert(got =~= want);
}

/// One stored variable.
#[derive(Debug, PartialEq, Eq)]
pub struct Variable {
    pub name: String,
    pub value: String,
}

/// The bindings that a run of stored variables stands for.
pub open spec fn pairs(entries: Seq<Variable>) -> Seq<Binding> {
    Seq::new(entries.len(), |i: int| (entries[i].name@, entries[i].value@))
}

/// Where `name` is bound in `entries`, or the gap in which it belongs.
fn locate(entries: &Vec<Variable>, name: &Vec<char>) -> (r: (usize, bool))
    requires
        ascending(pairs(entries@)),
    ensures
        r.1 ==> binds_at(pairs(entries@), name@, r.0 as int),
        !r.1 ==> gap_at(pairs(entries@), name@, r.0 as int),
{
    let ghost b = pairs(entries@);
    let mut i: usize = 0;
    while i < entries.len()
        invariant
            i <= entries.len(),
            b == pairs(entries@),
            ascending(b),
            forall|j: int| #![trigger b[j]] 0 <= j < i ==> precedes(b[j].0, name@),
        decreases entries.len() - i,
    {
        let here = to_chars(entries[i].name.as_str());
        match rank(&here, name) {
            Rank::Before => {
                assert(precedes(b[i as int].0, name@));
            },
            Rank::Same => {
                return (i, true);
            },
            Rank::After => {
                assert(precedes(name@, b[i as int].0));
                return (i, false);
            },
        }
        i = i + 1;
    }
    (i, false)
}

/// A mapping from variable names to values, kept by ascending name.
#[derive(Debug, PartialEq, Eq)]
pub struct EnvironmentVariables {
    entries: Vec<Variable>,
}

impl View for EnvironmentVariables {
    type V = Map<Seq<char>, Seq<char>>;

    closed spec fn view(&self) -> Map<Seq<char>, Seq<char>> {
        bindings_map(pairs(self.entries@))
    }
}

impl DeepView for EnvironmentVariables {
    type V = Map<Seq<char>, Seq<char>>;

    open spec fn deep_view(&self) -> Map<Seq<char>, Seq<char>> {
        self@
    }
}

impl Clone for EnvironmentVariables {
    fn clone(&self) -> (r: EnvironmentVariables)
        ensures
            r@ == self@,
    {
        proof {
            use_type_invariant(self);
        }
        let mut entries: Vec<Variable> = Vec::new();
        let mut i: usize = 0;
        while i < self.entries.len()
            invariant
                i <= self.entries.len(),
                entries.len() == i,
                forall|j: int|
                    0 <= j < i ==> entries[j].name@ == self.entries[j].name@ && entries[j].value@
                        == self.entries[j].value@,
            decreases self.entries.len() - i,
        {
            entries.push(
                Variable {
                    name: self.entries[i].name.clone(),
                    value: self.entries[i].value.clone(),
                },
            );
            i = i + 1;
        }
        assert(pairs(entries@) =~= pairs(self.entries@));
        EnvironmentVariables { entries }
    }
}

impl EnvironmentVariables {
    /// The representation invariant: names strictly ascend, so none occurs
    /// twice.
    #[verifier::type_invariant]
    pub closed spec fn wf(&self) -> bool {
        ascending(pairs(self.entries@))
    }

    /// The stored bindings are the sorted bindings of the view.
    pub proof fn lemma_sorted(&self)
        requires
            self.wf(),
        ensures
            ascending(sorted_bindings(self@)),
            bindings_map(sorted_bindings(self@)) == self@,
    {
        lemma_sorted_bindings(pairs(self.entries@));
    }

    /// The mapping without any variable.
    pub fn new() -> (r: EnvironmentVariables)
        ensures
            r@ == Map::<Seq<char>, Seq<char>>::empty(),
            r.wf(),
    {
        let r = EnvironmentVariables { entries: Vec::new() };
        assert(r@ =~= Map::<Seq<char>, Seq<char>>::empty());
        r
    }

    /// The number of variables.
    pub fn len(&self) -> (r: usize)
        ensures
            self@.dom().finite(),
            r == self@.len(),
            r == sorted_bindings(self@).len(),
    {
        proof {
            use_type_invariant(self);
            lemma_sorted_bindings(pairs(self.entries@));
            lemma_bindings_count(pairs(self.entries@));
        }
        self.entries.len()
    }

    /// The variable at position `i` by ascending name, if there are that
    /// many.
    pub fn binding(&self, i: usize) -> (r: Option<(&String, &String)>)
        ensures
            match r {
                Some((name, value)) => i < sorted_bindings(self@).len() && (name@, value@)
                    == sorted_bindings(self@)[i as int],
                None => i >= sorted_bindings(self@).len(),
            },
    {
        proof {
            use_type_invariant(self);
            lemma_sorted_bindings(pairs(self.entries@));
        }
        if i < self.entries.len() {
            Some((&self.entries[i].name, &self.entries[i].value))
        } else {
            None
        }
    }

    /// The value bound to `name`, if any.
    pub fn get(&self, name: &str) -> (r: Option<&String>)
        ensures
            match r {
                Some(value) => self@.contains_key(name@) && self@[name@] == value@,
                None => !self@.contains_key(name@),
            },
    {
        proof {
            use_type_invariant(self);
        }
        let chars = to_chars(name);
        let (i, found) = locate(&self.entries, &chars);
        if found {
            proof {
                lemma_binding_at(pairs(self.entries@), i as int);
            }
            Some(&self.entries[i].value)
        } else {
            proof {
                lemma_gap_unbound(pairs(self.entries@), name@, i as int);
            }
            None
        }
    }

    /// Whether `name` is bound.
    pub fn contains_key(&self, name: &str) -> (r: bool)
        ensures
            r == self@.contains_key(name@),
    {
        self.get(name).is_some()
    }

    /// Binds `name` to `value`, replacing an earlier value of that name.
    pub fn insert(&mut self, name: String, value: String)
        ensures
            final(self)@ == old(self)@.insert(name@, value@),
            final(self).wf(),
    {
        proof {
            use_type_invariant(&*self);
        }
        let mut entries: Vec<Variable> = Vec::new();
        std::mem::swap(&mut entries, &mut self.entries);
        let ghost before = pairs(entries@);
        let chars = to_chars(name.as_str());
        let (i, found) = locate(&entries, &chars);
        let ghost binding = (name@, value@);
        if found {
            entries.set(i, Variable { name, value });
            proof {
                lemma_update_binding(before, i as int, binding.1);
                assert(pairs(entries@) =~= before.update(i as int, binding));
            }
        } else {
            entries.insert(i, Variable { name, value });
            proof {
                lemma_insert_binding(before, i as int, binding.0, binding.1);
                assert(pairs(entries@) =~= before.insert(i as int, binding));
            }
        }
        self.entries = entries;
    }

    /// This mapping overlaid with `supplied`: on a name that both bind, the
    /// value of `supplied` stands.
    pub fn merged(&self, supplied: &EnvironmentVariables) -> (r: EnvironmentVariables)
        ensures
            r@ == self@.union_prefer_right(supplied@),
            r.wf(),
    {
        proof {
            use_type_invariant(self);
            use_type_invariant(supplied);
        }
        let mut out = self.clone();
        let ghost b = pairs(supplied.entries@);
        let mut i: usize = 0;
        assert(bindings_map(b.take(0)) =~= Map::<Seq<char>, Seq<char>>::empty());
        assert(self@.union_prefer_right(Map::<Seq<char>, Seq<char>>::empty()) =~= self@);
        while i < supplied.entries.len()
            invariant
                i <= supplied.entries.len(),
                b == pairs(supplied.entries@),
                ascending(b),
                out@ == self@.union_prefer_right(bindings_map(b.take(i as int))),
            decreases supplied.entries.len() - i,
        {
            let name = supplied.entries[i].name.clone();
            let value = supplied.entries[i].value.clone();
            proof {
                let next = b.take(i + 1);
                assert(ascending(next)) by {
                    assert forall|x: int, y: int|
                        #![trigger next[x], next[y]]
                        0 <= x < y < next.len() implies precedes(next[x].0, next[y].0) by {
                        assert(precedes(b[x].0, b[y].0));
                    }
                }
                lemma_drop_last_binding(next);
                assert(next.drop_last() =~= b.take(i as int));
                lemma_binding_at(next, i as int);
                assert(bindings_map(next) =~= bindings_map(b.take(i as int)).insert(
                    name@,
                    value@,
                ));
                assert(self@.union_prefer_right(bindings_map(next)) =~= self@.union_prefer_right(
                    bindings_map(b.take(i as int)),
                ).insert(name@, value@));
            }
            out.insert(name, value);
            i = i + 1;
        }
        proof {
            assert(b.take(supplied.entries.len() as int) =~= b);
            use_type_invariant(&out);
        }
        out
    }
}

/// The ambient variables that a build starts from.
#[derive(Debug, PartialEq, Eq)]
pub struct Environment {
    variables: EnvironmentVariables,
}

impl View for Environment {
    type V = Map<Seq<char>, Seq<char>>;

    closed spec fn view(&self) -> Map<Seq<char>, Seq<char>> {
        self.variables@
    }
}

impl Environment {
    /// The environment that holds exactly `variables`.
    pub fn new(variables: EnvironmentVariables) -> (r: Environment)
        ensures
            r@ == variables@,
    {
        Environment { variables }
    }

    /// The value of the variable `name`, if it is set.
    pub fn get_variable(&self, name: &str) -> (r: Option<&String>)
        ensures
            match r {
                Some(value) => self@.contains_key(name@) && self@[name@] == value@,
                None => !self@.contains_key(name@),
            },
    {
        self.variables.get(name)
    }

    /// A copy of all variables of `env`, independent of it.
    pub fn clone_variables(env: &Environment) -> (r: EnvironmentVariables)
        ensures
            r@ == env@,
    {
        env.variables.clone()
    }

    /// The variables of this environment overlaid with `supplied`: on a name
    /// that both bind, the value of `supplied` stands.
    pub fn merge_variables(&self, supplied: &EnvironmentVariables) -> (r: EnvironmentVariables)
        ensures
            r@ == self@.union_prefer_right(supplied@),
    {
        self.variables.merged(supplied)
    }
}

} // verus!
