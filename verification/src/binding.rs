//! The table that maps the names of a program's storage blocks to the
//! binding points they are routed to.

use vstd::prelude::*;

verus! {

/// Why an entry was not added to a binding table.
#[derive(Clone, Copy, Debug, PartialEq, Eq, Structural)]
pub enum BindingError {
    /// The table already holds the name.
    DuplicateName,
    /// The table already routes another name to the binding point.
    Collision,
}

/// The table that a list of names and a list of points of the same length
/// stand for: entry `i` maps name `i` to point `i`.
pub open spec fn table_of(names: Seq<Seq<char>>, points: Seq<u32>) -> Map<Seq<char>, u32>
    decreases names.len(),
{
    if names.len() == 0 || names.len() != points.len() {
        Map::empty()
    } else {
        table_of(names.drop_last(), points.drop_last()).insert(names.last(), points.last())
    }
}

/// The names of a list of strings, as sequences of characters.
pub open spec fn views(names: Seq<String>) -> Seq<Seq<char>> {
    Seq::new(names.len(), |i: int| names[i]@)
}

/// No value occurs twice in `s`.
pub open spec fn distinct<T>(s: Seq<T>) -> bool {
    forall|i: int, j: int| 0 <= i < j < s.len() ==> s[i] != s[j]
}

/// In a table of distinct names, a name is present exactly if it is in the
/// list, and it maps to the point at the same position.
proof fn lemma_table_names(names: Seq<Seq<char>>, points: Seq<u32>, name: Seq<char>)
    requires
        names.len() == points.len(),
        distinct(names),
    ensures
        table_of(names, points).dom().contains(name) <==> names.contains(name),
        forall|i: int|
            0 <= i < names.len() && names[i] == name ==> table_of(names, points)[name]
                == #[trigger] points[i],
    decreases names.len(),
{
    if names.len() > 0 {
        let n0 = names.drop_last();
        let p0 = points.drop_last();
        lemma_table_names(n0, p0, name);
        if names.contains(name) {
            let i = choose|i: int| 0 <= i < names.len() && names[i] == name;
            if i < n0.len() {
                assert(n0[i] == name);
                assert(n0.contains(name));
            }
        }
        if n0.contains(name) {
            let i = choose|i: int| 0 <= i < n0.len() && n0[i] == name;
            assert(names[i] == name);
        }
        assert forall|i: int| 0 <= i < names.len() && names[i] == name implies table_of(
            names,
            points,
        )[name] == #[trigger] points[i] by {
            if i < n0.len() {
                assert(n0[i] == name);
                assert(p0[i] == points[i]);
                assert(names.last() != name);
            }
        }
    }
}

/// In a table of distinct names, a point is in use exactly if it is in the list.
proof fn lemma_table_points(names: Seq<Seq<char>>, points: Seq<u32>, point: u32)
    requires
        names.len() == points.len(),
        distinct(names),
    ensures
        table_of(names, points).contains_value(point) <==> points.contains(point),
{
    let t = table_of(names, points);
    if t.contains_value(point) {
        let n = choose|n: Seq<char>| t.dom().contains(n) && t[n] == point;
        lemma_table_names(names, points, n);
        let i = choose|i: int| 0 <= i < names.len() && names[i] == n;
        assert(points[i] == point);
    }
    if points.contains(point) {
        let i = choose|i: int| 0 <= i < points.len() && points[i] == point;
        lemma_table_names(names, points, names[i]);
        assert(names.contains(names[i]));
        assert(t.dom().contains(names[i]) && t[names[i]] == point);
    }
}

/// A program's binding table. No name occurs twice in it, and no two names
/// share a binding point.
#[derive(Debug)]
pub struct BindingTable {
    names: Vec<String>,
    points: Vec<u32>,
}

impl View for BindingTable {
    type V = Map<Seq<char>, u32>;

    closed spec fn view(&self) -> Map<Seq<char>, u32> {
        table_of(self.name_views(), self.points@)
    }
}

impl BindingTable {
    spec fn name_views(&self) -> Seq<Seq<char>> {
        views(self.names@)
    }

    #[verifier::type_invariant]
    spec fn wf(self) -> bool {
        &&& self.names@.len() == self.points@.len()
        &&& distinct(self.name_views())
        &&& distinct(self.points@)
    }

    /// No two names of `table` share a binding point.
    pub open spec fn injective(table: Map<Seq<char>, u32>) -> bool {
        forall|a: Seq<char>, b: Seq<char>|
            table.dom().contains(a) && table.dom().contains(b) && table[a] == table[b] ==> a == b
    }

    /// The reason for which `insert` turns an entry down, if there is one.
    pub open spec fn insert_error(&self, name: Seq<char>, point: u32) -> Option<BindingError> {
        if self@.dom().contains(name) {
            Some(BindingError::DuplicateName)
        } else if self@.contains_value(point) {
            Some(BindingError::Collision)
        } else {
            None
        }
    }

    /// What `resolve` returns for `name`.
    pub open spec fn spec_resolve(&self, name: Seq<char>) -> Option<u32> {
        if self@.dom().contains(name) {
            Some(self@[name])
        } else {
            None
        }
    }

    /// The empty table.
    pub fn new() -> (t: BindingTable)
        ensures
            t@ == Map::<Seq<char>, u32>::empty(),
    {
        BindingTable { names: Vec::new(), points: Vec::new() }
    }

    /// Number of entries.
    pub fn len(&self) -> (n: usize)
        ensures
            n == self@.dom().len(),
            self@.dom().finite(),
    {
        proof {
            use_type_invariant(self);
            self.lemma_dom_len();
        }
        self.names.len()
    }

    proof fn lemma_dom_len(&self)
        requires
            self.wf(),
        ensures
            self@.dom().finite(),
            self@.dom().len() == self.names@.len(),
    {
        Self::lemma_len_of(self.name_views(), self.points@);
    }

    proof fn lemma_len_of(names: Seq<Seq<char>>, points: Seq<u32>)
        requires
            names.len() == points.len(),
            distinct(names),
        ensures
            table_of(names, points).dom().finite(),
            table_of(names, points).dom().len() == names.len(),
        decreases names.len(),
    {
        if names.len() > 0 {
            Self::lemma_len_of(names.drop_last(), points.drop_last());
            lemma_table_names(names.drop_last(), points.drop_last(), names.last());
            if names.drop_last().contains(names.last()) {
                let i = choose|i: int|
                    0 <= i < names.drop_last().len() && names.drop_last()[i] == names.last();
                assert(names[i] == names[names.len() - 1]);
            }
        }
    }

    /// Looks a name up: the binding point it is routed to, if the table
    /// holds the name.
    pub fn resolve(&self, name: &String) -> (r: Option<u32>)
        ensures
            r == self.spec_resolve(name@),
            Self::injective(self@),
    {
        proof {
            use_type_invariant(self);
            self.lemma_injective();
        }
        let mut i: usize = 0;
        while i < self.names.len()
            invariant
                i <= self.names@.len(),
                self.wf(),
                Self::injective(self@),
                forall|j: int| 0 <= j < i ==> self.name_views()[j] != name@,
            decreases self.names@.len() - i,
        {
            if self.names[i] == *name {
                proof {
                    lemma_table_names(self.name_views(), self.points@, name@);
                    assert(self.name_views()[i as int] == name@);
                    assert(self.name_views().contains(name@));
                }
                return Some(self.points[i]);
            }
            i = i + 1;
        }
        proof {
            lemma_table_names(self.name_views(), self.points@, name@);
            assert(!self.name_views().contains(name@));
        }
        None
    }

    /// Tells whether some name is routed to `point`.
    pub fn uses_point(&self, point: u32) -> (r: bool)
        ensures
            r == self@.contains_value(point),
    {
        proof {
            use_type_invariant(self);
        }
        let mut i: usize = 0;
        while i < self.points.len()
            invariant
                i <= self.points@.len(),
                self.wf(),
                forall|j: int| 0 <= j < i ==> self.points@[j] != point,
            decreases self.points@.len() - i,
        {
            if self.points[i] == point {
                proof {
                    lemma_table_points(self.name_views(), self.points@, point);
                    assert(self.points@.contains(point));
                }
                return true;
            }
            i = i + 1;
        }
        proof {
            lemma_table_points(self.name_views(), self.points@, point);
            assert(!self.points@.contains(point));
        }
        false
    }

    /// Adds the entry that routes `name` to `point`, unless the table holds
    /// the name already or the point is taken. A table that turned an entry
    /// down is unchanged.
    pub fn insert(&mut self, name: String, point: u32) -> (r: Result<(), BindingError>)
        ensures
            match r {
                Ok(()) => {
                    &&& old(self).insert_error(name@, point) is None
                    &&& final(self)@ == old(self)@.insert(name@, point)
                },
                Err(e) => {
                    &&& old(self).insert_error(name@, point) == Some(e)
                    &&& final(self)@ == old(self)@
                },
            },
            Self::injective(old(self)@),
            Self::injective(final(self)@),
    {
        proof {
            use_type_invariant(&*self);
            self.lemma_injective();
        }
        if self.resolve(&name).is_some() {
            return Err(BindingError::DuplicateName);
        }
        if self.uses_point(point) {
            return Err(BindingError::Collision);
        }
        let ghost names0 = self.name_views();
        let ghost points0 = self.points@;
        proof {
            lemma_table_names(names0, points0, name@);
            lemma_table_points(names0, points0, point);
        }
        let mut taken = BindingTable::new();
        core::mem::swap(&mut taken, self);
        let mut names: Vec<String> = taken.names;
        let mut points: Vec<u32> = taken.points;
        names.push(name);
        points.push(point);
        proof {
            let names1 = views(names@);
            let points1 = points@;
            assert(names1 =~= names0.push(name@));
            assert(names1.drop_last() =~= names0);
            assert(points1.drop_last() =~= points0);
            assert(distinct(names1)) by {
                assert forall|i: int, j: int| 0 <= i < j < names1.len() implies names1[i]
                    != names1[j] by {
                    if j == names0.len() {
                        assert(names0[i] == names1[i]);
                        assert(names0.contains(names0[i]));
                    } else {
                        assert(names0[i] != names0[j]);
                    }
                }
            }
            assert(distinct(points1)) by {
                assert forall|i: int, j: int| 0 <= i < j < points1.len() implies points1[i]
                    != points1[j] by {
                    if j == points0.len() {
                        assert(points0[i] == points1[i]);
                        assert(points0.contains(points0[i]));
                    } else {
                        assert(points0[i] != points0[j]);
                    }
                }
            }
        }
        let t = BindingTable { names, points };
        proof {
            t.lemma_injective();
        }
        *self = t;
        Ok(())
    }

    proof fn lemma_injective(&self)
        requires
            self.wf(),
        ensures
            Self::injective(self@),
    {
        let names = self.name_views();
        let points = self.points@;
        assert forall|a: Seq<char>, b: Seq<char>|
            self@.dom().contains(a) && self@.dom().contains(b) && self@[a] == self@[b] implies a
            == b by {
            lemma_table_names(names, points, a);
            lemma_table_names(names, points, b);
            let i = choose|i: int| 0 <= i < names.len() && names[i] == a;
            let j = choose|j: int| 0 <= j < names.len() && names[j] == b;
            assert(points[i] == self@[a]);
            assert(points[j] == self@[b]);
            if i < j {
                assert(points[i] != points[j]);
            } else if j < i {
                assert(points[j] != points[i]);
            }
        }
    }
}

} // verus!
