//! The groups of a workspace: a map from group names to the requests of each
//! group, kept in the order of the names.

use vstd::prelude::*;
use vstd::string::*;
use crate::models::{ApiRequest, RequestType, RequestView};
use crate::text::{
    lemma_name_lt_irreflexive,
    lemma_name_lt_total,
    lemma_name_lt_transitive,
    name_lt,
    str_eq,
    str_lt,
};

verus! {

/// Why a group or a request could not be created.
#[derive(Clone, Copy, Debug, PartialEq, Eq, Structural)]
pub enum ValidationError {
    /// The name is empty.
    EmptyName,
    /// A group of that name exists already.
    DuplicateGroup,
    /// The group holds a request of that name already.
    DuplicateRequest,
    /// There is no group of that name.
    UnknownGroup,
}

/// What a vector of requests stands for.
pub open spec fn request_views(requests: Seq<ApiRequest>) -> Seq<RequestView> {
    requests.map_values(|r: ApiRequest| r@)
}

/// Whether one of `requests` has the name `name`.
pub open spec fn has_request(requests: Seq<RequestView>, name: Seq<char>) -> bool {
    exists|i: int| 0 <= i < requests.len() && (#[trigger] requests[i]).name == name
}

/// The index of the first of `requests` that has the name `name`.
pub open spec fn first_request(requests: Seq<RequestView>, name: Seq<char>) -> int
    decreases requests.len(),
{
    if requests.len() == 0 {
        0
    } else if requests[0].name == name {
        0
    } else {
        1 + first_request(requests.drop_first(), name)
    }
}

/// `first_request` finds the first request of the name, where there is one.
pub proof fn lemma_first_request(requests: Seq<RequestView>, name: Seq<char>)
    ensures
        0 <= first_request(requests, name) <= requests.len(),
        forall|j: int| 0 <= j < first_request(requests, name) ==> (#[trigger] requests[j]).name != name,
        first_request(requests, name) < requests.len() ==> requests[first_request(requests, name)].name == name,
        has_request(requests, name) == (first_request(requests, name) < requests.len()),
    decreases requests.len(),
{
    if requests.len() > 0 && requests[0].name != name {
        let rest = requests.drop_first();
        lemma_first_request(rest, name);
        let f = first_request(rest, name);
        assert forall|j: int| 0 <= j < 1 + f implies (#[trigger] requests[j]).name != name by {
            if j > 0 {
                assert(rest[j - 1] == requests[j]);
            }
        }
        if f < rest.len() {
            assert(rest[f] == requests[f + 1]);
        }
        if has_request(requests, name) {
            let i = choose|i: int| 0 <= i < requests.len() && (#[trigger] requests[i]).name == name;
            assert(rest[i - 1] == requests[i]);
        }
    }
}

/// Each name comes strictly before the names after it.
pub open spec fn strictly_sorted(names: Seq<Seq<char>>) -> bool {
    forall|i: int, j: int|
        0 <= i < j < names.len() ==> name_lt(#[trigger] names[i], #[trigger] names[j])
}

/// The number of names of `names` that come strictly before `name`.
pub open spec fn rank(names: Seq<Seq<char>>, name: Seq<char>) -> int
    decreases names.len(),
{
    if names.len() == 0 {
        0
    } else if name_lt(names[0], name) {
        1 + rank(names.drop_first(), name)
    } else {
        rank(names.drop_first(), name)
    }
}

/// In a sorted sequence the names before `name` are exactly the first
/// `rank` names.
pub proof fn lemma_rank(names: Seq<Seq<char>>, name: Seq<char>)
    requires
        strictly_sorted(names),
    ensures
        0 <= rank(names, name) <= names.len(),
        forall|j: int| 0 <= j < rank(names, name) ==> name_lt(#[trigger] names[j], name),
        forall|j: int| rank(names, name) <= j < names.len() ==> !name_lt(#[trigger] names[j], name),
    decreases names.len(),
{
    if names.len() > 0 {
        let rest = names.drop_first();
        assert forall|i: int, j: int| 0 <= i < j < rest.len() implies name_lt(
            #[trigger] rest[i],
            #[trigger] rest[j],
        ) by {
            assert(rest[i] == names[i + 1] && rest[j] == names[j + 1]);
        }
        lemma_rank(rest, name);
        let r = rank(rest, name);
        if name_lt(names[0], name) {
            assert forall|j: int| 0 <= j < 1 + r implies name_lt(#[trigger] names[j], name) by {
                if j > 0 {
                    assert(rest[j - 1] == names[j]);
                }
            }
            assert forall|j: int| 1 + r <= j < names.len() implies !name_lt(
                #[trigger] names[j],
                name,
            ) by {
                assert(rest[j - 1] == names[j]);
            }
        } else {
            assert forall|j: int| 0 <= j < rest.len() implies !name_lt(#[trigger] rest[j], name) by {
                assert(rest[j] == names[j + 1]);
                if name_lt(rest[j], name) {
                    lemma_name_lt_transitive(names[0], names[j + 1], name);
                }
            }
            if r > 0 {
                assert(name_lt(rest[0], name));
            }
            assert forall|j: int| 0 <= j < names.len() implies !name_lt(#[trigger] names[j], name) by {
                if j > 0 {
                    assert(rest[j - 1] == names[j]);
                }
            }
        }
    }
}

/// `names` with `name` put in at its place in the order. A name that is
/// there already is not put in again.
pub open spec fn sorted_insert(names: Seq<Seq<char>>, name: Seq<char>) -> Seq<Seq<char>> {
    if names.contains(name) {
        names
    } else {
        names.insert(rank(names, name), name)
    }
}

/// `names` without `name`.
pub open spec fn sorted_remove(names: Seq<Seq<char>>, name: Seq<char>) -> Seq<Seq<char>> {
    if names.contains(name) {
        names.remove(names.index_of(name))
    } else {
        names
    }
}

/// Putting a name in at its place keeps a sorted sequence sorted, holds the
/// name exactly once, and holds the names that were there before.
pub proof fn lemma_sorted_insert(names: Seq<Seq<char>>, name: Seq<char>)
    requires
        strictly_sorted(names),
    ensures
        strictly_sorted(sorted_insert(names, name)),
        sorted_insert(names, name).contains(name),
        forall|other: Seq<char>|
            sorted_insert(names, name).contains(other) == (other == name || names.contains(other)),
        !names.contains(name) ==> sorted_insert(names, name).len() == names.len() + 1
            && sorted_insert(names, name)[rank(names, name)] == name,
{
    let after = sorted_insert(names, name);
    if !names.contains(name) {
        lemma_rank(names, name);
        let at = rank(names, name);
        assert forall|j: int| at <= j < names.len() implies name_lt(name, #[trigger] names[j]) by {
            assert(names.contains(names[j]));
            lemma_name_lt_total(names[j], name);
        }
        assert forall|i: int, j: int| 0 <= i < j < after.len() implies name_lt(
            #[trigger] after[i],
            #[trigger] after[j],
        ) by {
            let a = if i < at { i } else { i - 1 };
            let b = if j < at { j } else { j - 1 };
            if i != at && j != at {
                assert(after[i] == names[a] && after[j] == names[b]);
            } else if i == at {
                assert(after[j] == names[b]);
            } else {
                assert(after[i] == names[a]);
            }
        }
        assert(after[at] == name);
        assert forall|other: Seq<char>| after.contains(other) == (other == name || names.contains(
            other,
        )) by {
            if after.contains(other) {
                let i = after.index_of(other);
                if i != at {
                    let a = if i < at { i } else { i - 1 };
                    assert(after[i] == names[a]);
                }
            }
            if names.contains(other) {
                let a = names.index_of(other);
                let i = if a < at { a } else { a + 1 };
                assert(after[i] == names[a]);
            }
        }
    }
}

/// Within a sorted sequence no name occurs twice.
pub proof fn lemma_sorted_distinct(names: Seq<Seq<char>>)
    requires
        strictly_sorted(names),
    ensures
        forall|i: int, j: int|
            0 <= i < names.len() && 0 <= j < names.len() && i != j ==> #[trigger] names[i]
                != #[trigger] names[j],
{
    assert forall|i: int, j: int|
        0 <= i < names.len() && 0 <= j < names.len() && i != j implies #[trigger] names[i]
        != #[trigger] names[j] by {
        lemma_name_lt_irreflexive(names[i]);
        if i < j {
            assert(name_lt(names[i], names[j]));
        } else {
            assert(name_lt(names[j], names[i]));
        }
    }
}

/// Taking a name out keeps a sorted sequence sorted and drops that name
/// alone.
pub proof fn lemma_sorted_remove(names: Seq<Seq<char>>, name: Seq<char>)
    requires
        strictly_sorted(names),
    ensures
        strictly_sorted(sorted_remove(names, name)),
        forall|other: Seq<char>|
            sorted_remove(names, name).contains(other) == (other != name && names.contains(other)),
{
    let after = sorted_remove(names, name);
    lemma_sorted_distinct(names);
    if names.contains(name) {
        let at = names.index_of(name);
        assert forall|i: int| 0 <= i < after.len() implies #[trigger] after[i] == names[if i < at {
            i
        } else {
            i + 1
        }] by {}
        assert forall|i: int, j: int| 0 <= i < j < after.len() implies name_lt(
            #[trigger] after[i],
            #[trigger] after[j],
        ) by {
            let a = if i < at { i } else { i + 1 };
            let b = if j < at { j } else { j + 1 };
            assert(after[i] == names[a] && after[j] == names[b]);
        }
        assert forall|other: Seq<char>| after.contains(other) == (other != name && names.contains(
            other,
        )) by {
            if after.contains(other) {
                let i = after.index_of(other);
                let a = if i < at { i } else { i + 1 };
                assert(after[i] == names[a]);
            }
            if other != name && names.contains(other) {
                let a = names.index_of(other);
                let i = if a < at { a } else { a - 1 };
                assert(after[i] == names[a]);
            }
        }
    }
}

/// The place of the first request named `name` among `requests`.
pub fn request_position(requests: &Vec<ApiRequest>, name: &str) -> (r: Option<usize>)
    ensures
        match r {
            Some(i) => i < requests@.len() && requests@[i as int]@.name == name@ && i
                == first_request(request_views(requests@), name@) && has_request(
                request_views(requests@),
                name@,
            ),
            None => !has_request(request_views(requests@), name@),
        },
{
    proof {
        lemma_first_request(request_views(requests@), name@);
    }
    let mut i: usize = 0;
    while i < requests.len()
        invariant
            i <= requests@.len(),
            forall|j: int| 0 <= j < i ==> (#[trigger] request_views(requests@)[j]).name != name@,
        decreases requests@.len() - i,
    {
        if str_eq(requests[i].name.as_str(), name) {
            proof {
                lemma_first_request(request_views(requests@), name@);
                assert(request_views(requests@)[i as int].name == name@);
            }
            return Some(i);
        }
        i += 1;
    }
    None
}

/// What the rules say of creating a group named `name`.
pub open spec fn check_new_group(
    groups: Map<Seq<char>, Seq<RequestView>>,
    name: Seq<char>,
) -> Result<(), ValidationError> {
    if name.len() == 0 {
        Err(ValidationError::EmptyName)
    } else if groups.contains_key(name) {
        Err(ValidationError::DuplicateGroup)
    } else {
        Ok(())
    }
}

/// The names after the attempt to create a group named `name`.
pub open spec fn names_after_create(
    names: Seq<Seq<char>>,
    groups: Map<Seq<char>, Seq<RequestView>>,
    name: Seq<char>,
) -> Seq<Seq<char>> {
    if check_new_group(groups, name) is Ok {
        sorted_insert(names, name)
    } else {
        names
    }
}

/// The groups after the attempt to create a group named `name`.
pub open spec fn groups_after_create(
    groups: Map<Seq<char>, Seq<RequestView>>,
    name: Seq<char>,
) -> Map<Seq<char>, Seq<RequestView>> {
    if check_new_group(groups, name) is Ok {
        groups.insert(name, Seq::empty())
    } else {
        groups
    }
}

/// `name` stands at exactly one place of `names`.
pub open spec fn occurs_once(names: Seq<Seq<char>>, name: Seq<char>) -> bool {
    &&& names.contains(name)
    &&& forall|i: int, j: int|
        0 <= i < names.len() && 0 <= j < names.len() && #[trigger] names[i] == name
            && #[trigger] names[j] == name ==> i == j
}

/// What the rules say of creating a request named `name` in `group`.
pub open spec fn check_new_request(
    groups: Map<Seq<char>, Seq<RequestView>>,
    group: Seq<char>,
    name: Seq<char>,
) -> Result<(), ValidationError> {
    if name.len() == 0 {
        Err(ValidationError::EmptyName)
    } else if !groups.contains_key(group) {
        Err(ValidationError::UnknownGroup)
    } else if has_request(groups[group], name) {
        Err(ValidationError::DuplicateRequest)
    } else {
        Ok(())
    }
}

/// The groups after a request named `name` has left `group`: the first of
/// that name, where there is one.
pub open spec fn without_request(
    groups: Map<Seq<char>, Seq<RequestView>>,
    group: Seq<char>,
    name: Seq<char>,
) -> Map<Seq<char>, Seq<RequestView>> {
    if groups.contains_key(group) && has_request(groups[group], name) {
        groups.insert(group, groups[group].remove(first_request(groups[group], name)))
    } else {
        groups
    }
}

spec fn names_of(names: Seq<String>) -> Seq<Seq<char>> {
    names.map_values(|s: String| s@)
}

/// The groups of a workspace, by name. The `i`-th name belongs to the `i`-th
/// vector of requests.
#[derive(Debug)]
pub struct GroupList {
    group_names: Vec<String>,
    group_requests: Vec<Vec<ApiRequest>>,
}

impl View for GroupList {
    type V = Map<Seq<char>, Seq<RequestView>>;

    closed spec fn view(&self) -> Map<Seq<char>, Seq<RequestView>> {
        Map::new(
            |name: Seq<char>| self.names().contains(name),
            |name: Seq<char>| self.requests_at(self.names().index_of(name)),
        )
    }
}

impl GroupList {
    /// The names of the groups, in their order.
    pub closed spec fn names(&self) -> Seq<Seq<char>> {
        names_of(self.group_names@)
    }

    /// The requests of the `i`-th group in the order of the names.
    pub closed spec fn requests_at(&self, i: int) -> Seq<RequestView> {
        request_views(self.group_requests@[i]@)
    }

    /// The invariant of the type: the names are sorted, so none occurs twice.
    #[verifier::type_invariant]
    pub closed spec fn wf(&self) -> bool {
        &&& self.group_names@.len() == self.group_requests@.len()
        &&& strictly_sorted(self.names())
    }

    /// The names of a well-formed list are sorted.
    pub proof fn lemma_names_sorted(&self)
        requires
            self.wf(),
        ensures
            strictly_sorted(self.names()),
    {
    }

    /// How the mapping relates to the names and to the requests by index.
    pub proof fn lemma_view(&self)
        requires
            self.wf(),
        ensures
            forall|name: Seq<char>| self@.contains_key(name) == self.names().contains(name),
            forall|i: int|
                0 <= i < self.names().len() ==> self@.contains_key(#[trigger] self.names()[i])
                    && self@[self.names()[i]] == self.requests_at(i),
    {
        lemma_sorted_distinct(self.names());
        assert forall|i: int| 0 <= i < self.names().len() implies self@.contains_key(
            #[trigger] self.names()[i],
        ) && self@[self.names()[i]] == self.requests_at(i) by {
            let name = self.names()[i];
            assert(self.names().contains(name));
            let j = self.names().index_of(name);
            assert(self.names()[j] == self.names()[i]);
        }
    }

    pub fn new() -> (r: Self)
        ensures
            r@ == Map::<Seq<char>, Seq<RequestView>>::empty(),
            r.names() == Seq::<Seq<char>>::empty(),
    {
        let group_names: Vec<String> = Vec::new();
        proof {
            assert(names_of(group_names@) =~= Seq::<Seq<char>>::empty());
        }
        let r = GroupList { group_names, group_requests: Vec::new() };
        proof {
            assert(r@ =~= Map::<Seq<char>, Seq<RequestView>>::empty());
        }
        r
    }

    pub fn len(&self) -> (n: usize)
        ensures
            n == self.names().len(),
    {
        self.group_names.len()
    }

    pub fn is_empty(&self) -> (r: bool)
        ensures
            r == (self.names().len() == 0),
    {
        self.group_names.len() == 0
    }

    /// The place of the group `name` in the order of the names.
    pub fn position(&self, name: &str) -> (r: Option<usize>)
        ensures
            match r {
                Some(i) => i < self.names().len() && self.names()[i as int] == name@
                    && self@.contains_key(name@) && i == self.names().index_of(name@),
                None => !self@.contains_key(name@) && !self.names().contains(name@),
            },
    {
        proof {
            use_type_invariant(self);
        }
        let mut i: usize = 0;
        while i < self.group_names.len()
            invariant
                i <= self.group_names@.len(),
                self.wf(),
                forall|j: int| 0 <= j < i ==> #[trigger] self.names()[j] != name@,
            decreases self.group_names@.len() - i,
        {
            if str_eq(self.group_names[i].as_str(), name) {
                proof {
                    lemma_sorted_distinct(self.names());
                    assert(self.names()[i as int] == name@);
                    assert(self.names().contains(name@));
                    let c = self.names().index_of(name@);
                    assert(self.names()[c] == self.names()[i as int]);
                }
                return Some(i);
            }
            i += 1;
        }
        None
    }

    pub fn contains_key(&self, name: &str) -> (r: bool)
        ensures
            r == self@.contains_key(name@),
    {
        self.position(name).is_some()
    }

    /// The requests of the group `name`.
    pub fn get(&self, name: &str) -> (r: Option<&Vec<ApiRequest>>)
        ensures
            match r {
                Some(requests) => self@.contains_key(name@) && request_views(requests@)
                    == self@[name@],
                None => !self@.contains_key(name@),
            },
    {
        match self.position(name) {
            Some(i) => {
                proof {
                    use_type_invariant(self);
                }
                Some(&self.group_requests[i])
            },
            None => None,
        }
    }

    /// The name and the requests of the `i`-th group in the order of the
    /// names.
    pub fn get_index(&self, i: usize) -> (r: Option<(&String, &Vec<ApiRequest>)>)
        ensures
            match r {
                Some((name, requests)) => i < self.names().len() && name@ == self.names()[i as int]
                    && request_views(requests@) == self.requests_at(i as int)
                    && self@.contains_key(name@) && self@[name@] == request_views(requests@),
                None => i >= self.names().len(),
            },
    {
        proof {
            use_type_invariant(self);
            self.lemma_view();
        }
        if i < self.group_names.len() {
            proof {
                let name = self.names()[i as int];
                assert(name == self.group_names@[i as int]@);
                assert(self@.contains_key(name) && self@[name] == self.requests_at(i as int));
            }
            Some((&self.group_names[i], &self.group_requests[i]))
        } else {
            None
        }
    }

    /// The names of the groups, in their order.
    pub fn list_groups(&self) -> (r: Vec<String>)
        ensures
            r@.map_values(|s: String| s@) == self.names(),
            strictly_sorted(self.names()),
    {
        proof {
            use_type_invariant(self);
        }
        let mut names: Vec<String> = Vec::new();
        let mut i: usize = 0;
        while i < self.group_names.len()
            invariant
                i <= self.group_names@.len(),
                names@.len() == i,
                forall|j: int| 0 <= j < i ==> (#[trigger] names@[j])@ == self.names()[j],
            decreases self.group_names@.len() - i,
        {
            names.push(self.group_names[i].clone());
            i += 1;
        }
        proof {
            assert(names@.map_values(|s: String| s@) =~= self.names());
        }
        names
    }

    /// Lends out the requests of the group `name` for editing.
    pub fn get_mut(&mut self, name: &str) -> (r: Option<&mut Vec<ApiRequest>>)
        ensures
            match r {
                Some(requests) => old(self)@.contains_key(name@) && request_views(requests@)
                    == old(self)@[name@] && final(self).names() == old(self).names()
                    && final(self)@ == old(self)@.insert(name@, request_views(final(requests)@)),
                None => !old(self)@.contains_key(name@) && final(self)@ == old(self)@
                    && final(self).names() == old(self).names(),
            },
    {
        proof {
            use_type_invariant(&*self);
            self.lemma_view();
        }
        match self.position(name) {
            Some(i) => Some(&mut self.group_requests[i]),
            None => None,
        }
    }

    /// Binds the group `name` to `requests` and returns the requests that
    /// the group had. A new group takes its place in the order of the names.
    pub fn insert(&mut self, name: String, requests: Vec<ApiRequest>) -> (r: Option<
        Vec<ApiRequest>,
    >)
        ensures
            final(self)@ == old(self)@.insert(name@, request_views(requests@)),
            final(self).names() == sorted_insert(old(self).names(), name@),
            match r {
                Some(previous) => old(self)@.contains_key(name@) && request_views(previous@)
                    == old(self)@[name@],
                None => !old(self)@.contains_key(name@),
            },
    {
        proof {
            use_type_invariant(&*self);
            self.lemma_view();
            lemma_rank(self.names(), name@);
            lemma_sorted_insert(self.names(), name@);
            lemma_sorted_distinct(self.names());
        }
        let ghost before = *self;
        let mut taken = GroupList::new();
        std::mem::swap(self, &mut taken);
        let GroupList { mut group_names, mut group_requests } = taken;
        let mut i: usize = 0;
        while i < group_names.len() && str_lt(group_names[i].as_str(), name.as_str())
            invariant
                i <= group_names@.len(),
                forall|j: int| 0 <= j < i ==> name_lt(#[trigger] names_of(group_names@)[j], name@),
            decreases group_names@.len() - i,
        {
            i += 1;
        }
        proof {
            let at = rank(before.names(), name@);
            if i < at {
                assert(name_lt(before.names()[i as int], name@));
            }
            if at < i {
                assert(name_lt(before.names()[at], name@));
            }
            assert(i == at);
        }
        let found = i < group_names.len() && str_eq(group_names[i].as_str(), name.as_str());
        proof {
            if !found {
                if before.names().contains(name@) {
                    let k = before.names().index_of(name@);
                    lemma_name_lt_irreflexive(name@);
                    if k < i {
                        assert(name_lt(before.names()[k], name@));
                    } else if k > i {
                        assert(name_lt(before.names()[i as int], before.names()[k]));
                    }
                }
                assert(!before.names().contains(name@));
            } else {
                assert(before.names()[i as int] == name@);
                assert(before.names().contains(name@));
            }
        }
        let previous = if found {
            let mut requests = requests;
            std::mem::swap(&mut group_requests[i], &mut requests);
            Some(requests)
        } else {
            group_names.insert(i, name);
            group_requests.insert(i, requests);
            None
        };
        proof {
            assert(names_of(group_names@) =~= sorted_insert(before.names(), name@));
        }
        *self = GroupList { group_names, group_requests };
        proof {
            self.lemma_view();
            before.lemma_view();
            let at = i as int;
            assert forall|key: Seq<char>| self@.contains_key(key) implies #[trigger] self@[key]
                == before@.insert(name@, request_views(requests@))[key] by {
                let k = self.names().index_of(key);
                assert(self.names().contains(key));
                assert(self.names()[k] == key);
                assert(self@[self.names()[k]] == self.requests_at(k));
                if key != name@ {
                    if found {
                        assert(before.names()[k] == key);
                        assert(before@[before.names()[k]] == before.requests_at(k));
                    } else {
                        let b = if k < at { k } else { k - 1 };
                        assert(before.names()[b] == key);
                        assert(before@[before.names()[b]] == before.requests_at(b));
                    }
                } else {
                    assert(self.names()[at] == key);
                    lemma_sorted_distinct(self.names());
                    assert(k == at);
                }
            }
            assert(self@ =~= before@.insert(name@, request_views(requests@)));
        }
        previous
    }

    /// Drops the group `name` and returns the requests that it had.
    pub fn remove(&mut self, name: &str) -> (r: Option<Vec<ApiRequest>>)
        ensures
            final(self)@ == old(self)@.remove(name@),
            final(self).names() == sorted_remove(old(self).names(), name@),
            match r {
                Some(previous) => old(self)@.contains_key(name@) && request_views(previous@)
                    == old(self)@[name@],
                None => !old(self)@.contains_key(name@),
            },
    {
        proof {
            use_type_invariant(&*self);
            self.lemma_view();
            lemma_sorted_remove(self.names(), name@);
            lemma_sorted_distinct(self.names());
        }
        let ghost before = *self;
        match self.position(name) {
            Some(i) => {
                let mut taken = GroupList::new();
                std::mem::swap(self, &mut taken);
                let GroupList { mut group_names, mut group_requests } = taken;
                group_names.remove(i);
                let previous = group_requests.remove(i);
                proof {
                    assert(names_of(group_names@) =~= sorted_remove(before.names(), name@));
                }
                *self = GroupList { group_names, group_requests };
                proof {
                    self.lemma_view();
                    let at = i as int;
                    assert forall|key: Seq<char>| self@.contains_key(key) implies #[trigger] self@[key]
                        == before@.remove(name@)[key] by {
                        let k = self.names().index_of(key);
                        assert(self.names().contains(key));
                        assert(self.names()[k] == key);
                        assert(self@[self.names()[k]] == self.requests_at(k));
                        let b = if k < at { k } else { k + 1 };
                        assert(before.names()[b] == key);
                        assert(before@[before.names()[b]] == before.requests_at(b));
                    }
                    assert(self@ =~= before@.remove(name@));
                }
                Some(previous)
            },
            None => {
                proof {
                    assert(self@ =~= before@.remove(name@));
                }
                None
            },
        }
    }

    /// Creates an empty group, unless the name is empty or taken.
    pub fn create_group(&mut self, name: &str) -> (r: Result<(), ValidationError>)
        ensures
            r == check_new_group(old(self)@, name@),
            final(self)@ == groups_after_create(old(self)@, name@),
            final(self).names() == names_after_create(old(self).names(), old(self)@, name@),
    {
        if name.is_empty() {
            return Err(ValidationError::EmptyName);
        }
        if self.contains_key(name) {
            return Err(ValidationError::DuplicateGroup);
        }
        let requests: Vec<ApiRequest> = Vec::new();
        proof {
            assert(request_views(requests@) =~= Seq::empty());
        }
        self.insert(String::from_str(name), requests);
        Ok(())
    }

    /// Creates a request with nothing set at the end of a group, unless the
    /// name is empty, the group unknown or the name taken within the group.
    pub fn create_request(&mut self, group: &str, name: &str, method: RequestType) -> (r: Result<
        (),
        ValidationError,
    >)
        ensures
            r == check_new_request(old(self)@, group@, name@),
            r is Ok ==> final(self)@ == old(self)@.insert(
                group@,
                old(self)@[group@].push(ApiRequest::fresh(name@, method)),
            ),
            r is Err ==> final(self)@ == old(self)@,
            final(self).names() == old(self).names(),
    {
        if name.is_empty() {
            return Err(ValidationError::EmptyName);
        }
        match self.get_mut(group) {
            None => Err(ValidationError::UnknownGroup),
            Some(requests) => {
                if request_position(requests, name).is_some() {
                    proof {
                        assert(old(self)@.insert(group@, request_views(requests@)) =~= old(self)@);
                    }
                    Err(ValidationError::DuplicateRequest)
                } else {
                    let ghost before = requests@;
                    requests.push(ApiRequest::new(String::from_str(name), method));
                    proof {
                        assert(request_views(requests@) =~= request_views(before).push(
                            ApiRequest::fresh(name@, method),
                        ));
                    }
                    Ok(())
                }
            },
        }
    }

    /// Deletes a group with its requests. Returns whether there was one.
    pub fn delete_group(&mut self, name: &str) -> (r: bool)
        ensures
            r == old(self)@.contains_key(name@),
            final(self)@ == old(self)@.remove(name@),
            final(self).names() == sorted_remove(old(self).names(), name@),
    {
        self.remove(name).is_some()
    }

    /// Deletes the first request named `name` from `group`. Returns whether
    /// there was one.
    pub fn delete_request(&mut self, group: &str, name: &str) -> (r: bool)
        ensures
            r == (old(self)@.contains_key(group@) && has_request(old(self)@[group@], name@)),
            final(self)@ == without_request(old(self)@, group@, name@),
            final(self).names() == old(self).names(),
    {
        match self.get_mut(group) {
            None => false,
            Some(requests) => {
                match request_position(requests, name) {
                    Some(i) => {
                        let ghost before = requests@;
                        requests.remove(i);
                        proof {
                            assert(request_views(requests@) =~= request_views(before).remove(
                                i as int,
                            ));
                        }
                        true
                    },
                    None => {
                        proof {
                            assert(old(self)@.insert(group@, request_views(requests@)) =~= old(self)@);
                        }
                        false
                    },
                }
            },
        }
    }
}

/// After the attempt to create a group under a name that is not empty, the
/// list of names holds that name exactly once. A second attempt under the
/// same name is refused as a duplicate and leaves the names and the groups
/// as they were.
pub proof fn lemma_created_group_listed_once(list: GroupList, name: Seq<char>)
    requires
        list.wf(),
        name.len() > 0,
    ensures
        occurs_once(names_after_create(list.names(), list@, name), name),
        check_new_group(groups_after_create(list@, name), name) == Err::<(), ValidationError>(
            ValidationError::DuplicateGroup,
        ),
        names_after_create(
            names_after_create(list.names(), list@, name),
            groups_after_create(list@, name),
            name,
        ) == names_after_create(list.names(), list@, name),
        groups_after_create(groups_after_create(list@, name), name) == groups_after_create(
            list@,
            name,
        ),
{
    list.lemma_view();
    list.lemma_names_sorted();
    let names = names_after_create(list.names(), list@, name);
    lemma_sorted_insert(list.names(), name);
    lemma_sorted_distinct(names);
}

/// Deleting a group takes its name off the list of names, and the names
/// stay sorted.
pub proof fn lemma_deleted_group_not_listed(list: GroupList, name: Seq<char>)
    requires
        list.wf(),
    ensures
        !sorted_remove(list.names(), name).contains(name),
        strictly_sorted(sorted_remove(list.names(), name)),
        !list@.remove(name).contains_key(name),
{
    list.lemma_names_sorted();
    lemma_sorted_remove(list.names(), name);
}

/// No two of `requests` have the same name.
pub open spec fn unique_request_names(requests: Seq<RequestView>) -> bool {
    forall|i: int, j: int|
        0 <= i < requests.len() && 0 <= j < requests.len() && i != j ==> (
        #[trigger] requests[i]).name != (#[trigger] requests[j]).name
}

/// Within a group whose requests have distinct names, they still have after
/// a request has been created in it and after one has been deleted from it.
pub proof fn lemma_request_names_stay_unique(
    groups: Map<Seq<char>, Seq<RequestView>>,
    group: Seq<char>,
    name: Seq<char>,
    method: RequestType,
)
    requires
        groups.contains_key(group),
        unique_request_names(groups[group]),
    ensures
        check_new_request(groups, group, name) is Ok ==> unique_request_names(
            groups[group].push(ApiRequest::fresh(name, method)),
        ),
        unique_request_names(without_request(groups, group, name)[group]),
        !has_request(without_request(groups, group, name)[group], name),
{
    let before = groups[group];
    if check_new_request(groups, group, name) is Ok {
        let after = before.push(ApiRequest::fresh(name, method));
        assert forall|i: int, j: int|
            0 <= i < after.len() && 0 <= j < after.len() && i != j implies (
        #[trigger] after[i]).name != (#[trigger] after[j]).name by {
            if i < before.len() && j < before.len() {
                assert(after[i] == before[i] && after[j] == before[j]);
            } else if i < before.len() {
                assert(after[i] == before[i]);
            } else {
                assert(after[j] == before[j]);
            }
        }
    }
    lemma_first_request(before, name);
    if has_request(before, name) {
        let at = first_request(before, name);
        let after = before.remove(at);
        assert(without_request(groups, group, name)[group] == after);
        assert forall|i: int| 0 <= i < after.len() implies #[trigger] after[i] == before[if i < at {
            i
        } else {
            i + 1
        }] by {}
        assert forall|i: int, j: int|
            0 <= i < after.len() && 0 <= j < after.len() && i != j implies (
        #[trigger] after[i]).name != (#[trigger] after[j]).name by {
            let a = if i < at { i } else { i + 1 };
            let b = if j < at { j } else { j + 1 };
            assert(before[a].name != before[b].name);
        }
        if has_request(after, name) {
            let i = choose|i: int| 0 <= i < after.len() && (#[trigger] after[i]).name == name;
            let a = if i < at { i } else { i + 1 };
            assert(before[a].name == before[at].name);
        }
    }
}

} // verus!
