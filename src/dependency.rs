//! Tracked dependencies, their update policy, and the registry that holds them.
use vstd::prelude::*;
use vstd::string::*;
use crate::text::str_eq;

verus! {

/// When an update request fetches a dependency again.
#[derive(Debug, Clone, Copy, PartialEq, Eq, Structural)]
pub enum UpdateType {
    /// Overwrite the target on every update request.
    Always,
    /// Never touch the target on an update request.
    Never,
    /// Overwrite the target only when the fetched content differs from it.
    OnChange,
}

/// The policy that a token names: `always` and `never` name theirs, and any
/// other token names `OnChange`.
pub open spec fn update_type_of(token: Seq<char>) -> UpdateType {
    if token == "always"@ {
        UpdateType::Always
    } else if token == "never"@ {
        UpdateType::Never
    } else {
        UpdateType::OnChange
    }
}

/// The token under which a policy is stored.
pub open spec fn token_of(update: UpdateType) -> Seq<char> {
    match update {
        UpdateType::Always => "always"@,
        UpdateType::Never => "never"@,
        UpdateType::OnChange => "on_change"@,
    }
}

impl UpdateType {
    /// Reads a policy from its token; an unknown token gives `OnChange`.
    pub fn from_str(value: &str) -> (r: Self)
        ensures
            r == update_type_of(value@),
    {
        if str_eq(value, "always") {
            UpdateType::Always
        } else if str_eq(value, "never") {
            UpdateType::Never
        } else {
            UpdateType::OnChange
        }
    }

    /// The token under which this policy is stored.
    pub fn token(&self) -> (r: String)
        ensures
            r@ == token_of(*self),
    {
        match self {
            UpdateType::Always => String::from_str("always"),
            UpdateType::Never => String::from_str("never"),
            UpdateType::OnChange => String::from_str("on_change"),
        }
    }
}

/// Reading back the token of a policy gives the same policy.
pub proof fn lemma_token_round_trip(update: UpdateType)
    ensures
        update_type_of(token_of(update)) == update,
{
    reveal_strlit("always");
    reveal_strlit("never");
    reveal_strlit("on_change");
    assert("always"@[0] == 'a');
    assert("never"@[0] == 'n');
    assert("on_change"@[0] == 'o');
}

/// A tracked file: where its content comes from and where it is written.
#[derive(Debug)]
pub struct Dependency {
    /// The key under which the registry finds it.
    pub name: String,
    /// A local path or a URI to download.
    pub uri: String,
    /// Where the content is written.
    pub path: String,
    /// Whether `uri` is a local path.
    pub local: bool,
    pub update: UpdateType,
}

/// What a dependency holds, as plain values.
pub struct DependencyView {
    pub name: Seq<char>,
    pub uri: Seq<char>,
    pub path: Seq<char>,
    pub local: bool,
    pub update: UpdateType,
}

impl View for Dependency {
    type V = DependencyView;

    open spec fn view(&self) -> DependencyView {
        DependencyView {
            name: self.name@,
            uri: self.uri@,
            path: self.path@,
            local: self.local,
            update: self.update,
        }
    }
}

/// The registry: the tracked dependencies, in the order they were added.
#[derive(Debug)]
pub struct Configuration {
    pub dependencies: Vec<Dependency>,
}

impl View for Configuration {
    type V = Seq<DependencyView>;

    open spec fn view(&self) -> Seq<DependencyView> {
        Seq::new(self.dependencies@.len(), |i: int| self.dependencies@[i]@)
    }
}

/// No two dependencies share a name.
pub open spec fn names_unique(deps: Seq<DependencyView>) -> bool {
    forall|i: int, j: int|
        0 <= i < deps.len() && 0 <= j < deps.len() && i != j ==> deps[i].name != deps[j].name
}

/// Some dependency bears this name.
pub open spec fn has_named(deps: Seq<DependencyView>, name: Seq<char>) -> bool {
    exists|i: int| 0 <= i < deps.len() && deps[i].name == name
}

/// `i` is the first position whose dependency bears this name.
pub open spec fn is_first_named(deps: Seq<DependencyView>, name: Seq<char>, i: int) -> bool {
    &&& 0 <= i < deps.len()
    &&& deps[i].name == name
    &&& forall|j: int| 0 <= j < i ==> deps[j].name != name
}

/// The dependency `d` with its source replaced.
pub open spec fn with_uri(d: DependencyView, uri: Seq<char>) -> DependencyView {
    DependencyView { name: d.name, uri, path: d.path, local: d.local, update: d.update }
}

impl Configuration {
    /// A registry with no dependency.
    pub fn new() -> (r: Self)
        ensures
            r@ == Seq::<DependencyView>::empty(),
    {
        let r = Configuration { dependencies: Vec::new() };
        assert(r@ =~= Seq::<DependencyView>::empty());
        r
    }

    /// The first position of a dependency with this name, if any.
    fn position_of(&self, name: &str) -> (r: Option<usize>)
        ensures
            match r {
                Some(i) => is_first_named(self@, name@, i as int),
                None => !has_named(self@, name@),
            },
    {
        let mut i: usize = 0;
        while i < self.dependencies.len()
            invariant
                0 <= i <= self.dependencies@.len(),
                forall|j: int| 0 <= j < i ==> self@[j].name != name@,
            decreases self.dependencies@.len() - i,
        {
            if str_eq(self.dependencies[i].name.as_str(), name) {
                return Some(i);
            }
            i += 1;
        }
        None
    }

    /// Records a dependency. Where one with this name is tracked already, only
    /// its source changes; otherwise a new one is appended, with the policy
    /// that `update` names.
    pub fn add_dependency(&mut self, name: &str, uri: &str, path: &str, local: &bool, update: &str)
        ensures
            forall|i: int| #[trigger]
                is_first_named(old(self)@, name@, i) ==> final(self)@ == old(self)@.update(
                    i,
                    with_uri(old(self)@[i], uri@),
                ),
            !has_named(old(self)@, name@) ==> final(self)@ == old(self)@.push(
                DependencyView {
                    name: name@,
                    uri: uri@,
                    path: path@,
                    local: *local,
                    update: update_type_of(update@),
                },
            ),
            names_unique(old(self)@) ==> names_unique(final(self)@),
    {
        match self.position_of(name) {
            Some(i) => {
                self.dependencies[i].uri = String::from_str(uri);
                assert(self@ =~= old(self)@.update(i as int, with_uri(old(self)@[i as int], uri@)));
            },
            None => {
                let dependency = Dependency {
                    name: String::from_str(name),
                    uri: String::from_str(uri),
                    path: String::from_str(path),
                    local: *local,
                    update: UpdateType::from_str(update),
                };
                self.dependencies.push(dependency);
                assert(self@ =~= old(self)@.push(dependency@));
            },
        }
    }

    /// Takes the first dependency with this name out of the registry and
    /// returns it; `None`, with the registry unchanged, where none has it.
    pub fn remove_dependency(&mut self, name: &str) -> (r: Option<Dependency>)
        ensures
            r is Some <==> has_named(old(self)@, name@),
            r is None ==> final(self)@ == old(self)@,
            forall|i: int| #[trigger]
                is_first_named(old(self)@, name@, i) ==> r is Some && r->0@ == old(self)@[i]
                    && final(self)@ == old(self)@.remove(i),
            names_unique(old(self)@) ==> names_unique(final(self)@),
    {
        match self.position_of(name) {
            Some(i) => {
                let dependency = self.dependencies.remove(i);
                assert(self@ =~= old(self)@.remove(i as int));
                Some(dependency)
            },
            None => None,
        }
    }
}

} // verus!
