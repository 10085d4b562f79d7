//! The data model: repositories, deploy keys, direct collaborators.
//!
//! Every record is immutable once constructed. Each exec record has a
//! mathematical deep view (`DeepView`) over which the library's contracts
//! speak: strings become `Seq<char>`, vectors become `Seq` of views.

use vstd::prelude::*;

verus! {

/// Identifies one repository of the audited organization by name.
/// Names are unique within one run's listing.
#[derive(Debug, PartialEq)]
pub struct Repository {
    pub name: String,
}

/// Mathematical view of a `Repository`.
pub struct RepositoryV {
    pub name: Seq<char>,
}

impl DeepView for Repository {
    type V = RepositoryV;

    open spec fn deep_view(&self) -> RepositoryV {
        RepositoryV { name: self.name@ }
    }
}

impl Clone for Repository {
    fn clone(&self) -> (r: Self)
        ensures
            r.deep_view() == self.deep_view(),
    {
        Repository { name: self.name.clone() }
    }
}

/// Access levels granted to a direct collaborator.
#[derive(Clone, Copy, PartialEq, Eq, Structural, Debug)]
pub struct Permissions {
    pub admin: bool,
    pub push: bool,
    pub pull: bool,
}

impl DeepView for Permissions {
    type V = Permissions;

    open spec fn deep_view(&self) -> Permissions {
        *self
    }
}

/// A deploy key registered against one repository: an SSH public key
/// granting clone/pull access independent of any user account.
#[derive(Debug, PartialEq)]
pub struct Key {
    pub id: i64,
    pub key: String,
    pub url: String,
    pub title: String,
    pub verified: bool,
    pub created_at: String,
    pub read_only: bool,
}

/// Mathematical view of a `Key`.
pub struct KeyV {
    pub id: int,
    pub key: Seq<char>,
    pub url: Seq<char>,
    pub title: Seq<char>,
    pub verified: bool,
    pub created_at: Seq<char>,
    pub read_only: bool,
}

impl DeepView for Key {
    type V = KeyV;

    open spec fn deep_view(&self) -> KeyV {
        KeyV {
            id: self.id as int,
            key: self.key@,
            url: self.url@,
            title: self.title@,
            verified: self.verified,
            created_at: self.created_at@,
            read_only: self.read_only,
        }
    }
}

impl Clone for Key {
    fn clone(&self) -> (r: Self)
        ensures
            r.deep_view() == self.deep_view(),
    {
        Key {
            id: self.id,
            key: self.key.clone(),
            url: self.url.clone(),
            title: self.title.clone(),
            verified: self.verified,
            created_at: self.created_at.clone(),
            read_only: self.read_only,
        }
    }
}

/// One opaque pass-through attribute of a collaborator record (a hypermedia
/// or profile field): carried unchanged, never interpreted.
#[derive(Debug, PartialEq)]
pub struct Attr {
    pub name: String,
    pub value: String,
}

/// Mathematical view of an `Attr`.
pub struct AttrV {
    pub name: Seq<char>,
    pub value: Seq<char>,
}

impl DeepView for Attr {
    type V = AttrV;

    open spec fn deep_view(&self) -> AttrV {
        AttrV { name: self.name@, value: self.value@ }
    }
}

impl Clone for Attr {
    fn clone(&self) -> (r: Self)
        ensures
            r.deep_view() == self.deep_view(),
    {
        Attr { name: self.name.clone(), value: self.value.clone() }
    }
}

/// A user account granted direct (not team-inherited) access to a
/// repository. `login` is the datum that matters for offboarding;
/// the remaining profile attributes ride along opaquely in `extras`.
#[derive(Debug, PartialEq)]
pub struct RepoCollaborator {
    pub login: String,
    pub id: i64,
    pub extras: Vec<Attr>,
    pub permissions: Permissions,
}

/// Mathematical view of a `RepoCollaborator`.
pub struct RepoCollaboratorV {
    pub login: Seq<char>,
    pub id: int,
    pub extras: Seq<AttrV>,
    pub permissions: Permissions,
}

impl DeepView for RepoCollaborator {
    type V = RepoCollaboratorV;

    open spec fn deep_view(&self) -> RepoCollaboratorV {
        RepoCollaboratorV {
            login: self.login@,
            id: self.id as int,
            extras: self.extras.deep_view(),
            permissions: self.permissions,
        }
    }
}

/// Clones a vector of attributes, preserving its deep view.
pub fn clone_attrs(v: &Vec<Attr>) -> (r: Vec<Attr>)
    ensures
        r.deep_view() == v.deep_view(),
{
    let mut r: Vec<Attr> = Vec::new();
    let mut i: usize = 0;
    while i < v.len()
        invariant
            i <= v.len(),
            r@.len() == i,
            forall|j: int| 0 <= j < i ==> r@[j].deep_view() == v@[j].deep_view(),
        decreases v.len() - i,
    {
        let x = v[i].clone();
        assert(x.deep_view() == v@[i as int].deep_view());
        r.push(x);
        i = i + 1;
    }
    proof {
        assert(r.deep_view() =~= v.deep_view());
    }
    r
}

impl Clone for RepoCollaborator {
    fn clone(&self) -> (r: Self)
        ensures
            r.deep_view() == self.deep_view(),
    {
        RepoCollaborator {
            login: self.login.clone(),
            id: self.id,
            extras: clone_attrs(&self.extras),
            permissions: self.permissions,
        }
    }
}

/// Clones a vector of deploy keys, preserving its deep view.
pub fn clone_keys(v: &Vec<Key>) -> (r: Vec<Key>)
    ensures
        r.deep_view() == v.deep_view(),
{
    let mut r: Vec<Key> = Vec::new();
    let mut i: usize = 0;
    while i < v.len()
        invariant
            i <= v.len(),
            r@.len() == i,
            forall|j: int| 0 <= j < i ==> r@[j].deep_view() == v@[j].deep_view(),
        decreases v.len() - i,
    {
        let x = v[i].clone();
        assert(x.deep_view() == v@[i as int].deep_view());
        r.push(x);
        i = i + 1;
    }
    proof {
        assert(r.deep_view() =~= v.deep_view());
    }
    r
}

/// Clones a vector of collaborators, preserving its deep view.
pub fn clone_collaborators(v: &Vec<RepoCollaborator>) -> (r: Vec<RepoCollaborator>)
    ensures
        r.deep_view() == v.deep_view(),
{
    let mut r: Vec<RepoCollaborator> = Vec::new();
    let mut i: usize = 0;
    while i < v.len()
        invariant
            i <= v.len(),
            r@.len() == i,
            forall|j: int| 0 <= j < i ==> r@[j].deep_view() == v@[j].deep_view(),
        decreases v.len() - i,
    {
        let x = v[i].clone();
        assert(x.deep_view() == v@[i as int].deep_view());
        r.push(x);
        i = i + 1;
    }
    proof {
        assert(r.deep_view() =~= v.deep_view());
    }
    r
}

/// Clones a vector of repositories, preserving its deep view.
pub fn clone_repositories(v: &Vec<Repository>) -> (r: Vec<Repository>)
    ensures
        r.deep_view() == v.deep_view(),
{
    let mut r: Vec<Repository> = Vec::new();
    let mut i: usize = 0;
    while i < v.len()
        invariant
            i <= v.len(),
            r@.len() == i,
            forall|j: int| 0 <= j < i ==> r@[j].deep_view() == v@[j].deep_view(),
        decreases v.len() - i,
    {
        let x = v[i].clone();
        assert(x.deep_view() == v@[i as int].deep_view());
        r.push(x);
        i = i + 1;
    }
    proof {
        assert(r.deep_view() =~= v.deep_view());
    }
    r
}

} // verus!
