//! The servers that were admitted before, by namespace and by name.

use vstd::prelude::*;
use vstd::string::*;
use crate::named::{distinct_names, find, keys, lemma_removed, lemma_stored, lookup, names, removed, stored};
use crate::policy::{ServerSpec, ServerSpecView};

verus! {

/// The servers of one namespace, each under its name.
pub type Servers = Seq<(Seq<char>, ServerSpecView)>;

/// The servers of one namespace. No two of them have the same name.
#[derive(Debug)]
pub struct NamespaceIndex {
    servers: Vec<(String, ServerSpec)>,
}

/// The servers of every namespace that has any. No two namespaces have the
/// same name.
#[derive(Debug)]
pub struct Index {
    namespaces: Vec<(String, NamespaceIndex)>,
}

/// A list of servers with their names, each taken by its view.
pub open spec fn servers_view(servers: Seq<(String, ServerSpec)>) -> Servers {
    Seq::new(servers.len(), |i: int| (servers[i].0@, servers[i].1@))
}

/// The servers of every namespace, each list taken by its view.
pub open spec fn namespaces_view(namespaces: Seq<(String, NamespaceIndex)>) -> Seq<(Seq<char>, Servers)> {
    Seq::new(namespaces.len(), |i: int| (namespaces[i].0@, namespaces[i].1@))
}

impl View for NamespaceIndex {
    type V = Servers;

    closed spec fn view(&self) -> Servers {
        servers_view(self.servers@)
    }
}

impl NamespaceIndex {
    #[verifier::type_invariant]
    spec fn names_are_distinct(self) -> bool {
        distinct_names(servers_view(self.servers@))
    }

    /// A namespace without servers.
    pub fn new() -> (empty: NamespaceIndex)
        ensures
            empty@ == Servers::empty(),
    {
        let empty = NamespaceIndex { servers: Vec::new() };
        assert(empty@ =~= Servers::empty());
        empty
    }

    /// The servers of the namespace, each with its name.
    pub fn servers(&self) -> (servers: &Vec<(String, ServerSpec)>)
        ensures
            servers_view(servers@) == self@,
            distinct_names(self@),
    {
        proof {
            use_type_invariant(self);
        }
        &self.servers
    }

    /// The namespace with `spec` under `name`, in the place of the server
    /// that `name` had before.
    pub fn apply(self, name: &str, spec: ServerSpec) -> (after: NamespaceIndex)
        ensures
            after@ == stored(self@, name@, spec@),
    {
        proof {
            use_type_invariant(&self);
            lemma_stored(self@, name@, spec@);
        }
        let mut servers = self.servers;
        let ghost before = servers_view(servers@);
        assert(keys(servers@) =~= names(before));
        match find(&servers, name) {
            Some(i) => {
                servers.set(i, (name.to_owned(), spec));
            },
            None => {
                servers.push((name.to_owned(), spec));
            },
        }
        assert(servers_view(servers@) =~= stored(before, name@, spec@));
        NamespaceIndex { servers }
    }

    /// The namespace without the server that `name` had.
    pub fn delete(self, name: &str) -> (after: NamespaceIndex)
        ensures
            after@ == removed(self@, name@),
    {
        proof {
            use_type_invariant(&self);
            lemma_removed(self@, name@);
        }
        let mut servers = self.servers;
        let ghost before = servers_view(servers@);
        assert(keys(servers@) =~= names(before));
        if let Some(i) = find(&servers, name) {
            servers.remove(i);
        }
        assert(servers_view(servers@) =~= removed(before, name@));
        NamespaceIndex { servers }
    }
}

impl View for Index {
    type V = Seq<(Seq<char>, Servers)>;

    closed spec fn view(&self) -> Seq<(Seq<char>, Servers)> {
        namespaces_view(self.namespaces@)
    }
}

/// The servers that `index` has in the namespace `ns`: none where it does
/// not have the namespace.
pub open spec fn servers_in(index: Seq<(Seq<char>, Servers)>, ns: Seq<char>) -> Servers {
    match lookup(index, ns) {
        Some(servers) => servers,
        None => Servers::empty(),
    }
}

impl Index {
    #[verifier::type_invariant]
    spec fn names_are_distinct(self) -> bool {
        distinct_names(namespaces_view(self.namespaces@))
    }

    /// An index without namespaces.
    pub fn new() -> (empty: Index)
        ensures
            empty@ == Seq::<(Seq<char>, Servers)>::empty(),
    {
        let empty = Index { namespaces: Vec::new() };
        assert(empty@ =~= Seq::<(Seq<char>, Servers)>::empty());
        empty
    }

    /// The servers of the namespace `ns`, where the index has that
    /// namespace.
    pub fn get_ns(&self, ns: &str) -> (found: Option<&NamespaceIndex>)
        ensures
            distinct_names(self@),
            match found {
                Some(namespace) => lookup(self@, ns@) == Some(namespace@),
                None => lookup(self@, ns@) is None,
            },
    {
        proof {
            use_type_invariant(self);
        }
        assert(keys(self.namespaces@) =~= names(self@));
        match find(&self.namespaces, ns) {
            Some(i) => Some(&self.namespaces[i].1),
            None => None,
        }
    }

    /// The index with `spec` under `name` in the namespace `ns`, in the
    /// place of the server that `name` had there before. A namespace that
    /// the index did not have comes last.
    pub fn apply_server(self, ns: &str, name: &str, spec: ServerSpec) -> (after: Index)
        ensures
            after@ == stored(self@, ns@, stored(servers_in(self@, ns@), name@, spec@)),
    {
        proof {
            use_type_invariant(&self);
        }
        let mut namespaces = self.namespaces;
        let ghost before = namespaces_view(namespaces@);
        assert(keys(namespaces@) =~= names(before));
        match find(&namespaces, ns) {
            Some(i) => {
                let (_, namespace) = namespaces.remove(i);
                let namespace = namespace.apply(name, spec);
                proof {
                    lemma_stored(before, ns@, namespace@);
                }
                namespaces.insert(i, (ns.to_owned(), namespace));
                assert(namespaces_view(namespaces@) =~= stored(before, ns@, namespace@));
            },
            None => {
                let namespace = NamespaceIndex::new().apply(name, spec);
                proof {
                    lemma_stored(before, ns@, namespace@);
                }
                namespaces.push((ns.to_owned(), namespace));
                assert(namespaces_view(namespaces@) =~= stored(before, ns@, namespace@));
            },
        }
        Index { namespaces }
    }

    /// The index without the server that `name` had in the namespace `ns`.
    /// The namespace stays, also where it is left without servers.
    pub fn delete_server(self, ns: &str, name: &str) -> (after: Index)
        ensures
            after@ == match lookup(self@, ns@) {
                Some(servers) => stored(self@, ns@, removed(servers, name@)),
                None => self@,
            },
    {
        proof {
            use_type_invariant(&self);
        }
        let mut namespaces = self.namespaces;
        let ghost before = namespaces_view(namespaces@);
        assert(keys(namespaces@) =~= names(before));
        if let Some(i) = find(&namespaces, ns) {
            let (_, namespace) = namespaces.remove(i);
            let namespace = namespace.delete(name);
            proof {
                lemma_stored(before, ns@, namespace@);
            }
            namespaces.insert(i, (ns.to_owned(), namespace));
            assert(namespaces_view(namespaces@) =~= stored(before, ns@, namespace@));
        }
        Index { namespaces }
    }
}

} // verus!
