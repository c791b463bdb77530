use vstd::prelude::*;

verus! {

/// One network address at which a server may answer.
#[derive(Debug)]
pub struct PlexConnections {
    pub uri: String,
}

impl View for PlexConnections {
    type V = Seq<char>;

    open spec fn view(&self) -> Seq<char> {
        self.uri@
    }
}

impl Clone for PlexConnections {
    fn clone(&self) -> (copy: Self)
        ensures
            copy == *self,
    {
        PlexConnections { uri: self.uri.clone() }
    }
}

impl PlexConnections {
    pub fn new(uri: String) -> (connection: Self)
        ensures
            connection.uri == uri,
    {
        PlexConnections { uri }
    }

    pub fn clone_uri(&self) -> (uri: String)
        ensures
            uri@ == self@,
    {
        self.uri.clone()
    }

    pub fn uri_ref(&self) -> (uri: &str)
        ensures
            uri@ == self@,
    {
        self.uri.as_str()
    }
}

/// What is known of a server: its name and its addresses, in the order in
/// which the service listed them.
pub struct ResourceView {
    pub name: Seq<char>,
    pub connections: Seq<Seq<char>>,
}

/// A server that the service offers, with the addresses to try.
#[derive(Debug)]
pub struct PlexResource {
    pub name: String,
    pub connections: Vec<PlexConnections>,
}

impl View for PlexResource {
    type V = ResourceView;

    open spec fn view(&self) -> ResourceView {
        ResourceView {
            name: self.name@,
            connections: Seq::new(self.connections@.len(), |i: int| self.connections@[i]@),
        }
    }
}

impl Clone for PlexResource {
    fn clone(&self) -> (copy: Self)
        ensures
            copy@ == self@,
    {
        let mut connections: Vec<PlexConnections> = Vec::new();
        let mut i: usize = 0;
        while i < self.connections.len()
            invariant
                i <= self.connections.len(),
                connections@.len() == i,
                forall|j: int| 0 <= j < i ==> (#[trigger] connections@[j]) == self.connections@[j],
            decreases self.connections.len() - i,
        {
            connections.push(self.connections[i].clone());
            i += 1;
        }
        let copy = PlexResource { name: self.name.clone(), connections };
        assert(copy@.connections =~= self@.connections);
        copy
    }
}

impl PlexResource {
    pub fn new(name: String, connections: Vec<PlexConnections>) -> (resource: Self)
        ensures
            resource.name == name,
            resource.connections == connections,
    {
        PlexResource { name, connections }
    }

    /// The resource under the key by which it is cached: its name.
    pub fn into_key_val(self) -> (pair: (String, Self))
        ensures
            pair.0@ == self@.name,
            pair.1 == self,
    {
        (self.name.clone(), self)
    }

    pub fn connections_ref(&self) -> (connections: &[PlexConnections])
        ensures
            connections@ == self.connections@,
    {
        self.connections.as_slice()
    }

    pub fn name_ref(&self) -> (name: &str)
        ensures
            name@ == self@.name,
    {
        self.name.as_str()
    }
}

} // verus!
