use vstd::prelude::*;

verus! {

/// The open websocket connections, each tagged with the uuid of the user
/// it belongs to, in the order they were added. A connection is addressed
/// by its position.
pub struct ConnectionRegistry<S> {
    connections: Vec<(String, S)>,
}

impl<S> View for ConnectionRegistry<S> {
    type V = Seq<(String, S)>;

    closed spec fn view(&self) -> Seq<(String, S)> {
        self.connections@
    }
}

impl<S> ConnectionRegistry<S> {
    /// A registry with no connections.
    pub fn new() -> (r: Self)
        ensures
            r@ == Seq::<(String, S)>::empty(),
    {
        ConnectionRegistry { connections: Vec::new() }
    }

    /// Number of connections held.
    pub fn len(&self) -> (r: usize)
        ensures
            r == self@.len(),
    {
        self.connections.len()
    }

    /// Adds a connection of user `uuid` at the end; returns its position.
    pub fn add_connection(&mut self, uuid: String, socket: S) -> (index: usize)
        ensures
            index == old(self)@.len(),
            final(self)@ == old(self)@.push((uuid, socket)),
    {
        let index = self.connections.len();
        self.connections.push((uuid, socket));
        index
    }

    /// Removes the connection at `index`; those after it move down by one.
    pub fn remove_connection(&mut self, index: usize)
        requires
            index < old(self)@.len(),
        ensures
            final(self)@ == old(self)@.remove(index as int),
    {
        self.connections.remove(index);
    }
}

} // verus!
