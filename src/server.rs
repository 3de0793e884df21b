use vstd::prelude::*;

verus! {

/// A registered network service: a port, a running flag and a name.
#[derive(Debug, Clone)]
pub struct Server {
    pub port: u16,
    pub running: bool,
    pub name: String,
}

/// The mathematical value of a [`Server`].
pub ghost struct ServerView {
    pub port: u16,
    pub running: bool,
    pub name: Seq<char>,
}

impl View for Server {
    type V = ServerView;

    open spec fn view(&self) -> ServerView {
        ServerView { port: self.port, running: self.running, name: self.name@ }
    }
}

impl Server {
    /// Builds a record from its three parts.
    pub fn new(port: u16, running: bool, name: String) -> (r: Server)
        ensures
            r.port == port,
            r.running == running,
            r.name@ == name@,
    {
        Server { port, running, name }
    }
}

} // verus!
