use vstd::prelude::*;

verus! {

/// A handle on one connection of the host's pool of chain clients.
#[derive(Clone, Copy, Debug, PartialEq, Eq, Structural)]
pub struct Client {
    /// Position of the connection in the pool.
    pub index: usize,
}

/// State shared by every handler: the connection it talks through.
#[derive(Clone, Copy, Debug, PartialEq, Eq, Structural)]
pub struct BaseHander {
    pub client: Client,
    /// Whether the handler was set up for sudo-only use. The guild handler is
    /// not: it routes each write by the governance context given with it.
    pub is_sudo: bool,
}

impl BaseHander {
    pub fn new(client: Client, is_sudo: bool) -> (r: BaseHander)
        ensures
            r.client == client,
            r.is_sudo == is_sudo,
    {
        BaseHander { client, is_sudo }
    }
}

} // verus!
