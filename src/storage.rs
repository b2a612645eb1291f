use vstd::prelude::*;

verus! {

/// A storage entry of the DAO pallet that the guild handler reads.
#[derive(Clone, Copy, Debug, PartialEq, Eq, Structural)]
pub enum StorageEntry {
    /// Map from a DAO id to the list of its guilds.
    Guilds,
    /// Double map from a DAO id and a guild id to the guild's members.
    GuildMembers,
}

impl StorageEntry {
    /// Name of the pallet that holds the entry.
    pub fn pallet(&self) -> (r: &'static str)
        ensures
            r@ == "WeteeDAO"@,
    {
        "WeteeDAO"
    }

    /// Name of the entry within its pallet.
    pub fn name(&self) -> (r: &'static str)
        ensures
            *self == StorageEntry::Guilds ==> r@ == "Guilds"@,
            *self == StorageEntry::GuildMembers ==> r@ == "GuildMembers"@,
    {
        match self {
            StorageEntry::Guilds => "Guilds",
            StorageEntry::GuildMembers => "GuildMembers",
        }
    }
}

/// A read of one value of a storage map (`second_key` is `None`) or of a
/// storage double map, through the connection at `client_index` of the pool.
#[derive(Clone, Copy, Debug, PartialEq, Eq, Structural)]
pub struct StorageQuery {
    pub client_index: usize,
    pub entry: StorageEntry,
    pub first_key: u64,
    pub second_key: Option<u64>,
}

/// The list that a storage read of a list-valued entry stands for: an absent
/// value is the empty list.
pub open spec fn stored_list<T>(stored: Option<Vec<T>>) -> Seq<T> {
    match stored {
        Some(v) => v@,
        None => Seq::empty(),
    }
}

/// Decodes the answer to a read of a list-valued entry.
pub fn list_or_empty<T>(stored: Option<Vec<T>>) -> (r: Vec<T>)
    ensures
        r@ == stored_list(stored),
{
    match stored {
        Some(v) => v,
        None => Vec::new(),
    }
}

} // verus!
