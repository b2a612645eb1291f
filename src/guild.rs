use vstd::prelude::*;

use crate::address::parse_public;
use crate::call::{create_guild_spec, join_request_spec, AccountKey, GuildCall};
use crate::client::{BaseHander, Client};
use crate::storage::{list_or_empty, stored_list, StorageEntry, StorageQuery};
use crate::submission::{choose_route, route_of, GuildError, Submission};

verus! {

/// Handler of the guild operations of a DAO.
///
/// Reads come in two steps: a `*_query` method says which storage value to
/// fetch, and an associated function decodes what was fetched. Writes build
/// a `Submission` that the host performs; `submission_result` turns the
/// client's report into the write's result.
#[derive(Clone, Copy, Debug, PartialEq, Eq, Structural)]
pub struct WeteeGuild {
    pub base: BaseHander,
}

/// The submission that a write with sender `from` and call `call` becomes
/// on handler `h`.
pub open spec fn submission_spec<G>(
    h: WeteeGuild,
    from: String,
    dao_id: u64,
    call: GuildCall,
    ext: Option<G>,
) -> Submission<G> {
    Submission { client_index: h.base.client.index, from, dao_id, call, route: route_of(ext) }
}

/// `s` is the submission of `create_guild` on handler `h`, with the sender's
/// address read as `creator`.
pub open spec fn is_create_guild_submission<G>(
    h: WeteeGuild,
    from: String,
    dao_id: u64,
    name: Seq<char>,
    desc: Seq<char>,
    meta_data: Seq<char>,
    creator: AccountKey,
    ext: Option<G>,
    s: Submission<G>,
) -> bool {
    &&& create_guild_spec(name, desc, meta_data, dao_id, creator, s.call)
    &&& s == submission_spec(h, from, dao_id, s.call, ext)
}

/// The submission of `guild_join_request` on handler `h`, with the sender's
/// address read as `who`.
pub open spec fn join_request_submission<G>(
    h: WeteeGuild,
    from: String,
    dao_id: u64,
    guild_id: u64,
    who: AccountKey,
    ext: Option<G>,
) -> Submission<G> {
    submission_spec(h, from, dao_id, join_request_spec(dao_id, guild_id, who), ext)
}

/// The storage read of the guilds of DAO `dao_id` on handler `h`.
pub open spec fn guilds_query_spec(h: WeteeGuild, dao_id: u64) -> StorageQuery {
    StorageQuery {
        client_index: h.base.client.index,
        entry: StorageEntry::Guilds,
        first_key: dao_id,
        second_key: None,
    }
}

/// The storage read of the members of guild `guild_id` of DAO `dao_id` on
/// handler `h`.
pub open spec fn members_query_spec(h: WeteeGuild, dao_id: u64, guild_id: u64) -> StorageQuery {
    StorageQuery {
        client_index: h.base.client.index,
        entry: StorageEntry::GuildMembers,
        first_key: dao_id,
        second_key: Some(guild_id),
    }
}

impl WeteeGuild {
    pub fn new(c: Client) -> (r: WeteeGuild)
        ensures
            r.base.client == c,
            !r.base.is_sudo,
    {
        WeteeGuild { base: BaseHander::new(c, false) }
    }

    fn submission<G>(&self, from: String, dao_id: u64, call: GuildCall, ext: Option<G>) -> (r: Submission<G>)
        ensures
            r == submission_spec(*self, from, dao_id, call, ext),
    {
        Submission {
            client_index: self.base.client.index,
            from,
            dao_id,
            call,
            route: choose_route(ext),
        }
    }

    /// Which storage value holds the guilds of DAO `dao_id`.
    pub fn guild_list_query(&self, dao_id: u64) -> (r: StorageQuery)
        ensures
            r == guilds_query_spec(*self, dao_id),
    {
        StorageQuery {
            client_index: self.base.client.index,
            entry: StorageEntry::Guilds,
            first_key: dao_id,
            second_key: None,
        }
    }

    /// The guilds of a DAO, from the value that `guild_list_query` fetched.
    pub fn guild_list<T>(stored: Option<Vec<T>>) -> (r: Vec<T>)
        ensures
            r@ == stored_list(stored),
    {
        list_or_empty(stored)
    }

    /// The guild at `index` among those of a DAO, from the value that
    /// `guild_list_query` fetched.
    pub fn guild_info<T>(stored: Option<Vec<T>>, index: u32) -> (r: Result<T, GuildError>)
        ensures
            (index as int) < stored_list(stored).len() ==> r == Ok::<T, GuildError>(
                stored_list(stored)[index as int],
            ),
            (index as int) >= stored_list(stored).len() ==> r == Err::<T, GuildError>(
                GuildError::GuildNotFound { index, count: stored_list(stored).len() as usize },
            ),
    {
        let mut guilds = list_or_empty(stored);
        let count = guilds.len();
        if (index as usize) < count {
            Ok(guilds.swap_remove(index as usize))
        } else {
            Err(GuildError::GuildNotFound { index, count })
        }
    }

    /// Which storage value holds the members of guild `guild_id` of DAO
    /// `dao_id`.
    pub fn member_list_query(&self, dao_id: u64, guild_id: u64) -> (r: StorageQuery)
        ensures
            r == members_query_spec(*self, dao_id, guild_id),
    {
        StorageQuery {
            client_index: self.base.client.index,
            entry: StorageEntry::GuildMembers,
            first_key: dao_id,
            second_key: Some(guild_id),
        }
    }

    /// The members of a guild, from the value that `member_list_query` fetched.
    pub fn member_list<A>(stored: Option<Vec<A>>) -> (r: Vec<A>)
        ensures
            r@ == stored_list(stored),
    {
        list_or_empty(stored)
    }

    /// The submission that creates guild `name` in DAO `dao_id`, with the
    /// sender, whose address was read as `creator`, as its creator.
    pub fn create_guild_as<G>(
        &self,
        from: String,
        dao_id: u64,
        name: String,
        desc: String,
        meta_data: String,
        creator: AccountKey,
        ext: Option<G>,
    ) -> (r: Submission<G>)
        ensures
            is_create_guild_submission(*self, from, dao_id, name@, desc@, meta_data@, creator, ext, r),
    {
        let call = GuildCall::create_guild(name.as_str(), desc.as_str(), meta_data.as_str(), dao_id, creator);
        self.submission(from, dao_id, call, ext)
    }

    /// The submission that creates guild `name` in DAO `dao_id` on behalf of
    /// the account at address `from`; fails when `from` is not an address.
    pub fn create_guild<G>(
        &self,
        from: String,
        dao_id: u64,
        name: String,
        desc: String,
        meta_data: String,
        ext: Option<G>,
    ) -> (r: Result<Submission<G>, GuildError>)
        ensures
            match r {
                Ok(s) => exists|k: AccountKey|
                    is_create_guild_submission(*self, from, dao_id, name@, desc@, meta_data@, k, ext, s),
                Err(e) => e == GuildError::InvalidAddress,
            },
    {
        match parse_public(from.as_str()) {
            Some(creator) => Ok(self.create_guild_as(from, dao_id, name, desc, meta_data, creator, ext)),
            None => Err(GuildError::InvalidAddress),
        }
    }

    /// The submission by which the sender, whose address was read as `who`,
    /// asks to join guild `guild_id` of DAO `dao_id`.
    pub fn guild_join_request_as<G>(
        &self,
        from: String,
        dao_id: u64,
        guild_id: u64,
        who: AccountKey,
        ext: Option<G>,
    ) -> (r: Submission<G>)
        ensures
            r == join_request_submission(*self, from, dao_id, guild_id, who, ext),
    {
        let call = GuildCall::guild_join_request(dao_id, guild_id, who);
        self.submission(from, dao_id, call, ext)
    }

    /// The submission by which the account at address `from` asks to join
    /// guild `guild_id` of DAO `dao_id`; fails when `from` is not an address.
    pub fn guild_join_request<G>(
        &self,
        from: String,
        dao_id: u64,
        guild_id: u64,
        ext: Option<G>,
    ) -> (r: Result<Submission<G>, GuildError>)
        ensures
            match r {
                Ok(s) => exists|k: AccountKey|
                    s == join_request_submission(*self, from, dao_id, guild_id, k, ext),
                Err(e) => e == GuildError::InvalidAddress,
            },
    {
        match parse_public(from.as_str()) {
            Some(who) => Ok(self.guild_join_request_as(from, dao_id, guild_id, who, ext)),
            None => Err(GuildError::InvalidAddress),
        }
    }
}

} // verus!
