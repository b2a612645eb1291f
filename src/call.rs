use vstd::prelude::*;
use vstd::string::StrSliceExecFns;
use vstd::utf8::encode_utf8;

verus! {

/// The public key of an sr25519 account, as the chain's `AccountId32` holds it.
pub type AccountKey = [u8; 32];

/// A call of the chain's guild pallet, with the arguments it is submitted with.
#[derive(Clone, Debug, PartialEq, Eq)]
pub enum GuildCall {
    /// Create a guild in a DAO, with `creator` as its first member.
    CreateGuild { name: Vec<u8>, desc: Vec<u8>, meta_data: Vec<u8>, dao_id: u64, creator: AccountKey },
    /// Ask to join guild `guild_id` of DAO `dao_id` as `who`.
    GuildJoinRequest { dao_id: u64, guild_id: u64, who: AccountKey },
}

/// The `create_guild` call for the given text fields, stored as their UTF-8 bytes.
pub open spec fn create_guild_spec(
    name: Seq<char>,
    desc: Seq<char>,
    meta_data: Seq<char>,
    dao_id: u64,
    creator: AccountKey,
    call: GuildCall,
) -> bool {
    match call {
        GuildCall::CreateGuild { name: n, desc: d, meta_data: m, dao_id: i, creator: c } => {
            &&& n@ == encode_utf8(name)
            &&& d@ == encode_utf8(desc)
            &&& m@ == encode_utf8(meta_data)
            &&& i == dao_id
            &&& c == creator
        },
        _ => false,
    }
}

/// The `guild_join_request` call.
pub open spec fn join_request_spec(dao_id: u64, guild_id: u64, who: AccountKey) -> GuildCall {
    GuildCall::GuildJoinRequest { dao_id, guild_id, who }
}

impl GuildCall {
    pub fn create_guild(name: &str, desc: &str, meta_data: &str, dao_id: u64, creator: AccountKey) -> (r: GuildCall)
        ensures
            create_guild_spec(name@, desc@, meta_data@, dao_id, creator, r),
    {
        GuildCall::CreateGuild {
            name: name.as_bytes_vec(),
            desc: desc.as_bytes_vec(),
            meta_data: meta_data.as_bytes_vec(),
            dao_id,
            creator,
        }
    }

    pub fn guild_join_request(dao_id: u64, guild_id: u64, who: AccountKey) -> (r: GuildCall)
        ensures
            r == join_request_spec(dao_id, guild_id, who),
    {
        GuildCall::GuildJoinRequest { dao_id, guild_id, who }
    }
}

} // verus!
