use wetee_guild::call::GuildCall;
use wetee_guild::client::{BaseHander, Client};
use wetee_guild::guild::WeteeGuild;
use wetee_guild::storage::{StorageEntry, StorageQuery};
use wetee_guild::submission::{submission_result, GuildError, Route};

const ALICE: &str = "5GrwvaEF5zXb26Fz9rcQpDWS57CtERHpNehXCPcNoHGKutQY";
const ALICE_KEY: [u8; 32] = [
    0xd4, 0x35, 0x93, 0xc7, 0x15, 0xfd, 0xd3, 0x1c, 0x61, 0x14, 0x1a, 0xbd, 0x04, 0xa9, 0x9f, 0xd6,
    0x82, 0x2c, 0x85, 0x58, 0x85, 0x4c, 0xcd, 0xe3, 0x9a, 0x56, 0x84, 0xe7, 0xa5, 0x6d, 0xa2, 0x7d,
];
const ALICE_HEX: &str = "0xd43593c715fdd31c61141abd04a99fd6822c8558854ccde39a5684e7a56da27d";

#[test]
fn new_keeps_client_without_sudo() {
    let g = WeteeGuild::new(Client { index: 2 });
    assert_eq!(g.base, BaseHander { client: Client { index: 2 }, is_sudo: false });
}

#[test]
fn guild_list_query_reads_guilds_of_dao() {
    let g = WeteeGuild::new(Client { index: 1 });
    let q = g.guild_list_query(42);
    assert_eq!(
        q,
        StorageQuery { client_index: 1, entry: StorageEntry::Guilds, first_key: 42, second_key: None }
    );
    assert_eq!(q.entry.pallet(), "WeteeDAO");
    assert_eq!(q.entry.name(), "Guilds");
}

#[test]
fn member_list_query_reads_members_of_guild() {
    let g = WeteeGuild::new(Client { index: 0 });
    let q = g.member_list_query(5, 3);
    assert_eq!(
        q,
        StorageQuery {
            client_index: 0,
            entry: StorageEntry::GuildMembers,
            first_key: 5,
            second_key: Some(3),
        }
    );
    assert_eq!(q.entry.pallet(), "WeteeDAO");
    assert_eq!(q.entry.name(), "GuildMembers");
}

#[test]
fn guild_list_absent_is_empty() {
    assert_eq!(WeteeGuild::guild_list::<u32>(None), Vec::<u32>::new());
    assert_eq!(WeteeGuild::guild_list(Some(vec![7u32, 8])), vec![7, 8]);
}

#[test]
fn member_list_absent_is_empty() {
    assert_eq!(WeteeGuild::member_list::<[u8; 32]>(None), Vec::<[u8; 32]>::new());
    assert_eq!(WeteeGuild::member_list(Some(vec![ALICE_KEY])), vec![ALICE_KEY]);
}

#[test]
fn guild_info_picks_by_index() {
    let stored = Some(vec!["a".to_string(), "b".to_string(), "c".to_string()]);
    assert_eq!(WeteeGuild::guild_info(stored.clone(), 0), Ok("a".to_string()));
    assert_eq!(WeteeGuild::guild_info(stored, 2), Ok("c".to_string()));
}

#[test]
fn guild_info_out_of_range_is_not_found() {
    let stored = Some(vec![10u8, 20]);
    assert_eq!(
        WeteeGuild::guild_info(stored, 2),
        Err(GuildError::GuildNotFound { index: 2, count: 2 })
    );
    assert_eq!(
        WeteeGuild::guild_info::<u8>(None, 0),
        Err(GuildError::GuildNotFound { index: 0, count: 0 })
    );
}

#[test]
fn create_guild_signed_by_sender() {
    let g = WeteeGuild::new(Client { index: 4 });
    let s = g
        .create_guild::<u8>(ALICE.to_string(), 1, "dev".to_string(), "builders".to_string(), "{}".to_string(), None)
        .unwrap();
    assert_eq!(s.client_index, 4);
    assert_eq!(s.from, ALICE);
    assert_eq!(s.dao_id, 1);
    assert_eq!(s.route, Route::Signed);
    assert_eq!(
        s.call,
        GuildCall::CreateGuild {
            name: b"dev".to_vec(),
            desc: b"builders".to_vec(),
            meta_data: b"{}".to_vec(),
            dao_id: 1,
            creator: ALICE_KEY,
        }
    );
}

#[test]
fn create_guild_with_gov_goes_through_governance() {
    let g = WeteeGuild::new(Client { index: 0 });
    let s = g
        .create_guild(ALICE.to_string(), 9, "n".to_string(), "d".to_string(), "m".to_string(), Some(77u32))
        .unwrap();
    assert_eq!(s.route, Route::Governance(77));
    assert_eq!(s.dao_id, 9);
}

#[test]
fn create_guild_bad_address() {
    let g = WeteeGuild::new(Client { index: 0 });
    let r = g.create_guild::<u8>("not an address".to_string(), 1, "n".to_string(), "d".to_string(), "m".to_string(), None);
    assert_eq!(r, Err(GuildError::InvalidAddress));
}

#[test]
fn guild_join_request_reads_hex_address() {
    let g = WeteeGuild::new(Client { index: 6 });
    let s = g.guild_join_request::<u8>(ALICE_HEX.to_string(), 2, 3, None).unwrap();
    assert_eq!(s.call, GuildCall::GuildJoinRequest { dao_id: 2, guild_id: 3, who: ALICE_KEY });
    assert_eq!(s.route, Route::Signed);
    assert_eq!(s.client_index, 6);
    assert_eq!(s.from, ALICE_HEX);
}

#[test]
fn guild_join_request_with_gov() {
    let g = WeteeGuild::new(Client { index: 0 });
    let s = g.guild_join_request(ALICE.to_string(), 2, 3, Some("gov".to_string())).unwrap();
    assert_eq!(s.call, GuildCall::GuildJoinRequest { dao_id: 2, guild_id: 3, who: ALICE_KEY });
    assert_eq!(s.route, Route::Governance("gov".to_string()));
}

#[test]
fn guild_join_request_bad_checksum() {
    let g = WeteeGuild::new(Client { index: 0 });
    let r = g.guild_join_request::<u8>("5GrwvaEF5zXb26Fz9rcQpDWS57CtERHpNehXCPcNoHGKutQZ".to_string(), 2, 3, None);
    assert_eq!(r, Err(GuildError::InvalidAddress));
}

#[test]
fn join_request_as_given_key() {
    let g = WeteeGuild::new(Client { index: 0 });
    let s = g.guild_join_request_as::<u8>("x".to_string(), 1, 2, [7u8; 32], None);
    assert_eq!(s.call, GuildCall::GuildJoinRequest { dao_id: 1, guild_id: 2, who: [7u8; 32] });
}

#[test]
fn submission_result_maps_failure() {
    assert_eq!(submission_result(Ok(())), Ok(()));
    assert_eq!(
        submission_result(Err("pool full".to_string())),
        Err(GuildError::SubmitFailed("pool full".to_string()))
    );
}
