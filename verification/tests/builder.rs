use guild_member_request::{
    GuildId, OpCode, RequestGuildMemberId, RequestGuildMembers, RequestGuildMembersBuilder,
    RequestGuildMembersInfo, UserId, UserIdsError, MAX_USER_IDS,
};

fn ids(range: std::ops::Range<u64>) -> Vec<UserId> {
    range.map(UserId).collect()
}

#[test]
fn query_with_presences_and_no_limit() {
    let request = RequestGuildMembers::builder(GuildId(1))
        .presences(true)
        .query("a", None);

    assert_eq!(
        request,
        RequestGuildMembers {
            d: RequestGuildMembersInfo {
                guild_id: GuildId(1),
                limit: Some(0),
                nonce: None,
                presences: Some(true),
                query: Some("a".to_owned()),
                user_ids: None,
            },
            op: OpCode::RequestGuildMembers,
        }
    );
}

#[test]
fn query_fields_one_by_one() {
    let request = RequestGuildMembers::builder(GuildId(1))
        .presences(true)
        .query("a", None);

    assert_eq!(GuildId(1), request.d.guild_id);
    assert_eq!(Some(0), request.d.limit);
    assert_eq!(Some("a"), request.d.query.as_deref());
    assert_eq!(Some(true), request.d.presences);
    assert_eq!(None, request.d.nonce);
    assert_eq!(None, request.d.user_ids);
    assert_eq!(OpCode::RequestGuildMembers, request.op);
}

#[test]
fn query_keeps_a_given_limit() {
    let request = RequestGuildMembersBuilder::new(GuildId(7)).query("ab", Some(5));
    assert_eq!(Some(5), request.d.limit);
    assert_eq!(Some("ab"), request.d.query.as_deref());
    assert_eq!(None, request.d.user_ids);

    let request = RequestGuildMembersBuilder::new(GuildId(7)).query("ab", Some(0));
    assert_eq!(Some(0), request.d.limit);

    let request = RequestGuildMembersBuilder::new(GuildId(7)).query("ab", Some(u64::MAX));
    assert_eq!(Some(u64::MAX), request.d.limit);
}

#[test]
fn query_accepts_the_empty_string() {
    let request = RequestGuildMembersBuilder::new(GuildId(3)).query("", None);
    assert_eq!(Some(""), request.d.query.as_deref());
    assert_eq!(Some(0), request.d.limit);
    assert_eq!(None, request.d.user_ids);
}

#[test]
fn query_accepts_owned_strings() {
    let request = RequestGuildMembersBuilder::new(GuildId(3)).query(String::from("zed"), Some(1));
    assert_eq!(Some("zed"), request.d.query.as_deref());
}

#[test]
fn query_by_string_is_query_by_conversion() {
    let converted = RequestGuildMembersBuilder::new(GuildId(3))
        .nonce("n")
        .query("zed", Some(9));
    let direct = RequestGuildMembersBuilder::new(GuildId(3))
        ._nonce("n".to_owned())
        ._query("zed".to_owned(), Some(9));
    assert_eq!(converted, direct);
}

#[test]
fn single_user_with_nonce() {
    let request = RequestGuildMembers::builder(GuildId(1))
        .nonce("test")
        .user_id(UserId(2));

    assert_eq!(
        request,
        RequestGuildMembers {
            d: RequestGuildMembersInfo {
                guild_id: GuildId(1),
                limit: None,
                nonce: Some("test".to_owned()),
                presences: None,
                query: None,
                user_ids: Some(RequestGuildMemberId::One(UserId(2))),
            },
            op: OpCode::RequestGuildMembers,
        }
    );
}

#[test]
fn several_users_with_nonce() {
    let request = RequestGuildMembers::builder(GuildId(1))
        .nonce("test")
        .user_ids(vec![UserId(2), UserId(3)])
        .unwrap();

    assert!(
        matches!(&request.d.user_ids, Some(RequestGuildMemberId::Multiple(ids)) if ids.len() == 2)
    );
    assert_eq!(
        request,
        RequestGuildMembers {
            d: RequestGuildMembersInfo {
                guild_id: GuildId(1),
                limit: None,
                nonce: Some("test".to_owned()),
                presences: None,
                query: None,
                user_ids: Some(RequestGuildMemberId::Multiple(vec![UserId(2), UserId(3)])),
            },
            op: OpCode::RequestGuildMembers,
        }
    );
}

#[test]
fn too_many_users_are_refused_whole() {
    let given = ids(1000..1101);
    assert_eq!(101, given.len());

    let outcome = RequestGuildMembers::builder(GuildId(1)).user_ids(given.clone());

    match outcome {
        Err(UserIdsError::TooMany { ids }) => assert_eq!(given, ids),
        other => panic!("expected a refusal, got {:?}", other),
    }
}

#[test]
fn far_too_many_users_are_refused_whole() {
    let given = ids(0..2500);
    let outcome = RequestGuildMembersBuilder::new(GuildId(1))
        .nonce("n")
        .presences(false)
        ._user_ids(given.clone());

    match outcome {
        Err(UserIdsError::TooMany { ids }) => assert_eq!(given, ids),
        other => panic!("expected a refusal, got {:?}", other),
    }
}

#[test]
fn the_largest_list_is_accepted() {
    assert_eq!(100, MAX_USER_IDS);
    let given = ids(1..101);
    assert_eq!(MAX_USER_IDS, given.len());

    let request = RequestGuildMembers::builder(GuildId(9))
        .user_ids(given.clone())
        .unwrap();

    assert_eq!(Some(RequestGuildMemberId::Multiple(given)), request.d.user_ids);
    assert_eq!(None, request.d.query);
    assert_eq!(None, request.d.limit);
    assert_eq!(GuildId(9), request.d.guild_id);
    assert_eq!(OpCode::RequestGuildMembers, request.op);
}

#[test]
fn the_empty_list_is_accepted() {
    let request = RequestGuildMembers::builder(GuildId(9))
        .user_ids(Vec::new())
        .unwrap();
    assert_eq!(Some(RequestGuildMemberId::Multiple(Vec::new())), request.d.user_ids);
}

#[test]
fn order_and_repetitions_are_kept() {
    let given = vec![UserId(5), UserId(3), UserId(5), UserId(1), UserId(3)];
    let request = RequestGuildMembers::builder(GuildId(9))
        .user_ids(given.clone())
        .unwrap();
    assert_eq!(Some(RequestGuildMemberId::Multiple(given)), request.d.user_ids);
}

#[test]
fn repetitions_count_towards_the_limit() {
    let given = vec![UserId(4); 101];
    let outcome = RequestGuildMembers::builder(GuildId(9)).user_ids(given.clone());
    match outcome {
        Err(UserIdsError::TooMany { ids }) => assert_eq!(given, ids),
        other => panic!("expected a refusal, got {:?}", other),
    }
}

#[test]
fn lists_are_taken_from_arrays_too() {
    let request = RequestGuildMembers::builder(GuildId(9))
        .user_ids([UserId(8), UserId(6)])
        .unwrap();
    assert_eq!(
        Some(RequestGuildMemberId::Multiple(vec![UserId(8), UserId(6)])),
        request.d.user_ids
    );
}

#[test]
fn a_list_of_one_is_not_a_single_user() {
    let list = RequestGuildMembers::builder(GuildId(1))
        .user_ids(vec![UserId(2)])
        .unwrap();
    let single = RequestGuildMembers::builder(GuildId(1)).user_id(UserId(2));

    assert_eq!(Some(RequestGuildMemberId::Multiple(vec![UserId(2)])), list.d.user_ids);
    assert_eq!(Some(RequestGuildMemberId::One(UserId(2))), single.d.user_ids);
    assert_ne!(list, single);
}

#[test]
fn the_last_nonce_wins() {
    let twice = RequestGuildMembers::builder(GuildId(1)).nonce("first").nonce("second");
    let once = RequestGuildMembers::builder(GuildId(1)).nonce("second");
    assert_eq!(twice.query("q", None), once.query("q", None));

    let request = RequestGuildMembers::builder(GuildId(1))
        .nonce("first")
        .nonce("second")
        .user_id(UserId(2));
    assert_eq!(Some("second"), request.d.nonce.as_deref());

    let request = RequestGuildMembers::builder(GuildId(1))
        .nonce("first")
        .nonce("second")
        .user_ids(vec![UserId(2)])
        .unwrap();
    assert_eq!(Some("second"), request.d.nonce.as_deref());
}

#[test]
fn the_last_presence_flag_wins() {
    let request = RequestGuildMembers::builder(GuildId(1))
        .presences(true)
        .presences(false)
        .query("q", Some(3));
    assert_eq!(Some(false), request.d.presences);

    let request = RequestGuildMembers::builder(GuildId(1))
        .presences(false)
        .presences(true)
        .user_id(UserId(2));
    assert_eq!(Some(true), request.d.presences);

    let request = RequestGuildMembers::builder(GuildId(1))
        .presences(false)
        .presences(false)
        .presences(true)
        .user_ids(vec![UserId(2)])
        .unwrap();
    assert_eq!(Some(true), request.d.presences);
}

#[test]
fn both_parts_can_be_set_in_either_order() {
    let one = RequestGuildMembers::builder(GuildId(1))
        .nonce("n")
        .presences(true)
        .user_id(UserId(2));
    let other = RequestGuildMembers::builder(GuildId(1))
        .presences(true)
        .nonce("n")
        .user_id(UserId(2));
    assert_eq!(one, other);
    assert_eq!(Some("n"), one.d.nonce.as_deref());
    assert_eq!(Some(true), one.d.presences);
}

#[test]
fn what_is_not_set_is_absent() {
    let request = RequestGuildMembers::builder(GuildId(1)).query("q", None);
    assert_eq!(None, request.d.nonce);
    assert_eq!(None, request.d.presences);

    let request = RequestGuildMembers::builder(GuildId(1)).user_id(UserId(2));
    assert_eq!(None, request.d.nonce);
    assert_eq!(None, request.d.presences);
    assert_eq!(None, request.d.query);
    assert_eq!(None, request.d.limit);

    let request = RequestGuildMembers::builder(GuildId(1))
        .user_ids(vec![UserId(2)])
        .unwrap();
    assert_eq!(None, request.d.nonce);
    assert_eq!(None, request.d.presences);
    assert_eq!(None, request.d.query);
    assert_eq!(None, request.d.limit);
}

#[test]
fn the_alias_makes_the_same_builder() {
    let by_alias = RequestGuildMembers::builder(GuildId(77)).user_id(UserId(1));
    let by_new = RequestGuildMembersBuilder::new(GuildId(77)).user_id(UserId(1));
    assert_eq!(by_alias, by_new);
    assert_eq!(GuildId(77), by_new.d.guild_id);
}

#[test]
fn selections_are_made_from_identifiers_and_lists() {
    assert_eq!(RequestGuildMemberId::One(UserId(2)), RequestGuildMemberId::from(UserId(2)));
    assert_eq!(
        RequestGuildMemberId::Multiple(vec![UserId(2), UserId(3)]),
        RequestGuildMemberId::from(vec![UserId(2), UserId(3)])
    );
    let selection: RequestGuildMemberId<u8> = 4.into();
    assert_eq!(RequestGuildMemberId::One(4), selection);
}
