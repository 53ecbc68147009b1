use rock_wire::farcaster::{
    BulkFetchCastsParams, BulkFetchCastsRawQuery, CastConversationOptions, CastIdentifierKind,
    CastSortKind, ConversationFoldKind, ConversationSortKind, GetCastConversationParams,
    GetNotificationsParams, GetNotificationsRawQuery, GetReactionsOptions, GetReactionsParams,
    GetReactionsRawQuery, GetUsersByFidsParams, GetUsersByFidsRawQuery, NotificationFilterKind,
    NotificationKind, ReactionFilter, ReactionKind, SignerPermission, SignerStatus,
};

#[test]
fn kind_names() {
    assert_eq!(ReactionKind::Like.as_str(), "like");
    assert_eq!(ReactionKind::Recast.as_str(), "recast");
    assert_eq!(SignerStatus::PendingApproval.as_str(), "pending_approval");
    assert_eq!(SignerStatus::Generated.as_str(), "generated");
    assert_eq!(SignerPermission::WriteAll.as_str(), "WRITE_ALL");
    assert_eq!(SignerPermission::NoPermission.as_str(), "NONE");
    assert_eq!(SignerPermission::WriteFrameAction.as_str(), "WRITE_FRAME_ACTION");
    assert_eq!(NotificationFilterKind::Mentions.as_str(), "mentions");
    assert_eq!(NotificationKind::Reply.as_str(), "reply");
    assert_eq!(CastIdentifierKind::Url.as_str(), "Url");
    assert_eq!(CastSortKind::Trending.as_str(), "Trending");
    assert_eq!(ConversationSortKind::DescChron.as_str(), "DescChron");
    assert_eq!(ConversationFoldKind::Below.as_str(), "Below");
    assert_eq!(ReactionFilter::All.as_str(), "all");
}

#[test]
fn from_name_undoes_as_str() {
    for k in [SignerStatus::Generated, SignerStatus::PendingApproval, SignerStatus::Approved, SignerStatus::Revoked] {
        assert_eq!(SignerStatus::from_name(k.as_str()), Some(k));
    }
    let permissions = [
        SignerPermission::WriteAll, SignerPermission::ReadOnly, SignerPermission::NoPermission,
        SignerPermission::PublishCast, SignerPermission::DeleteCast, SignerPermission::PublishReaction,
        SignerPermission::DeleteReaction, SignerPermission::UpdateProfile, SignerPermission::FollowUser,
        SignerPermission::UnfollowUser, SignerPermission::FollowChannel, SignerPermission::UnfollowChannel,
        SignerPermission::AddVerification, SignerPermission::RemoveVerification, SignerPermission::WriteFrameAction,
    ];
    for k in permissions {
        assert_eq!(SignerPermission::from_name(k.as_str()), Some(k));
    }
    for k in [NotificationFilterKind::Follows, NotificationFilterKind::Recasts, NotificationFilterKind::Likes,
              NotificationFilterKind::Mentions, NotificationFilterKind::Replies, NotificationFilterKind::Quotes] {
        assert_eq!(NotificationFilterKind::from_name(k.as_str()), Some(k));
    }
    for k in [NotificationKind::Follow, NotificationKind::Follows, NotificationKind::Recast, NotificationKind::Recasts,
              NotificationKind::Like, NotificationKind::Likes, NotificationKind::Mention, NotificationKind::Mentions,
              NotificationKind::Reply, NotificationKind::Replies, NotificationKind::Quote, NotificationKind::Quotes] {
        assert_eq!(NotificationKind::from_name(k.as_str()), Some(k));
    }
    for k in [CastSortKind::Trending, CastSortKind::Likes, CastSortKind::Recasts, CastSortKind::Replies, CastSortKind::Recent] {
        assert_eq!(CastSortKind::from_name(k.as_str()), Some(k));
    }
}

#[test]
fn from_name_refuses_unknown_names() {
    assert_eq!(SignerStatus::from_name("Generated"), None);
    assert_eq!(SignerStatus::from_name("pending-approval"), None);
    assert_eq!(SignerPermission::from_name("None"), None);
    assert_eq!(SignerPermission::from_name(""), None);
    assert_eq!(NotificationFilterKind::from_name("follow"), None);
    assert_eq!(NotificationKind::from_name("quotes "), None);
    assert_eq!(CastSortKind::from_name("trending"), None);
}

#[test]
fn bulk_fetch_query_joins_hashes() {
    let params = BulkFetchCastsParams {
        casts: vec!["0xa".to_string(), "0xb".to_string(), "0xc".to_string()],
        sort_type: CastSortKind::Likes,
    };
    let query = BulkFetchCastsRawQuery::from(&params);
    assert_eq!(query.casts, "0xa,0xb,0xc");
    assert_eq!(query.sort_type, CastSortKind::Likes);

    let one = BulkFetchCastsParams { casts: vec!["0xa".to_string()], sort_type: CastSortKind::Recent };
    assert_eq!(BulkFetchCastsRawQuery::from(&one).casts, "0xa");
    let none = BulkFetchCastsParams { casts: vec![], sort_type: CastSortKind::Recent };
    assert_eq!(BulkFetchCastsRawQuery::from(&none).casts, "");
    let query: BulkFetchCastsRawQuery = (&params).into();
    assert_eq!(query.casts, params.casts.join(","));
}

#[test]
fn reactions_query_joins_filter_names() {
    let params = GetReactionsParams {
        hash: "0xcast".to_string(),
        types: vec![ReactionFilter::Likes, ReactionFilter::Recasts],
        options: GetReactionsOptions { viewer_fid: Some(3), limit: Some(25), cursor: Some("next".to_string()) },
    };
    let query = GetReactionsRawQuery::from(&params);
    assert_eq!(query.hash, "0xcast");
    assert_eq!(query.types, "likes,recasts");
    assert_eq!(query.viewer_fid, Some(3));
    assert_eq!(query.limit, Some(25));
    assert_eq!(query.cursor.as_deref(), Some("next"));

    let all = GetReactionsParams { hash: String::new(), types: vec![ReactionFilter::All], options: GetReactionsOptions::default() };
    let query = GetReactionsRawQuery::from(&all);
    assert_eq!(query.types, "all");
    assert_eq!(query.viewer_fid, None);
    assert_eq!(query.cursor, None);
}

#[test]
fn users_query_joins_fids_in_decimal() {
    let params = GetUsersByFidsParams { fids: vec![1, 2, 3] };
    assert_eq!(GetUsersByFidsRawQuery::from(&params).fids, "1,2,3");
    let big = GetUsersByFidsParams { fids: vec![0, u64::MAX, 190_000] };
    assert_eq!(GetUsersByFidsRawQuery::from(&big).fids, "0,18446744073709551615,190000");
    let none = GetUsersByFidsParams { fids: vec![] };
    assert_eq!(GetUsersByFidsRawQuery::from(&none).fids, "");
}

#[test]
fn notifications_query_joins_kind_names() {
    let params = GetNotificationsParams {
        fid: 99,
        kinds: Some(vec![NotificationFilterKind::Follows, NotificationFilterKind::Likes]),
        limit: Some(10),
        cursor: None,
    };
    let query = GetNotificationsRawQuery::from(&params);
    assert_eq!(query.fid, 99);
    assert_eq!(query.kinds.as_deref(), Some("follows,likes"));
    assert_eq!(query.limit, Some(10));
    assert_eq!(query.cursor, None);

    let default = GetNotificationsParams { fid: 1, cursor: Some("c".to_string()), ..Default::default() };
    let query = GetNotificationsRawQuery::from(&default);
    assert_eq!(query.kinds, None);
    assert_eq!(query.cursor.as_deref(), Some("c"));
    let empty = GetNotificationsParams { fid: 1, kinds: Some(vec![]), ..Default::default() };
    assert_eq!(GetNotificationsRawQuery::from(&empty).kinds.as_deref(), Some(""));
}

#[test]
fn conversation_params_keep_their_parts() {
    let options = CastConversationOptions { reply_depth: Some(2), limit: Some(20), ..Default::default() };
    let params = GetCastConversationParams::new("0xabc".to_string(), CastIdentifierKind::Hash, options);
    assert_eq!(params.identifier, "0xabc");
    assert_eq!(params.id_type, CastIdentifierKind::Hash);
    assert_eq!(params.options.reply_depth, Some(2));
    assert_eq!(params.options.limit, Some(20));
    assert_eq!(params.options.fold, None);
}

#[test]
fn users_query_splits_back_into_the_fids() {
    for fids in [vec![7u64], vec![1, 2, 3], vec![0, u64::MAX, 190_000, 0]] {
        let params = GetUsersByFidsParams { fids: fids.clone() };
        let query = GetUsersByFidsRawQuery::from(&params);
        let back: Vec<u64> = query.fids.split(',').map(|s| s.parse::<u64>().unwrap()).collect();
        assert_eq!(back, fids);
    }
}

#[test]
fn from_name_result_names_the_text() {
    match SignerStatus::from_name("approved") {
        Some(k) => assert_eq!(k.as_str(), "approved"),
        None => panic!("approved is a signer status"),
    }
    assert!(NotificationKind::from_name("likes!").is_none());
}
