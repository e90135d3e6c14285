use steam_workshop_api::{
    can_subscribe_answer, collection_children, decimal_string, is_vpk_file_name, parse_u64,
    published_items, search_results, CollectionChild, CollectionDetails, CollectionResponse,
    DetailEntry, Error, HttpMethod, PublishedFileQueryType, Request, SearchOptions,
    SearchResponse, SearchTagOptions, SteamWorkshop, WorkshopItem, WorkshopItemTag,
    WorkshopSearchItem,
};

fn pairs(list: &[(&str, &str)]) -> Vec<(String, String)> {
    list.iter().map(|(k, v)| (k.to_string(), v.to_string())).collect()
}

fn agent() -> Vec<(String, String)> {
    pairs(&[("User-Agent", "rs-steamwebapi/v0.5.0")])
}

fn detail_item(id: &str, size: &str) -> WorkshopItem {
    WorkshopItem {
        result: 1,
        publishedfileid: id.to_string(),
        creator: "76561198000000001".to_string(),
        creator_app_id: 550,
        consumer_app_id: 551,
        filename: "map.vpk".to_string(),
        file_size: size.to_string(),
        file_url: Some("https://example.com/map.vpk".to_string()),
        preview_url: "https://example.com/preview.jpg".to_string(),
        hcontent_file: "123".to_string(),
        hcontent_preview: "456".to_string(),
        title: "Dark Carnival".to_string(),
        description: "A campaign".to_string(),
        time_created: 1_600_000_000,
        time_updated: 1_600_000_100,
        subscriptions: 7,
        favorited: 3,
        views: 99,
        tags: vec![
            WorkshopItemTag { tag: "Campaigns".to_string() },
            WorkshopItemTag { tag: "Survivors".to_string() },
        ],
        visibility: 0,
    }
}

fn search_item(id: &str, size: u64) -> WorkshopSearchItem {
    detail_item(id, &size.to_string()).to_search_item().unwrap()
}

#[test]
fn parse_u64_accepts_what_std_accepts() {
    for text in ["0", "7", "+5", "007", "121090376", "18446744073709551615"] {
        assert_eq!(parse_u64(text), text.parse::<u64>().ok(), "{}", text);
    }
    assert_eq!(parse_u64("+5"), Some(5));
    assert_eq!(parse_u64("18446744073709551615"), Some(u64::MAX));
}

#[test]
fn parse_u64_rejects_what_std_rejects() {
    for text in ["", "+", "-1", " 1", "1 ", "12a", "abc", "18446744073709551616", "١٢", "++1"] {
        assert_eq!(parse_u64(text), None, "{}", text);
        assert!(text.parse::<u64>().is_err());
    }
}

#[test]
fn decimal_string_writes_canonical_text() {
    assert_eq!(decimal_string(0), "0");
    assert_eq!(decimal_string(10), "10");
    assert_eq!(decimal_string(1234567890), "1234567890");
    assert_eq!(decimal_string(u64::MAX), "18446744073709551615");
}

#[test]
fn details_request_lists_each_id_by_position() {
    let ws = SteamWorkshop::new();
    let ids = vec!["121090376".to_string(), "2764154633".to_string()];
    let req = ws.published_file_details_request(&ids).unwrap();
    assert_eq!(req.method, HttpMethod::Post);
    assert_eq!(
        req.url,
        "https://api.steampowered.com/ISteamRemoteStorage/GetPublishedFileDetails/v1/"
    );
    assert_eq!(req.headers, agent());
    assert_eq!(
        req.params,
        pairs(&[
            ("itemcount", "2"),
            ("publishedfileids[0]", "121090376"),
            ("publishedfileids[1]", "2764154633"),
        ])
    );
}

#[test]
fn details_request_for_no_ids_counts_zero() {
    let ws = SteamWorkshop::new();
    let req = ws.published_file_details_request(&[]).unwrap();
    assert_eq!(req.params, pairs(&[("itemcount", "0")]));
}

#[test]
fn details_request_rejects_first_non_numeric_id() {
    let ws = SteamWorkshop::new();
    let ids = vec!["1".to_string(), "abc".to_string(), "x".to_string()];
    let err = ws.published_file_details_request(&ids).unwrap_err();
    assert_eq!(err, Error::BadRequest("Item is not valid publishedfileid: abc".to_string()));
}

#[test]
fn details_request_rejects_id_over_u64() {
    let ws = SteamWorkshop::new();
    let ids = vec!["18446744073709551616".to_string()];
    assert!(matches!(ws.published_file_details_request(&ids), Err(Error::BadRequest(_))));
}

#[test]
fn published_items_drop_missing_entries() {
    let entries = vec![
        DetailEntry { result: Some(9), item: None },
        DetailEntry { result: Some(1), item: Some(detail_item("121090376", "10")) },
        DetailEntry { result: None, item: None },
        DetailEntry { result: Some(1), item: Some(detail_item("2764154633", "20")) },
    ];
    let items = published_items(entries).unwrap();
    assert_eq!(items.len(), 2);
    assert_eq!(items[0].publishedfileid, "121090376");
    assert_eq!(items[1].publishedfileid, "2764154633");
}

#[test]
fn published_items_fail_on_undecodable_found_entry() {
    let entries = vec![DetailEntry { result: Some(1), item: None }];
    assert!(matches!(published_items(entries), Err(Error::RequestError(_))));
}

#[test]
fn published_items_of_empty_answer() {
    assert_eq!(published_items(Vec::new()).unwrap(), Vec::new());
}

#[test]
fn collection_request_asks_for_one_collection() {
    let ws = SteamWorkshop::new();
    let req = ws.collection_details_request("1234");
    assert_eq!(req.method, HttpMethod::Post);
    assert_eq!(
        req.url,
        "https://api.steampowered.com/ISteamRemoteStorage/GetCollectionDetails/v1/"
    );
    assert_eq!(
        req.params,
        pairs(&[("collectioncount", "1"), ("publishedfileids[0]", "1234")])
    );
}

#[test]
fn collection_children_in_order() {
    let child = |id: &str, order: u32| CollectionChild {
        publishedfileid: id.to_string(),
        sortorder: order,
        filetype: 0,
    };
    let answer = CollectionResponse {
        result: 1,
        resultcount: 1,
        collectiondetails: vec![CollectionDetails {
            publishedfileid: "1234".to_string(),
            result: 1,
            children: Some(vec![child("30", 0), child("10", 1), child("20", 2)]),
        }],
    };
    assert_eq!(
        collection_children(&answer).unwrap(),
        Some(vec!["30".to_string(), "10".to_string(), "20".to_string()])
    );
}

#[test]
fn collection_children_of_non_collection() {
    let zero = CollectionResponse { result: 1, resultcount: 0, collectiondetails: Vec::new() };
    assert_eq!(collection_children(&zero).unwrap(), None);
    let childless = CollectionResponse {
        result: 1,
        resultcount: 1,
        collectiondetails: vec![CollectionDetails {
            publishedfileid: "121090376".to_string(),
            result: 1,
            children: None,
        }],
    };
    assert_eq!(collection_children(&childless).unwrap(), None);
}

#[test]
fn collection_children_of_answer_without_details() {
    let answer = CollectionResponse { result: 1, resultcount: 1, collectiondetails: Vec::new() };
    assert!(matches!(collection_children(&answer), Err(Error::RequestError(_))));
}

#[test]
fn search_without_key_or_proxy_is_not_authorized() {
    let ws = SteamWorkshop::new();
    let err = ws.search_request("test", &SearchOptions::default()).unwrap_err();
    assert_eq!(err, Error::NotAuthorized);
    assert!(matches!(ws.subscribe_request("1", true), Err(Error::NotAuthorized)));
    assert!(matches!(ws.unsubscribe_request("1"), Err(Error::NotAuthorized)));
}

#[test]
fn search_through_proxy_needs_no_key() {
    let mut ws = SteamWorkshop::new();
    ws.set_proxy_domain(Some("steamproxy.example.com".to_string()));
    let req = ws.search_request("blah", &SearchOptions::default()).unwrap();
    assert_eq!(req.url, "https://steamproxy.example.com/IPublishedFileService/QueryFiles/v1/");
    assert!(req.params.contains(&("key".to_string(), String::new())));
    ws.set_proxy_domain(None);
    assert_eq!(ws.request_domain(), "api.steampowered.com");
    assert!(ws.search_request("blah", &SearchOptions::default()).is_err());
}

#[test]
fn search_request_parameters() {
    let mut ws = SteamWorkshop::new();
    ws.set_apikey(Some("KEY".to_string()));
    let options = SearchOptions {
        count: 10,
        app_id: 550,
        cursor: None,
        required_tags: Some(SearchTagOptions::new(
            vec!["Maps".to_string(), "Campaigns".to_string()],
            true,
        )),
        excluded_tags: Some(vec!["Weapons".to_string()]),
    };
    let req: Request = ws.search_request("test", &options).unwrap();
    assert_eq!(req.method, HttpMethod::Get);
    assert_eq!(req.url, "https://api.steampowered.com/IPublishedFileService/QueryFiles/v1/");
    assert_eq!(
        req.headers,
        pairs(&[
            ("User-Agent", "rs-steamwebapi/v0.5.0"),
            ("Content-Type", "application/x-www-form-urlencoded"),
        ])
    );
    assert_eq!(
        req.params,
        pairs(&[
            ("page", "1"),
            ("numperpage", "10"),
            ("cursor", "*"),
            ("search_text", "test"),
            ("appid", "550"),
            ("creator_appid", "550"),
            ("return_metadata", "1"),
            ("key", "KEY"),
            ("requiredtags", "Maps,Campaigns"),
            ("match_all_tags", "1"),
            ("excludedtags", "Weapons"),
        ])
    );
}

#[test]
fn search_request_with_cursor_and_any_tag() {
    let mut ws = SteamWorkshop::new();
    ws.set_apikey(Some("KEY".to_string()));
    let options = SearchOptions {
        count: 5,
        app_id: 4000,
        cursor: Some("AoJ4".to_string()),
        required_tags: Some(SearchTagOptions::new(vec!["Maps".to_string()], false)),
        excluded_tags: Some(Vec::new()),
    };
    let req = ws.search_request("", &options).unwrap();
    let expected = pairs(&[
        ("page", "1"),
        ("numperpage", "5"),
        ("cursor", "AoJ4"),
        ("search_text", ""),
        ("appid", "4000"),
        ("creator_appid", "4000"),
        ("return_metadata", "1"),
        ("key", "KEY"),
        ("requiredtags", "Maps"),
        ("match_all_tags", "0"),
        ("excludedtags", ""),
    ]);
    assert_eq!(req.params, expected);
}

#[test]
fn search_results_with_zero_total_are_empty() {
    let answer = SearchResponse { total: 0, items: None };
    assert_eq!(search_results(&answer).unwrap(), Vec::new());
}

#[test]
fn search_results_without_items_fail() {
    let answer = SearchResponse { total: 3, items: None };
    assert!(matches!(search_results(&answer), Err(Error::RequestError(_))));
}

#[test]
fn search_results_in_detail_shape() {
    let answer = SearchResponse {
        total: 2,
        items: Some(vec![search_item("1", 2048), search_item("2", 0)]),
    };
    let items = search_results(&answer).unwrap();
    assert_eq!(items, vec![detail_item("1", "2048"), detail_item("2", "0")]);
}

#[test]
fn can_subscribe_defaults_to_false() {
    assert!(!can_subscribe_answer(None));
    assert!(!can_subscribe_answer(Some(false)));
    assert!(can_subscribe_answer(Some(true)));
}

#[test]
fn can_subscribe_request_needs_key_and_official_host() {
    let mut ws = SteamWorkshop::new();
    ws.set_proxy_domain(Some("steamproxy.example.com".to_string()));
    assert_eq!(ws.can_subscribe_request("122447941").unwrap_err(), Error::NotAuthorized);
    ws.set_apikey(Some("KEY".to_string()));
    let req = ws.can_subscribe_request("122447941").unwrap();
    assert_eq!(req.method, HttpMethod::Get);
    assert_eq!(req.url, "https://api.steampowered.com/IPublishedFileService/CanSubscribe/v1/");
    assert_eq!(req.params, pairs(&[("key", "KEY"), ("publishedfileid", "122447941")]));
}

#[test]
fn subscribe_requests_carry_flags() {
    let mut ws = SteamWorkshop::new();
    ws.set_apikey(Some("KEY".to_string()));
    let sub = ws.subscribe_request("2855027013", true).unwrap();
    assert_eq!(sub.method, HttpMethod::Post);
    assert_eq!(sub.url, "https://api.steampowered.com/IPublishedFileService/Subscribe/v1/");
    assert_eq!(
        sub.params,
        pairs(&[
            ("key", "KEY"),
            ("publishedfileid", "2855027013"),
            ("list_type", "1"),
            ("notify_client", "1"),
        ])
    );
    let unsub = ws.unsubscribe_request("2855027013").unwrap();
    assert_eq!(unsub.url, "https://api.steampowered.com/IPublishedFileService/Unsubscribe/v1/");
    assert_eq!(
        unsub.params,
        pairs(&[("key", "KEY"), ("publishedfileid", "2855027013"), ("list_type", "1")])
    );
}

#[test]
fn client_configuration() {
    let mut ws = SteamWorkshop::new();
    assert_eq!(ws.apikey(), None);
    assert_eq!(ws.request_domain(), "api.steampowered.com");
    ws.set_apikey(Some("KEY".to_string()));
    assert_eq!(ws.apikey(), Some(&"KEY".to_string()));
    ws.set_apikey(None);
    assert_eq!(ws.apikey(), None);
}

#[test]
fn detail_to_search_and_back_keeps_item() {
    let item = detail_item("121090376", "4096");
    let search = item.to_search_item().unwrap();
    assert_eq!(search.file_size, 4096);
    assert_eq!(search.file_description, "A campaign");
    assert_eq!(search.creator_appid, 550);
    assert_eq!(search.consumer_appid, 551);
    assert_eq!(search.to_workshop_item(), item);
}

#[test]
fn detail_round_trip_canonicalizes_size() {
    let item = detail_item("1", "+0042");
    let back = item.to_search_item().unwrap().to_workshop_item();
    assert_eq!(back.file_size, "42");
    assert_eq!(back, WorkshopItem { file_size: "42".to_string(), ..item });
}

#[test]
fn search_round_trip_is_identity() {
    let search = search_item("1", u64::MAX);
    let detail = search.to_workshop_item();
    assert_eq!(detail.file_size, "18446744073709551615");
    assert_eq!(detail.to_search_item().unwrap(), search);
}

#[test]
fn detail_with_non_numeric_size_has_no_search_shape() {
    assert_eq!(detail_item("1", "big").to_search_item(), None);
    assert_eq!(detail_item("1", "").to_search_item(), None);
}

#[test]
fn item_and_error_text() {
    assert_eq!(detail_item("121090376", "1").to_string(), "Dark Carnival - 121090376");
    assert_eq!(Error::NotAuthorized.to_string(), "Not authorized");
    assert_eq!(
        Error::RequestError("timed out".to_string()).to_string(),
        "Request Error: timed out"
    );
    assert_eq!(Error::BadRequest("x".to_string()).to_string(), "Incorrect request: x");
}

#[test]
fn vpk_file_names() {
    assert!(is_vpk_file_name("map.vpk"));
    assert!(is_vpk_file_name(".vpk"));
    assert!(!is_vpk_file_name("vpk"));
    assert!(!is_vpk_file_name("map.vpk.txt"));
    assert!(!is_vpk_file_name("map.VPK"));
    assert!(!is_vpk_file_name("été.vpx"));
}

#[test]
fn query_type_codes() {
    assert_eq!(PublishedFileQueryType::RankedByVote.code(), 0);
    assert_eq!(PublishedFileQueryType::RankedByTrend.code(), 3);
    assert_eq!(PublishedFileQueryType::RankedByTextSearch.code(), 12);
    assert_eq!(PublishedFileQueryType::RankedByLastUpdatedDate.code(), 21);
}
