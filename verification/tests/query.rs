use xivapi_rust::error::ApiError;
use xivapi_rust::query::{
    character_lookup_request, character_lookup_url, character_search_url,
    free_company_lookup_request, free_company_lookup_url, free_company_search_url, lookup_query,
    name_as_token, parse_selectors, search_query, DataSelector,
};

#[test]
fn name_is_joined_into_one_token() {
    assert_eq!(name_as_token("Tami Pesagniyah"), "Tami+Pesagniyah");
    assert_eq!(name_as_token("  Tami \t Pesagniyah\n"), "Tami+Pesagniyah");
    assert_eq!(name_as_token("Scott"), "Scott");
    assert_eq!(name_as_token("a b c"), "a+b+c");
    assert_eq!(name_as_token(""), "");
    assert_eq!(name_as_token("   "), "");
}

#[test]
fn search_parameters_come_in_order() {
    assert_eq!(search_query("Scott", None, None), "name=Scott");
    assert_eq!(search_query("Scott", Some("Omega"), None), "name=Scott&server=Omega");
    assert_eq!(search_query("Scott", None, Some(3)), "name=Scott&page=3");
    assert_eq!(
        search_query("Tami Pesagniyah", Some("Omega"), Some(255)),
        "name=Tami+Pesagniyah&server=Omega&page=255"
    );
    assert_eq!(search_query("Scott", Some(""), Some(0)), "name=Scott&server=&page=0");
}

#[test]
fn character_search_address() {
    assert_eq!(
        character_search_url("Tami Pesagniyah", Some("Omega"), None),
        "https://xivapi.com/character/search?name=Tami+Pesagniyah&server=Omega"
    );
    assert_eq!(
        character_search_url("Scott", None, Some(2)),
        "https://xivapi.com/character/search?name=Scott&page=2"
    );
}

#[test]
fn free_company_search_address() {
    assert_eq!(
        free_company_search_url("SEES", Some("Omega"), None),
        "https://xivapi.com/freecompany/search?name=SEES&server=Omega"
    );
    assert_eq!(
        free_company_search_url("Knights of the Round", None, Some(10)),
        "https://xivapi.com/freecompany/search?name=Knights+of+the+Round&page=10"
    );
}

#[test]
fn lookup_parameters() {
    let none: Vec<DataSelector> = vec![];
    assert_eq!(lookup_query(false, &none), "");
    assert_eq!(lookup_query(true, &none), "extended=1");
    assert_eq!(lookup_query(false, &vec![DataSelector::Achievements]), "data=AC");
    assert_eq!(
        lookup_query(true, &vec![DataSelector::Friends, DataSelector::FreeCompanyMembers]),
        "extended=1&data=FR,FCM"
    );
}

#[test]
fn extended_appears_only_when_asked_for() {
    let all = vec![
        DataSelector::Achievements,
        DataSelector::Friends,
        DataSelector::FreeCompany,
        DataSelector::FreeCompanyMembers,
        DataSelector::Minions,
        DataSelector::Mounts,
        DataSelector::PvpTeam,
    ];
    for extended in [false, true] {
        for n in 0..all.len() + 1 {
            let chosen: Vec<DataSelector> = all[..n].to_vec();
            let query = lookup_query(extended, &chosen);
            let params: Vec<&str> = if query.is_empty() { vec![] } else { query.split('&').collect() };
            assert_eq!(params.contains(&"extended=1"), extended);
            assert_eq!(params.iter().any(|p| p.starts_with("data=")), n > 0);
            assert!(!params.contains(&"data="));
        }
    }
}

#[test]
fn character_lookup_address() {
    let none: Vec<DataSelector> = vec![];
    assert_eq!(character_lookup_url(730968, false, &none), "https://xivapi.com/character/730968");
    assert_eq!(
        character_lookup_url(730968, true, &none),
        "https://xivapi.com/character/730968?extended=1"
    );
    assert_eq!(
        character_lookup_url(0, true, &vec![DataSelector::Minions, DataSelector::PvpTeam]),
        "https://xivapi.com/character/0?extended=1&data=MIMO,PVP"
    );
    assert_eq!(
        character_lookup_url(u32::MAX, false, &vec![DataSelector::FreeCompany]),
        "https://xivapi.com/character/4294967295?data=FC"
    );
}

#[test]
fn free_company_lookup_address() {
    let none: Vec<DataSelector> = vec![];
    assert_eq!(
        free_company_lookup_url("9231253336202687179", false, &none),
        "https://xivapi.com/freecompany/9231253336202687179"
    );
    assert_eq!(
        free_company_lookup_url("9231253336202687179", true, &vec![DataSelector::FreeCompanyMembers]),
        "https://xivapi.com/freecompany/9231253336202687179?extended=1&data=FCM"
    );
}

#[test]
fn tokens_of_the_selectors() {
    assert_eq!(DataSelector::Achievements.token(), "AC");
    assert_eq!(DataSelector::Friends.token(), "FR");
    assert_eq!(DataSelector::FreeCompany.token(), "FC");
    assert_eq!(DataSelector::FreeCompanyMembers.token(), "FCM");
    assert_eq!(DataSelector::Minions.token(), "MIMO");
    assert_eq!(DataSelector::Mounts.token(), "MIMO");
    assert_eq!(DataSelector::PvpTeam.token(), "PVP");
}

#[test]
fn tokens_are_read_back() {
    assert_eq!(DataSelector::from_token("AC"), Some(DataSelector::Achievements));
    assert_eq!(DataSelector::from_token("FR"), Some(DataSelector::Friends));
    assert_eq!(DataSelector::from_token("FC"), Some(DataSelector::FreeCompany));
    assert_eq!(DataSelector::from_token("FCM"), Some(DataSelector::FreeCompanyMembers));
    assert_eq!(DataSelector::from_token("MIMO"), Some(DataSelector::Minions));
    assert_eq!(DataSelector::from_token("PVP"), Some(DataSelector::PvpTeam));
    for s in [
        DataSelector::Achievements,
        DataSelector::Friends,
        DataSelector::FreeCompany,
        DataSelector::FreeCompanyMembers,
        DataSelector::Minions,
        DataSelector::Mounts,
        DataSelector::PvpTeam,
    ] {
        assert_eq!(DataSelector::from_token(s.token()).map(|r| r.token()), Some(s.token()));
    }
}

#[test]
fn what_is_no_token_is_not_read() {
    assert_eq!(DataSelector::from_token(""), None);
    assert_eq!(DataSelector::from_token("ac"), None);
    assert_eq!(DataSelector::from_token("AC "), None);
    assert_eq!(DataSelector::from_token("Achievements"), None);
    assert_eq!(DataSelector::from_token("AC,FR"), None);
}

#[test]
fn selectors_are_parsed_in_order() {
    assert_eq!(parse_selectors(&vec![]), Ok(vec![]));
    assert_eq!(
        parse_selectors(&vec!["PVP", "AC", "AC"]),
        Ok(vec![DataSelector::PvpTeam, DataSelector::Achievements, DataSelector::Achievements])
    );
}

#[test]
fn the_first_invalid_selector_is_refused() {
    assert_eq!(
        parse_selectors(&vec!["AC", "bogus", "FR", "worse"]),
        Err(ApiError::InvalidSelector("bogus".to_string()))
    );
    assert_eq!(parse_selectors(&vec![""]), Err(ApiError::InvalidSelector(String::new())));
}

#[test]
fn lookup_request_validates_before_anything_is_sent() {
    assert_eq!(
        character_lookup_request(1, false, Some(vec!["Achievments"])),
        Err(ApiError::InvalidSelector("Achievments".to_string()))
    );
    assert_eq!(
        free_company_lookup_request("1", true, Some(vec!["FCM", "fcm"])),
        Err(ApiError::InvalidSelector("fcm".to_string()))
    );
}

#[test]
fn lookup_request_builds_the_address() {
    assert_eq!(
        character_lookup_request(730968, false, None),
        Ok("https://xivapi.com/character/730968".to_string())
    );
    assert_eq!(
        character_lookup_request(730968, false, Some(vec![])),
        Ok("https://xivapi.com/character/730968".to_string())
    );
    assert_eq!(
        character_lookup_request(730968, true, Some(vec!["AC", "FR"])),
        Ok("https://xivapi.com/character/730968?extended=1&data=AC,FR".to_string())
    );
    assert_eq!(
        free_company_lookup_request("9231253336202687179", false, Some(vec!["FCM"])),
        Ok("https://xivapi.com/freecompany/9231253336202687179?data=FCM".to_string())
    );
}
