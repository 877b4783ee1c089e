use std::collections::HashMap;
use xivapi_rust::character::achievements::{Achievements, CharacterAchievements};
use xivapi_rust::character::attributes::entries_of;
use xivapi_rust::character::class::{Class, ClassBozjan, ClassElemental, ClassUnlockedState};
use xivapi_rust::character::gear::{Gear, GearPiece, GearSet};
use xivapi_rust::character::{
    Character, CharacterResult, CharacterSearch, CharacterSearchResults, GrandCompany, Mimo,
};
use xivapi_rust::error::ApiError;
use xivapi_rust::freecompany::{
    FcEstate, FcFocus, FcRanking, FcReputation, FreeCompany, FreeCompanyResult, FreeCompanySearch,
    FreeCompanySearchResults, Seeking,
};
use xivapi_rust::json::{get, parse_json, Json};
use xivapi_rust::pagination::Pagination;
use xivapi_rust::query::{
    character_lookup_request, character_search_url, free_company_lookup_request,
    free_company_search_url,
};
use xivapi_rust::response::{check_status, decode_document, read_body, read_response};
use xivapi_rust::wire::Wire;

fn class_text(name: &str) -> String {
    format!(
        "{{\"ClassID\": 26, \"ExpLevel\": 100, \"ExpLevelMax\": 5000, \"ExpLevelTogo\": 4900, \
         \"IsSpecialised\": false, \"JobID\": 27, \"Level\": 80, \"Name\": \"{}\", \
         \"UnlockedState\": {{\"ID\": 27, \"Name\": \"Summoner\"}}}}",
        name
    )
}

fn gear_text() -> String {
    "{\"Attributes\": {\"1\": 310, \"27\": 4500, \"3\": 200}, \"ClassID\": 26, \
     \"Gear\": {\"Body\": {\"Creator\": null, \"Dye\": 36, \"ID\": 26107, \"Materia\": [8, 8], \
     \"Mirage\": 23872}, \"MainHand\": {\"Creator\": \"Somebody\", \"Dye\": null, \"ID\": 25950, \
     \"Materia\": [], \"Mirage\": null}}, \
     \"GearKey\": \"26_27\", \"JobID\": 27, \"Level\": 80}"
        .to_string()
}

fn character_text(with_id: bool) -> String {
    format!(
        "{{\"ActiveClassJob\": {active}, \"Avatar\": \"https://img/a.jpg\", \"Bio\": \"-\", \
         \"ClassJobs\": [{first}, {second}], \
         \"ClassJobsBozjan\": {{\"Level\": null, \"Mettle\": null, \"Name\": \"Resistance Rank\"}}, \
         \"ClassJobsElemental\": {{\"ExpLevel\": 0, \"ExpLevelMax\": 0, \"ExpLevelTogo\": 0, \
         \"Level\": 0, \"Name\": \"Elemental Level\"}}, \
         \"DC\": \"Chaos\", \"FreeCompanyId\": \"9231253336202687179\", \
         \"FreeCompanyName\": \"SEES\", \"GearSet\": {gear}, \"Gender\": 2, \
         \"GrandCompany\": {{\"NameID\": 1, \"RankID\": 9}}, {id}\"Lang\": null, \
         \"Name\": \"Tami Pesagniyah\", \"Nameday\": \"1st Sun of the 1st Astral Moon\", \
         \"ParseDate\": 1600000000, \"Portrait\": \"https://img/p.jpg\", \"PvPTeamId\": null, \
         \"Race\": 4, \"Server\": \"Omega\", \"Title\": 0, \"TitleTop\": false, \"Town\": 2, \
         \"Tribe\": 7, \"Unheard\": [1, 2, 3]}}",
        active = class_text("Arcanist / Summoner"),
        first = class_text("Arcanist / Summoner"),
        second = class_text("Conjurer / White Mage"),
        gear = gear_text(),
        id = if with_id { "\"ID\": 730968, " } else { "" },
    )
}

fn character_result_text(with_id: bool) -> String {
    format!(
        "{{\"Achievements\": null, \"AchievementsPublic\": null, \"Character\": {}, \
         \"FreeCompany\": null, \"FreeCompanyMembers\": null, \"Friends\": null, \
         \"FriendsPublic\": null, \"Minions\": null, \"Mounts\": null, \"PvPTeam\": null}}",
        character_text(with_id)
    )
}

fn character_search_text() -> String {
    "{\"Pagination\": {\"Page\": 1, \"PageNext\": null, \"PagePrev\": null, \"PageTotal\": 1, \
     \"Results\": 1, \"ResultsPerPage\": 50, \"ResultsTotal\": 1}, \
     \"Results\": [{\"Avatar\": \"https://img/a.jpg\", \"FeastMatches\": 0, \"ID\": 730968, \
     \"Lang\": \"EN\", \"Name\": \"Tami Pesagniyah\", \"Rank\": null, \"RankIcon\": null, \
     \"Server\": \"Omega\"}]}"
        .to_string()
}

fn free_company_text() -> String {
    "{\"Active\": \"Always\", \"ActiveMemberCount\": 12, \"Crest\": [\"https://img/1.png\", \
     \"https://img/2.png\"], \"DC\": \"Chaos\", \
     \"Estate\": {\"Greeting\": \"Welcome\", \"Name\": \"Dorm\", \"Plot\": \"Plot 3, 5 Ward, The Goblet\"}, \
     \"Focus\": [{\"Icon\": \"https://img/f.png\", \"Name\": \"Role-playing\", \"Status\": false}], \
     \"Formed\": 1500000000, \"GrandCompany\": \"Maelstrom\", \"ID\": \"9231253336202687179\", \
     \"Name\": \"SEES\", \"ParseDate\": 1600000000, \"Rank\": 8, \
     \"Ranking\": {\"Monthly\": 10, \"Weekly\": 7}, \"Recruitment\": \"Open\", \
     \"Reputation\": [{\"Name\": \"Maelstrom\", \"Progress\": 100, \"Rank\": \"Allied\"}], \
     \"Seeking\": [{\"Icon\": \"https://img/s.png\", \"Name\": \"Tank\", \"Status\": true}], \
     \"Server\": \"Omega\", \"Slogan\": \"\", \"Tag\": \"SEES\"}"
        .to_string()
}

fn free_company_search_text() -> String {
    "{\"Pagination\": {\"Page\": 1, \"PageNext\": 2, \"PagePrev\": null, \"PageTotal\": 2, \
     \"Results\": 1, \"ResultsPerPage\": 1, \"ResultsTotal\": 2}, \
     \"Results\": [{\"Crest\": [], \"ID\": \"9231253336202687179\", \"Name\": \"SEES\", \
     \"Server\": \"Omega\"}]}"
        .to_string()
}

fn document(text: &str) -> Json {
    parse_json(text).expect("the text is JSON")
}

fn without(doc: &Json, name: &str) -> Json {
    match doc {
        Json::Object(fields) => Json::Object(
            fields.iter().filter(|(k, _)| k != name).map(|(k, v)| (k.clone(), copy(v))).collect(),
        ),
        other => copy(other),
    }
}

fn with(doc: &Json, name: &str, value: Json) -> Json {
    match without(doc, name) {
        Json::Object(mut fields) => {
            fields.push((name.to_string(), value));
            Json::Object(fields)
        }
        other => other,
    }
}

fn copy(doc: &Json) -> Json {
    match doc {
        Json::Null => Json::Null,
        Json::Bool(b) => Json::Bool(*b),
        Json::Number(n) => Json::Number(n.clone()),
        Json::Text(t) => Json::Text(t.clone()),
        Json::List(items) => Json::List(items.iter().map(copy).collect()),
        Json::Object(fields) => {
            Json::Object(fields.iter().map(|(k, v)| (k.clone(), copy(v))).collect())
        }
    }
}

#[test]
fn test_character_search() {
    let url = character_search_url("Tami Pesagniyah", Some("Omega"), None);
    assert_eq!(url, "https://xivapi.com/character/search?name=Tami+Pesagniyah&server=Omega");
    let found: CharacterSearchResults = read_response(200, &character_search_text()).unwrap();
    assert!(found.results.len() >= 1);
    assert_eq!(found.results[0].server, "Omega");
    assert_eq!(found.results[0].name, "Tami Pesagniyah");
    assert_eq!(found.results[0].id, 730968);
    assert_eq!(found.results[0].lang, Some("EN".to_string()));
    assert_eq!(found.results[0].rank, None);
    assert_eq!(found.pagination.page_next, None);
    assert_eq!(found.pagination.results_per_page, 50);
}

#[test]
fn test_character_lookup() {
    let search_url = character_search_url("Tami Pesagniyah", Some("Omega"), None);
    assert_eq!(
        search_url,
        "https://xivapi.com/character/search?name=Tami+Pesagniyah&server=Omega"
    );
    let found: CharacterSearchResults = read_response(200, &character_search_text()).unwrap();
    let url = character_lookup_request(found.results[0].id, false, None).unwrap();
    assert_eq!(url, "https://xivapi.com/character/730968");
    let profile: CharacterResult = read_response(200, &character_result_text(true)).unwrap();
    assert_eq!(profile.character.name, found.results[0].name);
    assert_eq!(profile.character.id, found.results[0].id);
    assert_eq!(profile.achievements_public, None);
    assert_eq!(profile.achievements, None);
    assert_eq!(profile.friends, None);
    assert_eq!(profile.character.class_jobs.len(), 2);
    assert_eq!(profile.character.class_jobs[1].name, "Conjurer / White Mage");
    assert_eq!(profile.character.class_jobs_bozjan.level, None);
    assert_eq!(profile.character.gear_set.gear.head, None);
    assert_eq!(profile.character.gear_set.gear.body.as_ref().unwrap().id, 26107);
    assert_eq!(profile.character.gear_set.attributes.get(&27), Some(&4500));
}

#[test]
fn test_free_company_search() {
    let url = free_company_search_url("SEES", Some("Omega"), None);
    assert_eq!(url, "https://xivapi.com/freecompany/search?name=SEES&server=Omega");
    let found: FreeCompanySearchResults =
        read_response(200, &free_company_search_text()).unwrap();
    assert!(found.results.len() >= 1);
    assert_eq!(found.results[0].name, "SEES");
    assert_eq!(found.results[0].crest, Vec::<String>::new());
    assert_eq!(found.pagination.page_next, Some(2));
    assert_eq!(found.pagination.page_prev, None);
}

#[test]
fn test_free_company_lookup() {
    let found: FreeCompanySearchResults =
        read_response(200, &free_company_search_text()).unwrap();
    let url = free_company_lookup_request(&found.results[0].id, false, None).unwrap();
    assert_eq!(url, "https://xivapi.com/freecompany/9231253336202687179");
    let body = format!("{{\"FreeCompany\": {}}}", free_company_text());
    let profile: FreeCompanyResult = read_response(200, &body).unwrap();
    assert!(!profile.free_company.tag.is_empty());
    assert_eq!(profile.free_company.tag, "SEES");
    assert_eq!(profile.free_company_members, None);
    assert_eq!(profile.free_company.active_member_count, 12);
    assert_eq!(profile.free_company.ranking, FcRanking { monthly: 10, weekly: 7 });
    assert_eq!(profile.free_company.reputation[0].progress, 100);
    assert_eq!(profile.free_company.crest.len(), 2);
}

#[test]
fn a_profile_without_its_id_is_a_mismatch_at_that_path() {
    let r: Result<CharacterResult, ApiError> = read_response(200, &character_result_text(false));
    assert_eq!(r, Err(ApiError::SchemaMismatch("character.id".to_string())));
}

#[test]
fn a_missing_profile_is_a_mismatch_at_its_name() {
    let doc = without(&document(&character_result_text(true)), "Character");
    assert_eq!(
        decode_document::<CharacterResult>(&doc),
        Err(ApiError::SchemaMismatch("character".to_string()))
    );
}

#[test]
fn a_document_of_the_wrong_kind_is_a_mismatch_at_the_root() {
    assert_eq!(
        decode_document::<CharacterResult>(&Json::List(vec![])),
        Err(ApiError::SchemaMismatch(String::new()))
    );
    assert_eq!(
        read_response::<Pagination>(200, "3"),
        Err(ApiError::SchemaMismatch(String::new()))
    );
}

#[test]
fn the_first_mismatch_in_the_order_of_the_fields_is_reported() {
    let doc = document(&character_search_text());
    let page = document("{\"Page\": 1}");
    let broken = with(&with(&doc, "Results", Json::Null), "Pagination", page);
    assert_eq!(
        decode_document::<CharacterSearchResults>(&broken),
        Err(ApiError::SchemaMismatch("pagination.page_total".to_string()))
    );
}

#[test]
fn a_mismatch_inside_a_list_names_the_position() {
    let text = character_search_text().replace(
        "\"Results\": [",
        "\"Results\": [{\"Avatar\": \"a\", \"FeastMatches\": 0, \"ID\": 1, \"Name\": \"n\", \
         \"Server\": \"s\"}, {\"Avatar\": \"a\", \"FeastMatches\": 0, \"ID\": \"1\", \
         \"Name\": \"n\", \"Server\": \"s\"}, ",
    );
    assert_eq!(
        read_response::<CharacterSearchResults>(200, &text),
        Err(ApiError::SchemaMismatch("results.1.id".to_string()))
    );
}

#[test]
fn a_number_that_does_not_fit_is_a_mismatch() {
    let text = character_search_text().replace("\"ResultsPerPage\": 50", "\"ResultsPerPage\": 256");
    assert_eq!(
        read_response::<CharacterSearchResults>(200, &text),
        Err(ApiError::SchemaMismatch("pagination.results_per_page".to_string()))
    );
    let text = character_search_text().replace("\"ResultsTotal\": 1", "\"ResultsTotal\": 65536");
    assert_eq!(
        read_response::<CharacterSearchResults>(200, &text),
        Err(ApiError::SchemaMismatch("pagination.results_total".to_string()))
    );
    let text = character_search_text().replace("\"ResultsTotal\": 1", "\"ResultsTotal\": 65535");
    assert_eq!(
        read_response::<CharacterSearchResults>(200, &text).map(|r| r.pagination.results_total),
        Ok(65535)
    );
    let text = character_search_text().replace("\"FeastMatches\": 0", "\"FeastMatches\": -1");
    assert_eq!(
        read_response::<CharacterSearchResults>(200, &text),
        Err(ApiError::SchemaMismatch("results.0.feast_matches".to_string()))
    );
}

#[test]
fn members_are_read_by_their_wire_names_only() {
    let text = character_search_text().replace("\"ID\": 730968", "\"Id\": 730968");
    assert_eq!(
        read_response::<CharacterSearchResults>(200, &text),
        Err(ApiError::SchemaMismatch("results.0.id".to_string()))
    );
    let text = free_company_text().replace("\"DC\"", "\"Dc\"");
    assert_eq!(
        read_response::<FreeCompany>(200, &text),
        Err(ApiError::SchemaMismatch("dc".to_string()))
    );
    let text = "{\"NameId\": 1, \"RankID\": 2}";
    assert_eq!(
        read_response::<GrandCompany>(200, text),
        Err(ApiError::SchemaMismatch("name_id".to_string()))
    );
}

#[test]
fn unknown_members_are_ignored() {
    let text = "{\"Icon\": \"i\", \"Name\": \"n\", \"Colour\": \"red\", \"Extra\": {\"a\": [1]}}";
    assert_eq!(
        read_response::<Mimo>(200, text),
        Ok(Mimo { icon: "i".to_string(), name: "n".to_string() })
    );
}

#[test]
fn absent_is_not_empty() {
    let base = document(&character_result_text(true));
    let absent: CharacterResult = decode_document(&without(&base, "Friends")).unwrap();
    assert_eq!(absent.friends, None);
    let null: CharacterResult = decode_document(&with(&base, "Friends", Json::Null)).unwrap();
    assert_eq!(null.friends, None);
    let empty: CharacterResult =
        decode_document(&with(&base, "Friends", Json::List(vec![]))).unwrap();
    assert_eq!(empty.friends, Some(vec![]));
    assert_ne!(empty.friends, absent.friends);
    let minions = document("[{\"Icon\": \"i\", \"Name\": \"Wind-up Tonberry\"}]");
    let some: CharacterResult = decode_document(&with(&base, "Minions", minions)).unwrap();
    assert_eq!(
        some.minions,
        Some(vec![Mimo { icon: "i".to_string(), name: "Wind-up Tonberry".to_string() }])
    );
    assert_eq!(some.mounts, None);
}

#[test]
fn achievements_are_absent_unless_sent() {
    let base = document(&character_result_text(true));
    let hidden: CharacterResult =
        decode_document(&with(&base, "AchievementsPublic", Json::Bool(false))).unwrap();
    assert_eq!(hidden.achievements_public, Some(false));
    assert_eq!(hidden.achievements, None);
    let list = document("{\"List\": [{\"List\": [\"a\", \"b\"], \"Points\": 20}], \"Points\": 20}");
    let shown: CharacterResult = decode_document(&with(
        &with(&base, "AchievementsPublic", Json::Bool(true)),
        "Achievements",
        list,
    ))
    .unwrap();
    assert_eq!(
        shown.achievements,
        Some(CharacterAchievements {
            list: vec![Achievements { list: vec!["a".to_string(), "b".to_string()], points: 20 }],
            points: 20,
        })
    );
    let none: CharacterResult = decode_document(&with(
        &base,
        "Achievements",
        document("{\"List\": [], \"Points\": 0}"),
    ))
    .unwrap();
    assert_eq!(none.achievements, Some(CharacterAchievements { list: vec![], points: 0 }));
}

#[test]
fn an_empty_slot_is_absent() {
    let gear: Gear = read_response(200, "{\"Ring1\": {\"ID\": 5, \"Materia\": []}}").unwrap();
    assert_eq!(
        gear.ring1,
        Some(GearPiece { creator: None, dye: None, id: 5, materia: vec![], mirage: None })
    );
    assert_eq!(gear.ring2, None);
    assert_eq!(gear.body, None);
    assert_eq!(gear.off_hand, None);
    assert_eq!(
        read_response::<Gear>(200, "{\"Ring2\": {\"Materia\": []}}"),
        Err(ApiError::SchemaMismatch("ring2.id".to_string()))
    );
    assert_eq!(
        read_response::<Gear>(200, "{\"OffHand\": {\"ID\": 1}}"),
        Err(ApiError::SchemaMismatch("off_hand.materia".to_string()))
    );
}

#[test]
fn paging_boundaries_are_absent() {
    let only: Pagination = read_response(
        200,
        "{\"Page\": 1, \"PageTotal\": 1, \"Results\": 0, \"ResultsPerPage\": 50, \"ResultsTotal\": 0}",
    )
    .unwrap();
    assert_eq!(only.page_next, None);
    assert_eq!(only.page_prev, None);
    let middle: Pagination = read_response(
        200,
        "{\"Page\": 2, \"PageNext\": 3, \"PagePrev\": 1, \"PageTotal\": 3, \"Results\": 50, \
         \"ResultsPerPage\": 50, \"ResultsTotal\": 150}",
    )
    .unwrap();
    assert_eq!(middle.page_next, Some(3));
    assert_eq!(middle.page_prev, Some(1));
    assert_eq!(middle.results_total, 150);
}

#[test]
fn a_class_without_a_job_has_none() {
    let text = class_text("Arcanist").replace("\"JobID\": 27", "\"JobID\": null").replace(
        "{\"ID\": 27, \"Name\": \"Summoner\"}",
        "{\"ID\": null, \"Name\": \"Arcanist\"}",
    );
    let class: Class = read_response(200, &text).unwrap();
    assert_eq!(class.job_id, None);
    assert_eq!(class.class_id, 26);
    assert_eq!(class.unlocked_state, ClassUnlockedState { id: None, name: "Arcanist".to_string() });
}

#[test]
fn side_progressions_may_be_empty() {
    let bozjan: ClassBozjan = read_response(200, "{\"Name\": \"Resistance Rank\"}").unwrap();
    assert_eq!(bozjan, ClassBozjan { level: None, mettle: None, name: "Resistance Rank".to_string() });
    let bozjan: ClassBozjan =
        read_response(200, "{\"Level\": 25, \"Mettle\": 1234567, \"Name\": \"Resistance Rank\"}")
            .unwrap();
    assert_eq!(bozjan.level, Some(25));
    assert_eq!(bozjan.mettle, Some(1234567));
    let elemental: ClassElemental = read_response(
        200,
        "{\"ExpLevel\": null, \"ExpLevelMax\": null, \"ExpLevelTogo\": null, \"Level\": 0, \
         \"Name\": \"Elemental Level\"}",
    )
    .unwrap();
    assert_eq!(elemental.exp_level, None);
    assert_eq!(elemental.level, 0);
    assert_eq!(
        read_response::<ClassElemental>(200, "{\"Name\": \"Elemental Level\"}"),
        Err(ApiError::SchemaMismatch("level".to_string()))
    );
}

#[test]
fn attributes_are_a_map_by_id() {
    let set: GearSet = read_response(200, &gear_text()).unwrap();
    let expected: HashMap<u32, u32> = [(1, 310), (3, 200), (27, 4500)].into_iter().collect();
    assert_eq!(set.attributes, expected);
    assert_eq!(entries_of(&set.attributes), vec![(1, 310), (3, 200), (27, 4500)]);
    assert_eq!(entries_of(&HashMap::new()), vec![]);
}

#[test]
fn attributes_are_written_in_ascending_order_of_id() {
    let totals: HashMap<u32, u32> =
        [(27, 4500), (3, 200), (1, 310), (4294967295, 0), (0, 9)].into_iter().collect();
    assert_eq!(
        totals.to_json(),
        Json::Object(vec![
            ("0".to_string(), Json::number(9)),
            ("1".to_string(), Json::number(310)),
            ("3".to_string(), Json::number(200)),
            ("27".to_string(), Json::number(4500)),
            ("4294967295".to_string(), Json::number(0)),
        ])
    );
    assert_eq!(HashMap::<u32, u32>::new().to_json(), Json::Object(vec![]));
    assert_eq!(HashMap::<u32, u32>::from_json(&totals.to_json()), Ok(totals));
}

#[test]
fn attributes_with_a_name_that_is_no_id_are_refused() {
    for (text, name) in [
        ("{\"1\": 2, \"01\": 3}", "01"),
        ("{\"x\": 2}", "x"),
        ("{\"\": 2}", ""),
        ("{\"4294967296\": 2}", "4294967296"),
        ("{\"-1\": 2}", "-1"),
        ("{\"1\": 4294967296}", "1"),
        ("{\"1\": \"2\"}", "1"),
        ("{\"7\": null}", "7"),
    ] {
        assert_eq!(HashMap::<u32, u32>::from_json(&document(text)), Err(name.to_string()));
    }
    assert_eq!(HashMap::<u32, u32>::from_json(&Json::List(vec![])), Err(String::new()));
    let text = gear_text().replace("\"27\": 4500", "\"2.7\": 4500");
    assert_eq!(
        read_response::<GearSet>(200, &text),
        Err(ApiError::SchemaMismatch("attributes.2.7".to_string()))
    );
}

#[test]
fn of_two_attributes_with_one_id_the_later_counts() {
    let doc = Json::Object(vec![
        ("5".to_string(), Json::number(1)),
        ("6".to_string(), Json::number(2)),
        ("5".to_string(), Json::number(3)),
    ]);
    let expected: HashMap<u32, u32> = [(5, 3), (6, 2)].into_iter().collect();
    assert_eq!(HashMap::<u32, u32>::from_json(&doc), Ok(expected));
}

#[test]
fn the_status_comes_before_the_body() {
    assert_eq!(check_status(200), Ok(()));
    assert_eq!(check_status(204), Ok(()));
    assert_eq!(check_status(299), Ok(()));
    assert_eq!(check_status(199), Err(ApiError::HttpStatus(199)));
    assert_eq!(check_status(300), Err(ApiError::HttpStatus(300)));
    assert_eq!(check_status(404), Err(ApiError::HttpStatus(404)));
    assert_eq!(check_status(0), Err(ApiError::HttpStatus(0)));
    assert_eq!(
        read_response::<Mimo>(404, "{\"Icon\": \"i\", \"Name\": \"n\"}"),
        Err(ApiError::HttpStatus(404))
    );
    assert_eq!(read_response::<Mimo>(500, "<html>"), Err(ApiError::HttpStatus(500)));
    assert_eq!(read_response::<Mimo>(301, ""), Err(ApiError::HttpStatus(301)));
}

#[test]
fn a_body_that_is_no_json_is_a_parse_error() {
    assert_eq!(read_response::<Mimo>(200, ""), Err(ApiError::Parse));
    assert_eq!(read_response::<Mimo>(200, "<html>"), Err(ApiError::Parse));
    assert_eq!(read_response::<Mimo>(200, "{\"Icon\": \"i\", \"Name\": "), Err(ApiError::Parse));
    assert_eq!(read_response::<CharacterResult>(299, "not json"), Err(ApiError::Parse));
}

#[test]
fn a_body_is_read_from_its_bytes() {
    let text = "{\"Icon\": \"i\", \"Name\": \"Wind-up \u{e9}\"}";
    assert_eq!(
        read_body::<Mimo>(200, text.as_bytes()),
        Ok(Mimo { icon: "i".to_string(), name: "Wind-up \u{e9}".to_string() })
    );
    assert_eq!(read_body::<Mimo>(200, &[0x7b, 0x22, 0xff, 0x22, 0x7d]), Err(ApiError::Parse));
    assert_eq!(read_body::<Mimo>(200, &[0xc3]), Err(ApiError::Parse));
    assert_eq!(read_body::<Mimo>(200, &[]), Err(ApiError::Parse));
    assert_eq!(read_body::<Mimo>(503, &[0xff]), Err(ApiError::HttpStatus(503)));
    assert_eq!(read_body::<Mimo>(404, text.as_bytes()), Err(ApiError::HttpStatus(404)));
    assert_eq!(
        read_body::<Mimo>(200, "{\"Icon\": 1}".as_bytes()),
        Err(ApiError::SchemaMismatch("icon".to_string()))
    );
}

#[test]
fn wire_names_are_written_as_they_are_read() {
    let piece = GearPiece { creator: None, dye: Some(1), id: 2, materia: vec![3], mirage: None };
    assert_eq!(
        piece.to_json(),
        Json::Object(vec![
            ("Creator".to_string(), Json::Null),
            ("Dye".to_string(), Json::number(1)),
            ("ID".to_string(), Json::number(2)),
            ("Materia".to_string(), Json::List(vec![Json::number(3)])),
            ("Mirage".to_string(), Json::Null),
        ])
    );
    let company = GrandCompany { name_id: 1, rank_id: 9 };
    assert_eq!(
        company.to_json(),
        Json::Object(vec![
            ("NameID".to_string(), Json::number(1)),
            ("RankID".to_string(), Json::number(9)),
        ])
    );
    let profile: CharacterResult = read_response(200, &character_result_text(true)).unwrap();
    let written = profile.to_json();
    let fields = written.as_object().unwrap();
    assert!(get(fields, "PvPTeam").is_some());
    assert!(get(fields, "AchievementsPublic").is_some());
    let character = get(fields, "Character").unwrap().as_object().unwrap();
    assert_eq!(get(character, "ID"), Some(&Json::number(730968)));
    assert_eq!(get(character, "DC"), Some(&Json::Text("Chaos".to_string())));
    assert_eq!(get(character, "PvPTeamId"), Some(&Json::Null));
    assert_eq!(get(character, "FreeCompanyId"), Some(&Json::Text("9231253336202687179".to_string())));
    let names: Vec<&str> = character.iter().map(|(k, _)| k.as_str()).collect();
    assert_eq!(names.len(), 25);
    assert_eq!(names[0], "ActiveClassJob");
    assert_eq!(names[24], "Tribe");
    let class = get(character, "ActiveClassJob").unwrap().as_object().unwrap();
    assert_eq!(get(class, "ClassID"), Some(&Json::number(26)));
    assert_eq!(get(class, "JobID"), Some(&Json::number(27)));
    assert!(get(character, "Unheard").is_none());
}

#[test]
fn what_is_decoded_and_encoded_decodes_to_the_same() {
    let profile: CharacterResult = read_response(200, &character_result_text(true)).unwrap();
    assert_eq!(decode_document::<CharacterResult>(&profile.to_json()), Ok(profile.clone()));
    let search: CharacterSearchResults = read_response(200, &character_search_text()).unwrap();
    assert_eq!(decode_document::<CharacterSearchResults>(&search.to_json()), Ok(search));
    let company: FreeCompany = read_response(200, &free_company_text()).unwrap();
    assert_eq!(decode_document::<FreeCompany>(&company.to_json()), Ok(company.clone()));
    let found: FreeCompanySearchResults =
        read_response(200, &free_company_search_text()).unwrap();
    assert_eq!(decode_document::<FreeCompanySearchResults>(&found.to_json()), Ok(found));
    let full = CharacterResult {
        achievements: Some(CharacterAchievements { list: vec![], points: 0 }),
        achievements_public: Some(true),
        character: profile.character.clone(),
        free_company: Some(company.clone()),
        free_company_members: Some(vec![]),
        friends: Some(vec![CharacterSearch {
            avatar: String::new(),
            feast_matches: 4294967295,
            id: 0,
            lang: None,
            name: "A B".to_string(),
            rank: Some("Gold".to_string()),
            rank_icon: Some("https://img/r.png".to_string()),
            server: "Omega".to_string(),
        }]),
        friends_public: Some(false),
        minions: Some(vec![]),
        mounts: None,
        pvpteam: Some("abc".to_string()),
    };
    assert_eq!(decode_document::<CharacterResult>(&full.to_json()), Ok(full));
    let result = FreeCompanyResult { free_company: company, free_company_members: Some(vec![]) };
    assert_eq!(decode_document::<FreeCompanyResult>(&result.to_json()), Ok(result));
}

#[test]
fn every_part_of_a_free_company_is_read() {
    let company: FreeCompany = read_response(200, &free_company_text()).unwrap();
    assert_eq!(
        company,
        FreeCompany {
            active: "Always".to_string(),
            active_member_count: 12,
            crest: vec!["https://img/1.png".to_string(), "https://img/2.png".to_string()],
            dc: "Chaos".to_string(),
            estate: FcEstate {
                greeting: "Welcome".to_string(),
                name: "Dorm".to_string(),
                plot: "Plot 3, 5 Ward, The Goblet".to_string(),
            },
            focus: vec![FcFocus {
                icon: "https://img/f.png".to_string(),
                name: "Role-playing".to_string(),
                status: false,
            }],
            formed: 1500000000,
            grand_company: "Maelstrom".to_string(),
            id: "9231253336202687179".to_string(),
            name: "SEES".to_string(),
            parse_date: 1600000000,
            rank: 8,
            ranking: FcRanking { monthly: 10, weekly: 7 },
            recruitment: "Open".to_string(),
            reputation: vec![FcReputation {
                name: "Maelstrom".to_string(),
                progress: 100,
                rank: "Allied".to_string(),
            }],
            seeking: vec![Seeking {
                icon: "https://img/s.png".to_string(),
                name: "Tank".to_string(),
                status: true,
            }],
            server: "Omega".to_string(),
            slogan: String::new(),
            tag: "SEES".to_string(),
        }
    );
    assert_eq!(
        read_response::<FreeCompanySearch>(200, "{\"Crest\": [], \"ID\": 1, \"Name\": \"n\", \"Server\": \"s\"}"),
        Err(ApiError::SchemaMismatch("id".to_string()))
    );
    assert_eq!(
        read_response::<FcReputation>(200, "{\"Name\": \"n\", \"Progress\": 256, \"Rank\": \"r\"}"),
        Err(ApiError::SchemaMismatch("progress".to_string()))
    );
    assert_eq!(
        read_response::<FreeCompany>(200, &free_company_text().replace("\"ActiveMemberCount\": 12", "\"ActiveMemberCount\": 65536")),
        Err(ApiError::SchemaMismatch("active_member_count".to_string()))
    );
    assert_eq!(
        read_response::<FreeCompany>(200, &free_company_text().replace("\"Weekly\": 7", "\"Weekly\": \"7\"")),
        Err(ApiError::SchemaMismatch("ranking.weekly".to_string()))
    );
}

#[test]
fn every_part_of_a_character_is_read() {
    let profile: CharacterResult = read_response(200, &character_result_text(true)).unwrap();
    let c: &Character = &profile.character;
    assert_eq!(c.active_class_job.name, "Arcanist / Summoner");
    assert_eq!(c.active_class_job.exp_level_togo, 4900);
    assert_eq!(c.active_class_job.is_specialised, false);
    assert_eq!(c.active_class_job.job_id, Some(27));
    assert_eq!(c.avatar, "https://img/a.jpg");
    assert_eq!(c.bio, "-");
    assert_eq!(c.class_jobs_elemental.exp_level, Some(0));
    assert_eq!(c.dc, "Chaos");
    assert_eq!(c.free_company_id, "9231253336202687179");
    assert_eq!(c.free_company_name, "SEES");
    assert_eq!(c.gear_set.class_id, 26);
    assert_eq!(c.gear_set.gear_key, "26_27");
    assert_eq!(c.gear_set.job_id, 27);
    assert_eq!(c.gear_set.level, 80);
    let body = c.gear_set.gear.body.as_ref().unwrap();
    assert_eq!(body.creator, None);
    assert_eq!(body.dye, Some(36));
    assert_eq!(body.materia, vec![8, 8]);
    assert_eq!(body.mirage, Some(23872));
    let main = c.gear_set.gear.main_hand.as_ref().unwrap();
    assert_eq!(main.creator, Some("Somebody".to_string()));
    assert_eq!(main.materia, Vec::<u32>::new());
    assert_eq!(c.gender, 2);
    assert_eq!(c.grand_company, GrandCompany { name_id: 1, rank_id: 9 });
    assert_eq!(c.id, 730968);
    assert_eq!(c.lang, None);
    assert_eq!(c.nameday, "1st Sun of the 1st Astral Moon");
    assert_eq!(c.parse_date, 1600000000);
    assert_eq!(c.portrait, "https://img/p.jpg");
    assert_eq!(c.pvp_team_id, None);
    assert_eq!(c.race, 4);
    assert_eq!(c.server, "Omega");
    assert_eq!(c.title, 0);
    assert_eq!(c.title_top, false);
    assert_eq!(c.town, 2);
    assert_eq!(c.tribe, 7);
}
