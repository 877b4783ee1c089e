//! Free companies: search results and the full profile.

use crate::character::{CharacterSearch, CharacterSearchView};
use crate::json::{lookup, lookup_from, no_fields, put, Json, JsonModel};
use crate::pagination::{Pagination, PaginationView};
use crate::wire::{
    encoded_optional, lemma_optional_round_trip, lemma_required_round_trip, optional,
    read_optional, read_required, required, write_optional, Wire,
};
use vstd::prelude::*;

verus! {

/// One page of the free companies that match a search by name.
#[derive(Debug, Clone, PartialEq, Eq)]
pub struct FreeCompanySearchResults {
    /// Where this page stands among all results.
    pub pagination: Pagination,
    /// The free companies found, in the order of the server.
    pub results: Vec<FreeCompanySearch>,
}

/// The mathematical value of a [`FreeCompanySearchResults`].
pub struct FreeCompanySearchResultsView {
    pub pagination: PaginationView,
    pub results: Seq<FreeCompanySearchView>,
}

impl DeepView for FreeCompanySearchResults {
    type V = FreeCompanySearchResultsView;

    open spec fn deep_view(&self) -> FreeCompanySearchResultsView {
        FreeCompanySearchResultsView {
            pagination: self.pagination.deep_view(),
            results: self.results.deep_view(),
        }
    }
}

impl Wire for FreeCompanySearchResults {
    open spec fn decoded(doc: JsonModel) -> Result<FreeCompanySearchResultsView, Seq<char>> {
        match doc {
            JsonModel::Object(fields) => {
                let pagination = required::<Pagination>(fields, "Pagination"@, "pagination"@);
                let results = required::<Vec<FreeCompanySearch>>(fields, "Results"@, "results"@);
                if pagination is Err {
                    Err(pagination->Err_0)
                } else if results is Err {
                    Err(results->Err_0)
                } else {
                    Ok(
                        FreeCompanySearchResultsView {
                            pagination: pagination->Ok_0,
                            results: results->Ok_0,
                        },
                    )
                }
            },
            _ => Err(Seq::empty()),
        }
    }

    open spec fn encoded(value: FreeCompanySearchResultsView) -> JsonModel {
        JsonModel::Object(
            Seq::empty()
                .push(("Pagination"@, Pagination::encoded(value.pagination)))
                .push(("Results"@, Vec::<FreeCompanySearch>::encoded(value.results))),
        )
    }

    fn from_json(doc: &Json) -> (r: Result<FreeCompanySearchResults, String>) {
        match doc.as_object() {
            None => Err(String::new()),
            Some(fields) => {
                let pagination = read_required::<Pagination>(fields, "Pagination", "pagination")?;
                let results = read_required::<Vec<FreeCompanySearch>>(
                    fields,
                    "Results",
                    "results",
                )?;
                Ok(
                    FreeCompanySearchResults {
                        pagination,
                        results,
                    },
                )
            },
        }
    }

    fn to_json(&self) -> (doc: Json) {
        let mut fields = no_fields();
        put(&mut fields, "Pagination", self.pagination.to_json());
        put(&mut fields, "Results", self.results.to_json());
        Json::object(fields)
    }

    proof fn lemma_round_trip(value: FreeCompanySearchResultsView) {
        // The names differ from one another in their length or in one of the
        // characters stated here.
        reveal_strlit("Pagination");
        reveal_strlit("Results");
        assert("Pagination"@.len() == 10);
        assert("Results"@.len() == 7);
        reveal_with_fuel(lookup_from, 3);
        let fields = Self::encoded(value)->Object_0;
        lemma_required_round_trip::<Pagination>(
            fields,
            "Pagination"@,
            "pagination"@,
            value.pagination,
        );
        lemma_required_round_trip::<Vec<FreeCompanySearch>>(
            fields,
            "Results"@,
            "results"@,
            value.results,
        );
    }
}

/// What a search tells of one free company.
#[derive(Debug, Clone, PartialEq, Eq)]
pub struct FreeCompanySearch {
    /// The addresses of the images that make up the crest, bottom layer first.
    pub crest: Vec<String>,
    /// The id of the free company.
    pub id: String,
    /// The name of the free company.
    pub name: String,
    /// The server the free company lives on.
    pub server: String,
}

/// The mathematical value of a [`FreeCompanySearch`].
pub struct FreeCompanySearchView {
    pub crest: Seq<Seq<char>>,
    pub id: Seq<char>,
    pub name: Seq<char>,
    pub server: Seq<char>,
}

impl DeepView for FreeCompanySearch {
    type V = FreeCompanySearchView;

    open spec fn deep_view(&self) -> FreeCompanySearchView {
        FreeCompanySearchView {
            crest: self.crest.deep_view(),
            id: self.id.deep_view(),
            name: self.name.deep_view(),
            server: self.server.deep_view(),
        }
    }
}

impl Wire for FreeCompanySearch {
    open spec fn decoded(doc: JsonModel) -> Result<FreeCompanySearchView, Seq<char>> {
        match doc {
            JsonModel::Object(fields) => {
                let crest = required::<Vec<String>>(fields, "Crest"@, "crest"@);
                let id = required::<String>(fields, "ID"@, "id"@);
                let name = required::<String>(fields, "Name"@, "name"@);
                let server = required::<String>(fields, "Server"@, "server"@);
                if crest is Err {
                    Err(crest->Err_0)
                } else if id is Err {
                    Err(id->Err_0)
                } else if name is Err {
                    Err(name->Err_0)
                } else if server is Err {
                    Err(server->Err_0)
                } else {
                    Ok(
                        FreeCompanySearchView {
                            crest: crest->Ok_0,
                            id: id->Ok_0,
                            name: name->Ok_0,
                            server: server->Ok_0,
                        },
                    )
                }
            },
            _ => Err(Seq::empty()),
        }
    }

    open spec fn encoded(value: FreeCompanySearchView) -> JsonModel {
        JsonModel::Object(
            Seq::empty()
                .push(("Crest"@, Vec::<String>::encoded(value.crest)))
                .push(("ID"@, String::encoded(value.id)))
                .push(("Name"@, String::encoded(value.name)))
                .push(("Server"@, String::encoded(value.server))),
        )
    }

    fn from_json(doc: &Json) -> (r: Result<FreeCompanySearch, String>) {
        match doc.as_object() {
            None => Err(String::new()),
            Some(fields) => {
                let crest = read_required::<Vec<String>>(fields, "Crest", "crest")?;
                let id = read_required::<String>(fields, "ID", "id")?;
                let name = read_required::<String>(fields, "Name", "name")?;
                let server = read_required::<String>(fields, "Server", "server")?;
                Ok(
                    FreeCompanySearch {
                        crest,
                        id,
                        name,
                        server,
                    },
                )
            },
        }
    }

    fn to_json(&self) -> (doc: Json) {
        let mut fields = no_fields();
        put(&mut fields, "Crest", self.crest.to_json());
        put(&mut fields, "ID", self.id.to_json());
        put(&mut fields, "Name", self.name.to_json());
        put(&mut fields, "Server", self.server.to_json());
        Json::object(fields)
    }

    proof fn lemma_round_trip(value: FreeCompanySearchView) {
        // The names differ from one another in their length or in one of the
        // characters stated here.
        reveal_strlit("Crest");
        reveal_strlit("ID");
        reveal_strlit("Name");
        reveal_strlit("Server");
        assert("Crest"@.len() == 5);
        assert("ID"@.len() == 2);
        assert("Name"@.len() == 4);
        assert("Server"@.len() == 6);
        reveal_with_fuel(lookup_from, 5);
        let fields = Self::encoded(value)->Object_0;
        lemma_required_round_trip::<Vec<String>>(fields, "Crest"@, "crest"@, value.crest);
        lemma_required_round_trip::<String>(fields, "ID"@, "id"@, value.id);
        lemma_required_round_trip::<String>(fields, "Name"@, "name"@, value.name);
        lemma_required_round_trip::<String>(fields, "Server"@, "server"@, value.server);
    }
}

/// All that a lookup tells of one free company.
#[derive(Debug, Clone, PartialEq, Eq)]
pub struct FreeCompanyResult {
    /// The profile.
    pub free_company: FreeCompany,
    /// The members; present only where they were asked for.
    pub free_company_members: Option<Vec<CharacterSearch>>,
}

/// The mathematical value of a [`FreeCompanyResult`].
pub struct FreeCompanyResultView {
    pub free_company: FreeCompanyView,
    pub free_company_members: Option<Seq<CharacterSearchView>>,
}

impl DeepView for FreeCompanyResult {
    type V = FreeCompanyResultView;

    open spec fn deep_view(&self) -> FreeCompanyResultView {
        FreeCompanyResultView {
            free_company: self.free_company.deep_view(),
            free_company_members: self.free_company_members.deep_view(),
        }
    }
}

impl Wire for FreeCompanyResult {
    open spec fn decoded(doc: JsonModel) -> Result<FreeCompanyResultView, Seq<char>> {
        match doc {
            JsonModel::Object(fields) => {
                let free_company = required::<FreeCompany>(fields, "FreeCompany"@, "free_company"@);
                let free_company_members = optional::<Vec<CharacterSearch>>(
                    fields,
                    "FreeCompanyMembers"@,
                    "free_company_members"@,
                );
                if free_company is Err {
                    Err(free_company->Err_0)
                } else if free_company_members is Err {
                    Err(free_company_members->Err_0)
                } else {
                    Ok(
                        FreeCompanyResultView {
                            free_company: free_company->Ok_0,
                            free_company_members: free_company_members->Ok_0,
                        },
                    )
                }
            },
            _ => Err(Seq::empty()),
        }
    }

    open spec fn encoded(value: FreeCompanyResultView) -> JsonModel {
        JsonModel::Object(
            Seq::empty()
                .push(("FreeCompany"@, FreeCompany::encoded(value.free_company)))
                .push(
                    (
                        "FreeCompanyMembers"@,
                        encoded_optional::<Vec<CharacterSearch>>(value.free_company_members),
                    ),
                ),
        )
    }

    fn from_json(doc: &Json) -> (r: Result<FreeCompanyResult, String>) {
        match doc.as_object() {
            None => Err(String::new()),
            Some(fields) => {
                let free_company = read_required::<FreeCompany>(
                    fields,
                    "FreeCompany",
                    "free_company",
                )?;
                let free_company_members = read_optional::<Vec<CharacterSearch>>(
                    fields,
                    "FreeCompanyMembers",
                    "free_company_members",
                )?;
                Ok(
                    FreeCompanyResult {
                        free_company,
                        free_company_members,
                    },
                )
            },
        }
    }

    fn to_json(&self) -> (doc: Json) {
        let mut fields = no_fields();
        put(&mut fields, "FreeCompany", self.free_company.to_json());
        put(&mut fields, "FreeCompanyMembers", write_optional(&self.free_company_members));
        Json::object(fields)
    }

    proof fn lemma_round_trip(value: FreeCompanyResultView) {
        // The names differ from one another in their length or in one of the
        // characters stated here.
        reveal_strlit("FreeCompany");
        reveal_strlit("FreeCompanyMembers");
        assert("FreeCompany"@.len() == 11);
        assert("FreeCompanyMembers"@.len() == 18);
        reveal_with_fuel(lookup_from, 3);
        let fields = Self::encoded(value)->Object_0;
        lemma_required_round_trip::<FreeCompany>(
            fields,
            "FreeCompany"@,
            "free_company"@,
            value.free_company,
        );
        lemma_optional_round_trip::<Vec<CharacterSearch>>(
            fields,
            "FreeCompanyMembers"@,
            "free_company_members"@,
            value.free_company_members,
        );
    }
}

impl FreeCompanyResult {
    /// Where a document decodes, an optional member that it leaves out is
    /// absent in the value; one that it gives as an empty list is present
    /// and empty.
    pub proof fn lemma_absent_members(fields: Seq<(Seq<char>, JsonModel)>)
        requires
            Self::decoded(JsonModel::Object(fields)) is Ok,
        ensures
            lookup(fields, "FreeCompanyMembers"@) is None ==> Self::decoded(
                JsonModel::Object(fields),
            )->Ok_0.free_company_members is None,
            lookup(fields, "FreeCompanyMembers"@) == Some(JsonModel::List(Seq::empty()))
                ==> Self::decoded(JsonModel::Object(fields))->Ok_0.free_company_members == Some(
                Seq::<CharacterSearchView>::empty(),
            ),
    {
    }
}

/// The profile of a free company.
#[derive(Debug, Clone, PartialEq, Eq)]
pub struct FreeCompany {
    /// When the free company is active.
    pub active: String,
    /// How many members are active.
    pub active_member_count: u16,
    /// The addresses of the images that make up the crest, bottom layer first.
    pub crest: Vec<String>,
    /// The data center of the server.
    pub dc: String,
    /// The estate of the free company.
    pub estate: FcEstate,
    /// What the free company does.
    pub focus: Vec<FcFocus>,
    /// The year in which the free company was formed.
    pub formed: u32,
    /// The grand company it is allied with.
    pub grand_company: String,
    /// The id of the free company.
    pub id: String,
    /// The name of the free company.
    pub name: String,
    /// When the server read the profile, in seconds since 1970.
    pub parse_date: u32,
    /// The rank of the free company.
    pub rank: u8,
    /// Where it stands among the free companies of its server.
    pub ranking: FcRanking,
    /// Whether it takes new members.
    pub recruitment: String,
    /// Its reputation with each grand company.
    pub reputation: Vec<FcReputation>,
    /// The roles it looks for.
    pub seeking: Vec<Seeking>,
    /// The server the free company lives on.
    pub server: String,
    /// The slogan of the free company.
    pub slogan: String,
    /// The tag its members wear.
    pub tag: String,
}

/// The mathematical value of a [`FreeCompany`].
pub struct FreeCompanyView {
    pub active: Seq<char>,
    pub active_member_count: u16,
    pub crest: Seq<Seq<char>>,
    pub dc: Seq<char>,
    pub estate: FcEstateView,
    pub focus: Seq<FcFocusView>,
    pub formed: u32,
    pub grand_company: Seq<char>,
    pub id: Seq<char>,
    pub name: Seq<char>,
    pub parse_date: u32,
    pub rank: u8,
    pub ranking: FcRankingView,
    pub recruitment: Seq<char>,
    pub reputation: Seq<FcReputationView>,
    pub seeking: Seq<SeekingView>,
    pub server: Seq<char>,
    pub slogan: Seq<char>,
    pub tag: Seq<char>,
}

impl DeepView for FreeCompany {
    type V = FreeCompanyView;

    open spec fn deep_view(&self) -> FreeCompanyView {
        FreeCompanyView {
            active: self.active.deep_view(),
            active_member_count: self.active_member_count.deep_view(),
            crest: self.crest.deep_view(),
            dc: self.dc.deep_view(),
            estate: self.estate.deep_view(),
            focus: self.focus.deep_view(),
            formed: self.formed.deep_view(),
            grand_company: self.grand_company.deep_view(),
            id: self.id.deep_view(),
            name: self.name.deep_view(),
            parse_date: self.parse_date.deep_view(),
            rank: self.rank.deep_view(),
            ranking: self.ranking.deep_view(),
            recruitment: self.recruitment.deep_view(),
            reputation: self.reputation.deep_view(),
            seeking: self.seeking.deep_view(),
            server: self.server.deep_view(),
            slogan: self.slogan.deep_view(),
            tag: self.tag.deep_view(),
        }
    }
}

impl Wire for FreeCompany {
    open spec fn decoded(doc: JsonModel) -> Result<FreeCompanyView, Seq<char>> {
        match doc {
            JsonModel::Object(fields) => {
                let active = required::<String>(fields, "Active"@, "active"@);
                let active_member_count = required::<u16>(
                    fields,
                    "ActiveMemberCount"@,
                    "active_member_count"@,
                );
                let crest = required::<Vec<String>>(fields, "Crest"@, "crest"@);
                let dc = required::<String>(fields, "DC"@, "dc"@);
                let estate = required::<FcEstate>(fields, "Estate"@, "estate"@);
                let focus = required::<Vec<FcFocus>>(fields, "Focus"@, "focus"@);
                let formed = required::<u32>(fields, "Formed"@, "formed"@);
                let grand_company = required::<String>(fields, "GrandCompany"@, "grand_company"@);
                let id = required::<String>(fields, "ID"@, "id"@);
                let name = required::<String>(fields, "Name"@, "name"@);
                let parse_date = required::<u32>(fields, "ParseDate"@, "parse_date"@);
                let rank = required::<u8>(fields, "Rank"@, "rank"@);
                let ranking = required::<FcRanking>(fields, "Ranking"@, "ranking"@);
                let recruitment = required::<String>(fields, "Recruitment"@, "recruitment"@);
                let reputation = required::<Vec<FcReputation>>(
                    fields,
                    "Reputation"@,
                    "reputation"@,
                );
                let seeking = required::<Vec<Seeking>>(fields, "Seeking"@, "seeking"@);
                let server = required::<String>(fields, "Server"@, "server"@);
                let slogan = required::<String>(fields, "Slogan"@, "slogan"@);
                let tag = required::<String>(fields, "Tag"@, "tag"@);
                if active is Err {
                    Err(active->Err_0)
                } else if active_member_count is Err {
                    Err(active_member_count->Err_0)
                } else if crest is Err {
                    Err(crest->Err_0)
                } else if dc is Err {
                    Err(dc->Err_0)
                } else if estate is Err {
                    Err(estate->Err_0)
                } else if focus is Err {
                    Err(focus->Err_0)
                } else if formed is Err {
                    Err(formed->Err_0)
                } else if grand_company is Err {
                    Err(grand_company->Err_0)
                } else if id is Err {
                    Err(id->Err_0)
                } else if name is Err {
                    Err(name->Err_0)
                } else if parse_date is Err {
                    Err(parse_date->Err_0)
                } else if rank is Err {
                    Err(rank->Err_0)
                } else if ranking is Err {
                    Err(ranking->Err_0)
                } else if recruitment is Err {
                    Err(recruitment->Err_0)
                } else if reputation is Err {
                    Err(reputation->Err_0)
                } else if seeking is Err {
                    Err(seeking->Err_0)
                } else if server is Err {
                    Err(server->Err_0)
                } else if slogan is Err {
                    Err(slogan->Err_0)
                } else if tag is Err {
                    Err(tag->Err_0)
                } else {
                    Ok(
                        FreeCompanyView {
                            active: active->Ok_0,
                            active_member_count: active_member_count->Ok_0,
                            crest: crest->Ok_0,
                            dc: dc->Ok_0,
                            estate: estate->Ok_0,
                            focus: focus->Ok_0,
                            formed: formed->Ok_0,
                            grand_company: grand_company->Ok_0,
                            id: id->Ok_0,
                            name: name->Ok_0,
                            parse_date: parse_date->Ok_0,
                            rank: rank->Ok_0,
                            ranking: ranking->Ok_0,
                            recruitment: recruitment->Ok_0,
                            reputation: reputation->Ok_0,
                            seeking: seeking->Ok_0,
                            server: server->Ok_0,
                            slogan: slogan->Ok_0,
                            tag: tag->Ok_0,
                        },
                    )
                }
            },
            _ => Err(Seq::empty()),
        }
    }

    open spec fn encoded(value: FreeCompanyView) -> JsonModel {
        JsonModel::Object(
            Seq::empty()
                .push(("Active"@, String::encoded(value.active)))
                .push(("ActiveMemberCount"@, u16::encoded(value.active_member_count)))
                .push(("Crest"@, Vec::<String>::encoded(value.crest)))
                .push(("DC"@, String::encoded(value.dc)))
                .push(("Estate"@, FcEstate::encoded(value.estate)))
                .push(("Focus"@, Vec::<FcFocus>::encoded(value.focus)))
                .push(("Formed"@, u32::encoded(value.formed)))
                .push(("GrandCompany"@, String::encoded(value.grand_company)))
                .push(("ID"@, String::encoded(value.id)))
                .push(("Name"@, String::encoded(value.name)))
                .push(("ParseDate"@, u32::encoded(value.parse_date)))
                .push(("Rank"@, u8::encoded(value.rank)))
                .push(("Ranking"@, FcRanking::encoded(value.ranking)))
                .push(("Recruitment"@, String::encoded(value.recruitment)))
                .push(("Reputation"@, Vec::<FcReputation>::encoded(value.reputation)))
                .push(("Seeking"@, Vec::<Seeking>::encoded(value.seeking)))
                .push(("Server"@, String::encoded(value.server)))
                .push(("Slogan"@, String::encoded(value.slogan)))
                .push(("Tag"@, String::encoded(value.tag))),
        )
    }

    fn from_json(doc: &Json) -> (r: Result<FreeCompany, String>) {
        match doc.as_object() {
            None => Err(String::new()),
            Some(fields) => {
                let active = read_required::<String>(fields, "Active", "active")?;
                let active_member_count = read_required::<u16>(
                    fields,
                    "ActiveMemberCount",
                    "active_member_count",
                )?;
                let crest = read_required::<Vec<String>>(fields, "Crest", "crest")?;
                let dc = read_required::<String>(fields, "DC", "dc")?;
                let estate = read_required::<FcEstate>(fields, "Estate", "estate")?;
                let focus = read_required::<Vec<FcFocus>>(fields, "Focus", "focus")?;
                let formed = read_required::<u32>(fields, "Formed", "formed")?;
                let grand_company = read_required::<String>(
                    fields,
                    "GrandCompany",
                    "grand_company",
                )?;
                let id = read_required::<String>(fields, "ID", "id")?;
                let name = read_required::<String>(fields, "Name", "name")?;
                let parse_date = read_required::<u32>(fields, "ParseDate", "parse_date")?;
                let rank = read_required::<u8>(fields, "Rank", "rank")?;
                let ranking = read_required::<FcRanking>(fields, "Ranking", "ranking")?;
                let recruitment = read_required::<String>(fields, "Recruitment", "recruitment")?;
                let reputation = read_required::<Vec<FcReputation>>(
                    fields,
                    "Reputation",
                    "reputation",
                )?;
                let seeking = read_required::<Vec<Seeking>>(fields, "Seeking", "seeking")?;
                let server = read_required::<String>(fields, "Server", "server")?;
                let slogan = read_required::<String>(fields, "Slogan", "slogan")?;
                let tag = read_required::<String>(fields, "Tag", "tag")?;
                Ok(
                    FreeCompany {
                        active,
                        active_member_count,
                        crest,
                        dc,
                        estate,
                        focus,
                        formed,
                        grand_company,
                        id,
                        name,
                        parse_date,
                        rank,
                        ranking,
                        recruitment,
                        reputation,
                        seeking,
                        server,
                        slogan,
                        tag,
                    },
                )
            },
        }
    }

    fn to_json(&self) -> (doc: Json) {
        let mut fields = no_fields();
        put(&mut fields, "Active", self.active.to_json());
        put(&mut fields, "ActiveMemberCount", self.active_member_count.to_json());
        put(&mut fields, "Crest", self.crest.to_json());
        put(&mut fields, "DC", self.dc.to_json());
        put(&mut fields, "Estate", self.estate.to_json());
        put(&mut fields, "Focus", self.focus.to_json());
        put(&mut fields, "Formed", self.formed.to_json());
        put(&mut fields, "GrandCompany", self.grand_company.to_json());
        put(&mut fields, "ID", self.id.to_json());
        put(&mut fields, "Name", self.name.to_json());
        put(&mut fields, "ParseDate", self.parse_date.to_json());
        put(&mut fields, "Rank", self.rank.to_json());
        put(&mut fields, "Ranking", self.ranking.to_json());
        put(&mut fields, "Recruitment", self.recruitment.to_json());
        put(&mut fields, "Reputation", self.reputation.to_json());
        put(&mut fields, "Seeking", self.seeking.to_json());
        put(&mut fields, "Server", self.server.to_json());
        put(&mut fields, "Slogan", self.slogan.to_json());
        put(&mut fields, "Tag", self.tag.to_json());
        Json::object(fields)
    }

    proof fn lemma_round_trip(value: FreeCompanyView) {
        // The names differ from one another in their length or in one of the
        // characters stated here.
        reveal_strlit("Active");
        reveal_strlit("ActiveMemberCount");
        reveal_strlit("Crest");
        reveal_strlit("DC");
        reveal_strlit("Estate");
        reveal_strlit("Focus");
        reveal_strlit("Formed");
        reveal_strlit("GrandCompany");
        reveal_strlit("ID");
        reveal_strlit("Name");
        reveal_strlit("ParseDate");
        reveal_strlit("Rank");
        reveal_strlit("Ranking");
        reveal_strlit("Recruitment");
        reveal_strlit("Reputation");
        reveal_strlit("Seeking");
        reveal_strlit("Server");
        reveal_strlit("Slogan");
        reveal_strlit("Tag");
        assert("Active"@.len() == 6 && "Active"@[0] == 'A');
        assert("ActiveMemberCount"@.len() == 17);
        assert("Crest"@.len() == 5 && "Crest"@[0] == 'C');
        assert("DC"@.len() == 2 && "DC"@[0] == 'D');
        assert("Estate"@.len() == 6 && "Estate"@[0] == 'E');
        assert("Focus"@.len() == 5 && "Focus"@[0] == 'F');
        assert("Formed"@.len() == 6 && "Formed"@[0] == 'F');
        assert("GrandCompany"@.len() == 12);
        assert("ID"@.len() == 2 && "ID"@[0] == 'I');
        assert("Name"@.len() == 4 && "Name"@[0] == 'N');
        assert("ParseDate"@.len() == 9);
        assert("Rank"@.len() == 4 && "Rank"@[0] == 'R');
        assert("Ranking"@.len() == 7 && "Ranking"@[0] == 'R');
        assert("Recruitment"@.len() == 11);
        assert("Reputation"@.len() == 10);
        assert("Seeking"@.len() == 7 && "Seeking"@[0] == 'S');
        assert("Server"@.len() == 6 && "Server"@[0] == 'S' && "Server"@[1] == 'e');
        assert("Slogan"@.len() == 6 && "Slogan"@[0] == 'S' && "Slogan"@[1] == 'l');
        assert("Tag"@.len() == 3);
        reveal_with_fuel(lookup_from, 20);
        let fields = Self::encoded(value)->Object_0;
        lemma_required_round_trip::<String>(fields, "Active"@, "active"@, value.active);
        lemma_required_round_trip::<u16>(
            fields,
            "ActiveMemberCount"@,
            "active_member_count"@,
            value.active_member_count,
        );
        lemma_required_round_trip::<Vec<String>>(fields, "Crest"@, "crest"@, value.crest);
        lemma_required_round_trip::<String>(fields, "DC"@, "dc"@, value.dc);
        lemma_required_round_trip::<FcEstate>(fields, "Estate"@, "estate"@, value.estate);
        lemma_required_round_trip::<Vec<FcFocus>>(fields, "Focus"@, "focus"@, value.focus);
        lemma_required_round_trip::<u32>(fields, "Formed"@, "formed"@, value.formed);
        lemma_required_round_trip::<String>(
            fields,
            "GrandCompany"@,
            "grand_company"@,
            value.grand_company,
        );
        lemma_required_round_trip::<String>(fields, "ID"@, "id"@, value.id);
        lemma_required_round_trip::<String>(fields, "Name"@, "name"@, value.name);
        lemma_required_round_trip::<u32>(fields, "ParseDate"@, "parse_date"@, value.parse_date);
        lemma_required_round_trip::<u8>(fields, "Rank"@, "rank"@, value.rank);
        lemma_required_round_trip::<FcRanking>(fields, "Ranking"@, "ranking"@, value.ranking);
        lemma_required_round_trip::<String>(
            fields,
            "Recruitment"@,
            "recruitment"@,
            value.recruitment,
        );
        lemma_required_round_trip::<Vec<FcReputation>>(
            fields,
            "Reputation"@,
            "reputation"@,
            value.reputation,
        );
        lemma_required_round_trip::<Vec<Seeking>>(fields, "Seeking"@, "seeking"@, value.seeking);
        lemma_required_round_trip::<String>(fields, "Server"@, "server"@, value.server);
        lemma_required_round_trip::<String>(fields, "Slogan"@, "slogan"@, value.slogan);
        lemma_required_round_trip::<String>(fields, "Tag"@, "tag"@, value.tag);
    }
}

/// The estate of a free company.
#[derive(Debug, Clone, PartialEq, Eq)]
pub struct FcEstate {
    /// The greeting at the door.
    pub greeting: String,
    /// The name of the estate.
    pub name: String,
    /// Where the estate lies: plot, ward and district.
    pub plot: String,
}

/// The mathematical value of a [`FcEstate`].
pub struct FcEstateView {
    pub greeting: Seq<char>,
    pub name: Seq<char>,
    pub plot: Seq<char>,
}

impl DeepView for FcEstate {
    type V = FcEstateView;

    open spec fn deep_view(&self) -> FcEstateView {
        FcEstateView {
            greeting: self.greeting.deep_view(),
            name: self.name.deep_view(),
            plot: self.plot.deep_view(),
        }
    }
}

impl Wire for FcEstate {
    open spec fn decoded(doc: JsonModel) -> Result<FcEstateView, Seq<char>> {
        match doc {
            JsonModel::Object(fields) => {
                let greeting = required::<String>(fields, "Greeting"@, "greeting"@);
                let name = required::<String>(fields, "Name"@, "name"@);
                let plot = required::<String>(fields, "Plot"@, "plot"@);
                if greeting is Err {
                    Err(greeting->Err_0)
                } else if name is Err {
                    Err(name->Err_0)
                } else if plot is Err {
                    Err(plot->Err_0)
                } else {
                    Ok(
                        FcEstateView {
                            greeting: greeting->Ok_0,
                            name: name->Ok_0,
                            plot: plot->Ok_0,
                        },
                    )
                }
            },
            _ => Err(Seq::empty()),
        }
    }

    open spec fn encoded(value: FcEstateView) -> JsonModel {
        JsonModel::Object(
            Seq::empty()
                .push(("Greeting"@, String::encoded(value.greeting)))
                .push(("Name"@, String::encoded(value.name)))
                .push(("Plot"@, String::encoded(value.plot))),
        )
    }

    fn from_json(doc: &Json) -> (r: Result<FcEstate, String>) {
        match doc.as_object() {
            None => Err(String::new()),
            Some(fields) => {
                let greeting = read_required::<String>(fields, "Greeting", "greeting")?;
                let name = read_required::<String>(fields, "Name", "name")?;
                let plot = read_required::<String>(fields, "Plot", "plot")?;
                Ok(
                    FcEstate {
                        greeting,
                        name,
                        plot,
                    },
                )
            },
        }
    }

    fn to_json(&self) -> (doc: Json) {
        let mut fields = no_fields();
        put(&mut fields, "Greeting", self.greeting.to_json());
        put(&mut fields, "Name", self.name.to_json());
        put(&mut fields, "Plot", self.plot.to_json());
        Json::object(fields)
    }

    proof fn lemma_round_trip(value: FcEstateView) {
        // The names differ from one another in their length or in one of the
        // characters stated here.
        reveal_strlit("Greeting");
        reveal_strlit("Name");
        reveal_strlit("Plot");
        assert("Greeting"@.len() == 8);
        assert("Name"@.len() == 4 && "Name"@[0] == 'N');
        assert("Plot"@.len() == 4 && "Plot"@[0] == 'P');
        reveal_with_fuel(lookup_from, 4);
        let fields = Self::encoded(value)->Object_0;
        lemma_required_round_trip::<String>(fields, "Greeting"@, "greeting"@, value.greeting);
        lemma_required_round_trip::<String>(fields, "Name"@, "name"@, value.name);
        lemma_required_round_trip::<String>(fields, "Plot"@, "plot"@, value.plot);
    }
}

/// One of the activities a free company may pursue.
#[derive(Debug, Clone, PartialEq, Eq)]
pub struct FcFocus {
    /// The address of the icon.
    pub icon: String,
    /// The name of the activity.
    pub name: String,
    /// Whether the free company pursues it.
    pub status: bool,
}

/// The mathematical value of a [`FcFocus`].
pub struct FcFocusView {
    pub icon: Seq<char>,
    pub name: Seq<char>,
    pub status: bool,
}

impl DeepView for FcFocus {
    type V = FcFocusView;

    open spec fn deep_view(&self) -> FcFocusView {
        FcFocusView {
            icon: self.icon.deep_view(),
            name: self.name.deep_view(),
            status: self.status.deep_view(),
        }
    }
}

impl Wire for FcFocus {
    open spec fn decoded(doc: JsonModel) -> Result<FcFocusView, Seq<char>> {
        match doc {
            JsonModel::Object(fields) => {
                let icon = required::<String>(fields, "Icon"@, "icon"@);
                let name = required::<String>(fields, "Name"@, "name"@);
                let status = required::<bool>(fields, "Status"@, "status"@);
                if icon is Err {
                    Err(icon->Err_0)
                } else if name is Err {
                    Err(name->Err_0)
                } else if status is Err {
                    Err(status->Err_0)
                } else {
                    Ok(
                        FcFocusView {
                            icon: icon->Ok_0,
                            name: name->Ok_0,
                            status: status->Ok_0,
                        },
                    )
                }
            },
            _ => Err(Seq::empty()),
        }
    }

    open spec fn encoded(value: FcFocusView) -> JsonModel {
        JsonModel::Object(
            Seq::empty()
                .push(("Icon"@, String::encoded(value.icon)))
                .push(("Name"@, String::encoded(value.name)))
                .push(("Status"@, bool::encoded(value.status))),
        )
    }

    fn from_json(doc: &Json) -> (r: Result<FcFocus, String>) {
        match doc.as_object() {
            None => Err(String::new()),
            Some(fields) => {
                let icon = read_required::<String>(fields, "Icon", "icon")?;
                let name = read_required::<String>(fields, "Name", "name")?;
                let status = read_required::<bool>(fields, "Status", "status")?;
                Ok(
                    FcFocus {
                        icon,
                        name,
                        status,
                    },
                )
            },
        }
    }

    fn to_json(&self) -> (doc: Json) {
        let mut fields = no_fields();
        put(&mut fields, "Icon", self.icon.to_json());
        put(&mut fields, "Name", self.name.to_json());
        put(&mut fields, "Status", self.status.to_json());
        Json::object(fields)
    }

    proof fn lemma_round_trip(value: FcFocusView) {
        // The names differ from one another in their length or in one of the
        // characters stated here.
        reveal_strlit("Icon");
        reveal_strlit("Name");
        reveal_strlit("Status");
        assert("Icon"@.len() == 4 && "Icon"@[0] == 'I');
        assert("Name"@.len() == 4 && "Name"@[0] == 'N');
        assert("Status"@.len() == 6);
        reveal_with_fuel(lookup_from, 4);
        let fields = Self::encoded(value)->Object_0;
        lemma_required_round_trip::<String>(fields, "Icon"@, "icon"@, value.icon);
        lemma_required_round_trip::<String>(fields, "Name"@, "name"@, value.name);
        lemma_required_round_trip::<bool>(fields, "Status"@, "status"@, value.status);
    }
}

/// Where a free company stands among those of its server.
#[derive(Debug, Clone, PartialEq, Eq)]
pub struct FcRanking {
    /// The place of the month.
    pub monthly: u32,
    /// The place of the week.
    pub weekly: u32,
}

/// The mathematical value of a [`FcRanking`].
pub struct FcRankingView {
    pub monthly: u32,
    pub weekly: u32,
}

impl DeepView for FcRanking {
    type V = FcRankingView;

    open spec fn deep_view(&self) -> FcRankingView {
        FcRankingView {
            monthly: self.monthly.deep_view(),
            weekly: self.weekly.deep_view(),
        }
    }
}

impl Wire for FcRanking {
    open spec fn decoded(doc: JsonModel) -> Result<FcRankingView, Seq<char>> {
        match doc {
            JsonModel::Object(fields) => {
                let monthly = required::<u32>(fields, "Monthly"@, "monthly"@);
                let weekly = required::<u32>(fields, "Weekly"@, "weekly"@);
                if monthly is Err {
                    Err(monthly->Err_0)
                } else if weekly is Err {
                    Err(weekly->Err_0)
                } else {
                    Ok(
                        FcRankingView {
                            monthly: monthly->Ok_0,
                            weekly: weekly->Ok_0,
                        },
                    )
                }
            },
            _ => Err(Seq::empty()),
        }
    }

    open spec fn encoded(value: FcRankingView) -> JsonModel {
        JsonModel::Object(
            Seq::empty()
                .push(("Monthly"@, u32::encoded(value.monthly)))
                .push(("Weekly"@, u32::encoded(value.weekly))),
        )
    }

    fn from_json(doc: &Json) -> (r: Result<FcRanking, String>) {
        match doc.as_object() {
            None => Err(String::new()),
            Some(fields) => {
                let monthly = read_required::<u32>(fields, "Monthly", "monthly")?;
                let weekly = read_required::<u32>(fields, "Weekly", "weekly")?;
                Ok(
                    FcRanking {
                        monthly,
                        weekly,
                    },
                )
            },
        }
    }

    fn to_json(&self) -> (doc: Json) {
        let mut fields = no_fields();
        put(&mut fields, "Monthly", self.monthly.to_json());
        put(&mut fields, "Weekly", self.weekly.to_json());
        Json::object(fields)
    }

    proof fn lemma_round_trip(value: FcRankingView) {
        // The names differ from one another in their length or in one of the
        // characters stated here.
        reveal_strlit("Monthly");
        reveal_strlit("Weekly");
        assert("Monthly"@.len() == 7);
        assert("Weekly"@.len() == 6);
        reveal_with_fuel(lookup_from, 3);
        let fields = Self::encoded(value)->Object_0;
        lemma_required_round_trip::<u32>(fields, "Monthly"@, "monthly"@, value.monthly);
        lemma_required_round_trip::<u32>(fields, "Weekly"@, "weekly"@, value.weekly);
    }
}

/// The reputation of a free company with one grand company.
#[derive(Debug, Clone, PartialEq, Eq)]
pub struct FcReputation {
    /// The name of the grand company.
    pub name: String,
    /// The progress towards the next rank, in percent.
    pub progress: u8,
    /// The rank reached.
    pub rank: String,
}

/// The mathematical value of a [`FcReputation`].
pub struct FcReputationView {
    pub name: Seq<char>,
    pub progress: u8,
    pub rank: Seq<char>,
}

impl DeepView for FcReputation {
    type V = FcReputationView;

    open spec fn deep_view(&self) -> FcReputationView {
        FcReputationView {
            name: self.name.deep_view(),
            progress: self.progress.deep_view(),
            rank: self.rank.deep_view(),
        }
    }
}

impl Wire for FcReputation {
    open spec fn decoded(doc: JsonModel) -> Result<FcReputationView, Seq<char>> {
        match doc {
            JsonModel::Object(fields) => {
                let name = required::<String>(fields, "Name"@, "name"@);
                let progress = required::<u8>(fields, "Progress"@, "progress"@);
                let rank = required::<String>(fields, "Rank"@, "rank"@);
                if name is Err {
                    Err(name->Err_0)
                } else if progress is Err {
                    Err(progress->Err_0)
                } else if rank is Err {
                    Err(rank->Err_0)
                } else {
                    Ok(
                        FcReputationView {
                            name: name->Ok_0,
                            progress: progress->Ok_0,
                            rank: rank->Ok_0,
                        },
                    )
                }
            },
            _ => Err(Seq::empty()),
        }
    }

    open spec fn encoded(value: FcReputationView) -> JsonModel {
        JsonModel::Object(
            Seq::empty()
                .push(("Name"@, String::encoded(value.name)))
                .push(("Progress"@, u8::encoded(value.progress)))
                .push(("Rank"@, String::encoded(value.rank))),
        )
    }

    fn from_json(doc: &Json) -> (r: Result<FcReputation, String>) {
        match doc.as_object() {
            None => Err(String::new()),
            Some(fields) => {
                let name = read_required::<String>(fields, "Name", "name")?;
                let progress = read_required::<u8>(fields, "Progress", "progress")?;
                let rank = read_required::<String>(fields, "Rank", "rank")?;
                Ok(
                    FcReputation {
                        name,
                        progress,
                        rank,
                    },
                )
            },
        }
    }

    fn to_json(&self) -> (doc: Json) {
        let mut fields = no_fields();
        put(&mut fields, "Name", self.name.to_json());
        put(&mut fields, "Progress", self.progress.to_json());
        put(&mut fields, "Rank", self.rank.to_json());
        Json::object(fields)
    }

    proof fn lemma_round_trip(value: FcReputationView) {
        // The names differ from one another in their length or in one of the
        // characters stated here.
        reveal_strlit("Name");
        reveal_strlit("Progress");
        reveal_strlit("Rank");
        assert("Name"@.len() == 4 && "Name"@[0] == 'N');
        assert("Progress"@.len() == 8);
        assert("Rank"@.len() == 4 && "Rank"@[0] == 'R');
        reveal_with_fuel(lookup_from, 4);
        let fields = Self::encoded(value)->Object_0;
        lemma_required_round_trip::<String>(fields, "Name"@, "name"@, value.name);
        lemma_required_round_trip::<u8>(fields, "Progress"@, "progress"@, value.progress);
        lemma_required_round_trip::<String>(fields, "Rank"@, "rank"@, value.rank);
    }
}

/// One of the roles a free company may look for.
#[derive(Debug, Clone, PartialEq, Eq)]
pub struct Seeking {
    /// The address of the icon.
    pub icon: String,
    /// The name of the role.
    pub name: String,
    /// Whether the free company looks for it.
    pub status: bool,
}

/// The mathematical value of a [`Seeking`].
pub struct SeekingView {
    pub icon: Seq<char>,
    pub name: Seq<char>,
    pub status: bool,
}

impl DeepView for Seeking {
    type V = SeekingView;

    open spec fn deep_view(&self) -> SeekingView {
        SeekingView {
            icon: self.icon.deep_view(),
            name: self.name.deep_view(),
            status: self.status.deep_view(),
        }
    }
}

impl Wire for Seeking {
    open spec fn decoded(doc: JsonModel) -> Result<SeekingView, Seq<char>> {
        match doc {
            JsonModel::Object(fields) => {
                let icon = required::<String>(fields, "Icon"@, "icon"@);
                let name = required::<String>(fields, "Name"@, "name"@);
                let status = required::<bool>(fields, "Status"@, "status"@);
                if icon is Err {
                    Err(icon->Err_0)
                } else if name is Err {
                    Err(name->Err_0)
                } else if status is Err {
                    Err(status->Err_0)
                } else {
                    Ok(
                        SeekingView {
                            icon: icon->Ok_0,
                            name: name->Ok_0,
                            status: status->Ok_0,
                        },
                    )
                }
            },
            _ => Err(Seq::empty()),
        }
    }

    open spec fn encoded(value: SeekingView) -> JsonModel {
        JsonModel::Object(
            Seq::empty()
                .push(("Icon"@, String::encoded(value.icon)))
                .push(("Name"@, String::encoded(value.name)))
                .push(("Status"@, bool::encoded(value.status))),
        )
    }

    fn from_json(doc: &Json) -> (r: Result<Seeking, String>) {
        match doc.as_object() {
            None => Err(String::new()),
            Some(fields) => {
                let icon = read_required::<String>(fields, "Icon", "icon")?;
                let name = read_required::<String>(fields, "Name", "name")?;
                let status = read_required::<bool>(fields, "Status", "status")?;
                Ok(
                    Seeking {
                        icon,
                        name,
                        status,
                    },
                )
            },
        }
    }

    fn to_json(&self) -> (doc: Json) {
        let mut fields = no_fields();
        put(&mut fields, "Icon", self.icon.to_json());
        put(&mut fields, "Name", self.name.to_json());
        put(&mut fields, "Status", self.status.to_json());
        Json::object(fields)
    }

    proof fn lemma_round_trip(value: SeekingView) {
        // The names differ from one another in their length or in one of the
        // characters stated here.
        reveal_strlit("Icon");
        reveal_strlit("Name");
        reveal_strlit("Status");
        assert("Icon"@.len() == 4 && "Icon"@[0] == 'I');
        assert("Name"@.len() == 4 && "Name"@[0] == 'N');
        assert("Status"@.len() == 6);
        reveal_with_fuel(lookup_from, 4);
        let fields = Self::encoded(value)->Object_0;
        lemma_required_round_trip::<String>(fields, "Icon"@, "icon"@, value.icon);
        lemma_required_round_trip::<String>(fields, "Name"@, "name"@, value.name);
        lemma_required_round_trip::<bool>(fields, "Status"@, "status"@, value.status);
    }
}

} // verus!
