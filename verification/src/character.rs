//! Characters: search results and the full profile.

use crate::character::achievements::{CharacterAchievements, CharacterAchievementsView};
use crate::character::class::{
    Class, ClassBozjan, ClassBozjanView, ClassElemental, ClassElementalView, ClassView,
};
use crate::character::gear::{GearSet, GearSetView};
use crate::freecompany::{FreeCompany, FreeCompanyView};
use crate::json::{lookup, lookup_from, no_fields, put, Json, JsonModel};
use crate::pagination::{Pagination, PaginationView};
use crate::wire::{
    encoded_optional, lemma_optional_round_trip, lemma_required_round_trip, optional,
    read_optional, read_required, required, write_optional, Wire,
};
use vstd::prelude::*;

pub mod achievements;
pub mod attributes;
pub mod class;
pub mod gear;

verus! {

/// One page of the characters that match a search by name.
#[derive(Debug, Clone, PartialEq, Eq)]
pub struct CharacterSearchResults {
    /// Where this page stands among all results.
    pub pagination: Pagination,
    /// The characters found, in the order of the server.
    pub results: Vec<CharacterSearch>,
}

/// The mathematical value of a [`CharacterSearchResults`].
pub struct CharacterSearchResultsView {
    pub pagination: PaginationView,
    pub results: Seq<CharacterSearchView>,
}

impl DeepView for CharacterSearchResults {
    type V = CharacterSearchResultsView;

    open spec fn deep_view(&self) -> CharacterSearchResultsView {
        CharacterSearchResultsView {
            pagination: self.pagination.deep_view(),
            results: self.results.deep_view(),
        }
    }
}

impl Wire for CharacterSearchResults {
    open spec fn decoded(doc: JsonModel) -> Result<CharacterSearchResultsView, Seq<char>> {
        match doc {
            JsonModel::Object(fields) => {
                let pagination = required::<Pagination>(fields, "Pagination"@, "pagination"@);
                let results = required::<Vec<CharacterSearch>>(fields, "Results"@, "results"@);
                if pagination is Err {
                    Err(pagination->Err_0)
                } else if results is Err {
                    Err(results->Err_0)
                } else {
                    Ok(
                        CharacterSearchResultsView {
                            pagination: pagination->Ok_0,
                            results: results->Ok_0,
                        },
                    )
                }
            },
            _ => Err(Seq::empty()),
        }
    }

    open spec fn encoded(value: CharacterSearchResultsView) -> JsonModel {
        JsonModel::Object(
            Seq::empty()
                .push(("Pagination"@, Pagination::encoded(value.pagination)))
                .push(("Results"@, Vec::<CharacterSearch>::encoded(value.results))),
        )
    }

    fn from_json(doc: &Json) -> (r: Result<CharacterSearchResults, String>) {
        match doc.as_object() {
            None => Err(String::new()),
            Some(fields) => {
                let pagination = read_required::<Pagination>(fields, "Pagination", "pagination")?;
                let results = read_required::<Vec<CharacterSearch>>(fields, "Results", "results")?;
                Ok(
                    CharacterSearchResults {
                        pagination,
                        results,
                    },
                )
            },
        }
    }

    fn to_json(&self) -> (doc: Json) {
        let mut fields = no_fields();
        put(&mut fields, "Pagination", self.pagination.to_json());
        put(&mut fields, "Results", self.results.to_json());
        Json::object(fields)
    }

    proof fn lemma_round_trip(value: CharacterSearchResultsView) {
        // The names differ from one another in their length or in one of the
        // characters stated here.
        reveal_strlit("Pagination");
        reveal_strlit("Results");
        assert("Pagination"@.len() == 10);
        assert("Results"@.len() == 7);
        reveal_with_fuel(lookup_from, 3);
        let fields = Self::encoded(value)->Object_0;
        lemma_required_round_trip::<Pagination>(
            fields,
            "Pagination"@,
            "pagination"@,
            value.pagination,
        );
        lemma_required_round_trip::<Vec<CharacterSearch>>(
            fields,
            "Results"@,
            "results"@,
            value.results,
        );
    }
}

/// What a search tells of one character.
#[derive(Debug, Clone, PartialEq, Eq)]
pub struct CharacterSearch {
    /// The address of the avatar image.
    pub avatar: String,
    /// How many Feast matches the character has played.
    pub feast_matches: u32,
    /// The id of the character.
    pub id: u32,
    /// The language of the character, where it is known.
    pub lang: Option<String>,
    /// The name of the character.
    pub name: String,
    /// The rank of the character, where it has one.
    pub rank: Option<String>,
    /// The address of the icon of that rank.
    pub rank_icon: Option<String>,
    /// The server the character lives on.
    pub server: String,
}

/// The mathematical value of a [`CharacterSearch`].
pub struct CharacterSearchView {
    pub avatar: Seq<char>,
    pub feast_matches: u32,
    pub id: u32,
    pub lang: Option<Seq<char>>,
    pub name: Seq<char>,
    pub rank: Option<Seq<char>>,
    pub rank_icon: Option<Seq<char>>,
    pub server: Seq<char>,
}

impl DeepView for CharacterSearch {
    type V = CharacterSearchView;

    open spec fn deep_view(&self) -> CharacterSearchView {
        CharacterSearchView {
            avatar: self.avatar.deep_view(),
            feast_matches: self.feast_matches.deep_view(),
            id: self.id.deep_view(),
            lang: self.lang.deep_view(),
            name: self.name.deep_view(),
            rank: self.rank.deep_view(),
            rank_icon: self.rank_icon.deep_view(),
            server: self.server.deep_view(),
        }
    }
}

impl Wire for CharacterSearch {
    open spec fn decoded(doc: JsonModel) -> Result<CharacterSearchView, Seq<char>> {
        match doc {
            JsonModel::Object(fields) => {
                let avatar = required::<String>(fields, "Avatar"@, "avatar"@);
                let feast_matches = required::<u32>(fields, "FeastMatches"@, "feast_matches"@);
                let id = required::<u32>(fields, "ID"@, "id"@);
                let lang = optional::<String>(fields, "Lang"@, "lang"@);
                let name = required::<String>(fields, "Name"@, "name"@);
                let rank = optional::<String>(fields, "Rank"@, "rank"@);
                let rank_icon = optional::<String>(fields, "RankIcon"@, "rank_icon"@);
                let server = required::<String>(fields, "Server"@, "server"@);
                if avatar is Err {
                    Err(avatar->Err_0)
                } else if feast_matches is Err {
                    Err(feast_matches->Err_0)
                } else if id is Err {
                    Err(id->Err_0)
                } else if lang is Err {
                    Err(lang->Err_0)
                } else if name is Err {
                    Err(name->Err_0)
                } else if rank is Err {
                    Err(rank->Err_0)
                } else if rank_icon is Err {
                    Err(rank_icon->Err_0)
                } else if server is Err {
                    Err(server->Err_0)
                } else {
                    Ok(
                        CharacterSearchView {
                            avatar: avatar->Ok_0,
                            feast_matches: feast_matches->Ok_0,
                            id: id->Ok_0,
                            lang: lang->Ok_0,
                            name: name->Ok_0,
                            rank: rank->Ok_0,
                            rank_icon: rank_icon->Ok_0,
                            server: server->Ok_0,
                        },
                    )
                }
            },
            _ => Err(Seq::empty()),
        }
    }

    open spec fn encoded(value: CharacterSearchView) -> JsonModel {
        JsonModel::Object(
            Seq::empty()
                .push(("Avatar"@, String::encoded(value.avatar)))
                .push(("FeastMatches"@, u32::encoded(value.feast_matches)))
                .push(("ID"@, u32::encoded(value.id)))
                .push(("Lang"@, encoded_optional::<String>(value.lang)))
                .push(("Name"@, String::encoded(value.name)))
                .push(("Rank"@, encoded_optional::<String>(value.rank)))
                .push(("RankIcon"@, encoded_optional::<String>(value.rank_icon)))
                .push(("Server"@, String::encoded(value.server))),
        )
    }

    fn from_json(doc: &Json) -> (r: Result<CharacterSearch, String>) {
        match doc.as_object() {
            None => Err(String::new()),
            Some(fields) => {
                let avatar = read_required::<String>(fields, "Avatar", "avatar")?;
                let feast_matches = read_required::<u32>(fields, "FeastMatches", "feast_matches")?;
                let id = read_required::<u32>(fields, "ID", "id")?;
                let lang = read_optional::<String>(fields, "Lang", "lang")?;
                let name = read_required::<String>(fields, "Name", "name")?;
                let rank = read_optional::<String>(fields, "Rank", "rank")?;
                let rank_icon = read_optional::<String>(fields, "RankIcon", "rank_icon")?;
                let server = read_required::<String>(fields, "Server", "server")?;
                Ok(
                    CharacterSearch {
                        avatar,
                        feast_matches,
                        id,
                        lang,
                        name,
                        rank,
                        rank_icon,
                        server,
                    },
                )
            },
        }
    }

    fn to_json(&self) -> (doc: Json) {
        let mut fields = no_fields();
        put(&mut fields, "Avatar", self.avatar.to_json());
        put(&mut fields, "FeastMatches", self.feast_matches.to_json());
        put(&mut fields, "ID", self.id.to_json());
        put(&mut fields, "Lang", write_optional(&self.lang));
        put(&mut fields, "Name", self.name.to_json());
        put(&mut fields, "Rank", write_optional(&self.rank));
        put(&mut fields, "RankIcon", write_optional(&self.rank_icon));
        put(&mut fields, "Server", self.server.to_json());
        Json::object(fields)
    }

    proof fn lemma_round_trip(value: CharacterSearchView) {
        // The names differ from one another in their length or in one of the
        // characters stated here.
        reveal_strlit("Avatar");
        reveal_strlit("FeastMatches");
        reveal_strlit("ID");
        reveal_strlit("Lang");
        reveal_strlit("Name");
        reveal_strlit("Rank");
        reveal_strlit("RankIcon");
        reveal_strlit("Server");
        assert("Avatar"@.len() == 6 && "Avatar"@[0] == 'A');
        assert("FeastMatches"@.len() == 12);
        assert("ID"@.len() == 2);
        assert("Lang"@.len() == 4 && "Lang"@[0] == 'L');
        assert("Name"@.len() == 4 && "Name"@[0] == 'N');
        assert("Rank"@.len() == 4 && "Rank"@[0] == 'R');
        assert("RankIcon"@.len() == 8);
        assert("Server"@.len() == 6 && "Server"@[0] == 'S');
        reveal_with_fuel(lookup_from, 9);
        let fields = Self::encoded(value)->Object_0;
        lemma_required_round_trip::<String>(fields, "Avatar"@, "avatar"@, value.avatar);
        lemma_required_round_trip::<u32>(
            fields,
            "FeastMatches"@,
            "feast_matches"@,
            value.feast_matches,
        );
        lemma_required_round_trip::<u32>(fields, "ID"@, "id"@, value.id);
        lemma_optional_round_trip::<String>(fields, "Lang"@, "lang"@, value.lang);
        lemma_required_round_trip::<String>(fields, "Name"@, "name"@, value.name);
        lemma_optional_round_trip::<String>(fields, "Rank"@, "rank"@, value.rank);
        lemma_optional_round_trip::<String>(fields, "RankIcon"@, "rank_icon"@, value.rank_icon);
        lemma_required_round_trip::<String>(fields, "Server"@, "server"@, value.server);
    }
}

impl CharacterSearch {
    /// Where a document decodes, an optional member that it leaves out is
    /// absent in the value.
    pub proof fn lemma_absent_members(fields: Seq<(Seq<char>, JsonModel)>)
        requires
            Self::decoded(JsonModel::Object(fields)) is Ok,
        ensures
            lookup(fields, "Lang"@) is None ==> Self::decoded(
                JsonModel::Object(fields),
            )->Ok_0.lang is None,
            lookup(fields, "Rank"@) is None ==> Self::decoded(
                JsonModel::Object(fields),
            )->Ok_0.rank is None,
            lookup(fields, "RankIcon"@) is None ==> Self::decoded(
                JsonModel::Object(fields),
            )->Ok_0.rank_icon is None,
    {
    }
}

/// All that a lookup tells of one character. The sections beside the profile
/// are present only where they were asked for and the character makes them
/// public: absent means unknown, an empty list means known to be empty.
#[derive(Debug, Clone, PartialEq, Eq)]
pub struct CharacterResult {
    /// The unlocked achievements.
    pub achievements: Option<CharacterAchievements>,
    /// Whether the achievements are public.
    pub achievements_public: Option<bool>,
    /// The profile.
    pub character: Character,
    /// The free company of the character.
    pub free_company: Option<FreeCompany>,
    /// The members of that free company.
    pub free_company_members: Option<Vec<CharacterSearch>>,
    /// The friends of the character.
    pub friends: Option<Vec<CharacterSearch>>,
    /// Whether the list of friends is public.
    pub friends_public: Option<bool>,
    /// The minions of the character.
    pub minions: Option<Vec<Mimo>>,
    /// The mounts of the character.
    pub mounts: Option<Vec<Mimo>>,
    /// The id of the PvP team of the character.
    pub pvpteam: Option<String>,
}

/// The mathematical value of a [`CharacterResult`].
pub struct CharacterResultView {
    pub achievements: Option<CharacterAchievementsView>,
    pub achievements_public: Option<bool>,
    pub character: CharacterView,
    pub free_company: Option<FreeCompanyView>,
    pub free_company_members: Option<Seq<CharacterSearchView>>,
    pub friends: Option<Seq<CharacterSearchView>>,
    pub friends_public: Option<bool>,
    pub minions: Option<Seq<MimoView>>,
    pub mounts: Option<Seq<MimoView>>,
    pub pvpteam: Option<Seq<char>>,
}

impl DeepView for CharacterResult {
    type V = CharacterResultView;

    open spec fn deep_view(&self) -> CharacterResultView {
        CharacterResultView {
            achievements: self.achievements.deep_view(),
            achievements_public: self.achievements_public.deep_view(),
            character: self.character.deep_view(),
            free_company: self.free_company.deep_view(),
            free_company_members: self.free_company_members.deep_view(),
            friends: self.friends.deep_view(),
            friends_public: self.friends_public.deep_view(),
            minions: self.minions.deep_view(),
            mounts: self.mounts.deep_view(),
            pvpteam: self.pvpteam.deep_view(),
        }
    }
}

impl Wire for CharacterResult {
    open spec fn decoded(doc: JsonModel) -> Result<CharacterResultView, Seq<char>> {
        match doc {
            JsonModel::Object(fields) => {
                let achievements = optional::<CharacterAchievements>(
                    fields,
                    "Achievements"@,
                    "achievements"@,
                );
                let achievements_public = optional::<bool>(
                    fields,
                    "AchievementsPublic"@,
                    "achievements_public"@,
                );
                let character = required::<Character>(fields, "Character"@, "character"@);
                let free_company = optional::<FreeCompany>(fields, "FreeCompany"@, "free_company"@);
                let free_company_members = optional::<Vec<CharacterSearch>>(
                    fields,
                    "FreeCompanyMembers"@,
                    "free_company_members"@,
                );
                let friends = optional::<Vec<CharacterSearch>>(fields, "Friends"@, "friends"@);
                let friends_public = optional::<bool>(fields, "FriendsPublic"@, "friends_public"@);
                let minions = optional::<Vec<Mimo>>(fields, "Minions"@, "minions"@);
                let mounts = optional::<Vec<Mimo>>(fields, "Mounts"@, "mounts"@);
                let pvpteam = optional::<String>(fields, "PvPTeam"@, "pvpteam"@);
                if achievements is Err {
                    Err(achievements->Err_0)
                } else if achievements_public is Err {
                    Err(achievements_public->Err_0)
                } else if character is Err {
                    Err(character->Err_0)
                } else if free_company is Err {
                    Err(free_company->Err_0)
                } else if free_company_members is Err {
                    Err(free_company_members->Err_0)
                } else if friends is Err {
                    Err(friends->Err_0)
                } else if friends_public is Err {
                    Err(friends_public->Err_0)
                } else if minions is Err {
                    Err(minions->Err_0)
                } else if mounts is Err {
                    Err(mounts->Err_0)
                } else if pvpteam is Err {
                    Err(pvpteam->Err_0)
                } else {
                    Ok(
                        CharacterResultView {
                            achievements: achievements->Ok_0,
                            achievements_public: achievements_public->Ok_0,
                            character: character->Ok_0,
                            free_company: free_company->Ok_0,
                            free_company_members: free_company_members->Ok_0,
                            friends: friends->Ok_0,
                            friends_public: friends_public->Ok_0,
                            minions: minions->Ok_0,
                            mounts: mounts->Ok_0,
                            pvpteam: pvpteam->Ok_0,
                        },
                    )
                }
            },
            _ => Err(Seq::empty()),
        }
    }

    open spec fn encoded(value: CharacterResultView) -> JsonModel {
        JsonModel::Object(
            Seq::empty()
                .push(
                    (
                        "Achievements"@,
                        encoded_optional::<CharacterAchievements>(value.achievements),
                    ),
                )
                .push(("AchievementsPublic"@, encoded_optional::<bool>(value.achievements_public)))
                .push(("Character"@, Character::encoded(value.character)))
                .push(("FreeCompany"@, encoded_optional::<FreeCompany>(value.free_company)))
                .push(
                    (
                        "FreeCompanyMembers"@,
                        encoded_optional::<Vec<CharacterSearch>>(value.free_company_members),
                    ),
                )
                .push(("Friends"@, encoded_optional::<Vec<CharacterSearch>>(value.friends)))
                .push(("FriendsPublic"@, encoded_optional::<bool>(value.friends_public)))
                .push(("Minions"@, encoded_optional::<Vec<Mimo>>(value.minions)))
                .push(("Mounts"@, encoded_optional::<Vec<Mimo>>(value.mounts)))
                .push(("PvPTeam"@, encoded_optional::<String>(value.pvpteam))),
        )
    }

    fn from_json(doc: &Json) -> (r: Result<CharacterResult, String>) {
        match doc.as_object() {
            None => Err(String::new()),
            Some(fields) => {
                let achievements = read_optional::<CharacterAchievements>(
                    fields,
                    "Achievements",
                    "achievements",
                )?;
                let achievements_public = read_optional::<bool>(
                    fields,
                    "AchievementsPublic",
                    "achievements_public",
                )?;
                let character = read_required::<Character>(fields, "Character", "character")?;
                let free_company = read_optional::<FreeCompany>(
                    fields,
                    "FreeCompany",
                    "free_company",
                )?;
                let free_company_members = read_optional::<Vec<CharacterSearch>>(
                    fields,
                    "FreeCompanyMembers",
                    "free_company_members",
                )?;
                let friends = read_optional::<Vec<CharacterSearch>>(fields, "Friends", "friends")?;
                let friends_public = read_optional::<bool>(
                    fields,
                    "FriendsPublic",
                    "friends_public",
                )?;
                let minions = read_optional::<Vec<Mimo>>(fields, "Minions", "minions")?;
                let mounts = read_optional::<Vec<Mimo>>(fields, "Mounts", "mounts")?;
                let pvpteam = read_optional::<String>(fields, "PvPTeam", "pvpteam")?;
                Ok(
                    CharacterResult {
                        achievements,
                        achievements_public,
                        character,
                        free_company,
                        free_company_members,
                        friends,
                        friends_public,
                        minions,
                        mounts,
                        pvpteam,
                    },
                )
            },
        }
    }

    fn to_json(&self) -> (doc: Json) {
        let mut fields = no_fields();
        put(&mut fields, "Achievements", write_optional(&self.achievements));
        put(&mut fields, "AchievementsPublic", write_optional(&self.achievements_public));
        put(&mut fields, "Character", self.character.to_json());
        put(&mut fields, "FreeCompany", write_optional(&self.free_company));
        put(&mut fields, "FreeCompanyMembers", write_optional(&self.free_company_members));
        put(&mut fields, "Friends", write_optional(&self.friends));
        put(&mut fields, "FriendsPublic", write_optional(&self.friends_public));
        put(&mut fields, "Minions", write_optional(&self.minions));
        put(&mut fields, "Mounts", write_optional(&self.mounts));
        put(&mut fields, "PvPTeam", write_optional(&self.pvpteam));
        Json::object(fields)
    }

    proof fn lemma_round_trip(value: CharacterResultView) {
        // The names differ from one another in their length or in one of the
        // characters stated here.
        reveal_strlit("Achievements");
        reveal_strlit("AchievementsPublic");
        reveal_strlit("Character");
        reveal_strlit("FreeCompany");
        reveal_strlit("FreeCompanyMembers");
        reveal_strlit("Friends");
        reveal_strlit("FriendsPublic");
        reveal_strlit("Minions");
        reveal_strlit("Mounts");
        reveal_strlit("PvPTeam");
        assert("Achievements"@.len() == 12);
        assert("AchievementsPublic"@.len() == 18 && "AchievementsPublic"@[0] == 'A');
        assert("Character"@.len() == 9);
        assert("FreeCompany"@.len() == 11);
        assert("FreeCompanyMembers"@.len() == 18 && "FreeCompanyMembers"@[0] == 'F');
        assert("Friends"@.len() == 7 && "Friends"@[0] == 'F');
        assert("FriendsPublic"@.len() == 13);
        assert("Minions"@.len() == 7 && "Minions"@[0] == 'M');
        assert("Mounts"@.len() == 6);
        assert("PvPTeam"@.len() == 7 && "PvPTeam"@[0] == 'P');
        reveal_with_fuel(lookup_from, 11);
        let fields = Self::encoded(value)->Object_0;
        lemma_optional_round_trip::<CharacterAchievements>(
            fields,
            "Achievements"@,
            "achievements"@,
            value.achievements,
        );
        lemma_optional_round_trip::<bool>(
            fields,
            "AchievementsPublic"@,
            "achievements_public"@,
            value.achievements_public,
        );
        lemma_required_round_trip::<Character>(fields, "Character"@, "character"@, value.character);
        lemma_optional_round_trip::<FreeCompany>(
            fields,
            "FreeCompany"@,
            "free_company"@,
            value.free_company,
        );
        lemma_optional_round_trip::<Vec<CharacterSearch>>(
            fields,
            "FreeCompanyMembers"@,
            "free_company_members"@,
            value.free_company_members,
        );
        lemma_optional_round_trip::<Vec<CharacterSearch>>(
            fields,
            "Friends"@,
            "friends"@,
            value.friends,
        );
        lemma_optional_round_trip::<bool>(
            fields,
            "FriendsPublic"@,
            "friends_public"@,
            value.friends_public,
        );
        lemma_optional_round_trip::<Vec<Mimo>>(fields, "Minions"@, "minions"@, value.minions);
        lemma_optional_round_trip::<Vec<Mimo>>(fields, "Mounts"@, "mounts"@, value.mounts);
        lemma_optional_round_trip::<String>(fields, "PvPTeam"@, "pvpteam"@, value.pvpteam);
    }
}

impl CharacterResult {
    /// Where a document decodes, an optional member that it leaves out is
    /// absent in the value; one that it gives as an empty list is present
    /// and empty.
    pub proof fn lemma_absent_members(fields: Seq<(Seq<char>, JsonModel)>)
        requires
            Self::decoded(JsonModel::Object(fields)) is Ok,
        ensures
            lookup(fields, "Achievements"@) is None ==> Self::decoded(
                JsonModel::Object(fields),
            )->Ok_0.achievements is None,
            lookup(fields, "AchievementsPublic"@) is None ==> Self::decoded(
                JsonModel::Object(fields),
            )->Ok_0.achievements_public is None,
            lookup(fields, "FreeCompany"@) is None ==> Self::decoded(
                JsonModel::Object(fields),
            )->Ok_0.free_company is None,
            lookup(fields, "FreeCompanyMembers"@) is None ==> Self::decoded(
                JsonModel::Object(fields),
            )->Ok_0.free_company_members is None,
            lookup(fields, "Friends"@) is None ==> Self::decoded(
                JsonModel::Object(fields),
            )->Ok_0.friends is None,
            lookup(fields, "FriendsPublic"@) is None ==> Self::decoded(
                JsonModel::Object(fields),
            )->Ok_0.friends_public is None,
            lookup(fields, "Minions"@) is None ==> Self::decoded(
                JsonModel::Object(fields),
            )->Ok_0.minions is None,
            lookup(fields, "Mounts"@) is None ==> Self::decoded(
                JsonModel::Object(fields),
            )->Ok_0.mounts is None,
            lookup(fields, "PvPTeam"@) is None ==> Self::decoded(
                JsonModel::Object(fields),
            )->Ok_0.pvpteam is None,
            lookup(fields, "FreeCompanyMembers"@) == Some(JsonModel::List(Seq::empty()))
                ==> Self::decoded(JsonModel::Object(fields))->Ok_0.free_company_members == Some(
                Seq::<CharacterSearchView>::empty(),
            ),
            lookup(fields, "Friends"@) == Some(JsonModel::List(Seq::empty()))
                ==> Self::decoded(JsonModel::Object(fields))->Ok_0.friends == Some(
                Seq::<CharacterSearchView>::empty(),
            ),
            lookup(fields, "Minions"@) == Some(JsonModel::List(Seq::empty()))
                ==> Self::decoded(JsonModel::Object(fields))->Ok_0.minions == Some(
                Seq::<MimoView>::empty(),
            ),
            lookup(fields, "Mounts"@) == Some(JsonModel::List(Seq::empty()))
                ==> Self::decoded(JsonModel::Object(fields))->Ok_0.mounts == Some(
                Seq::<MimoView>::empty(),
            ),
    {
    }
}

/// The profile of a character.
#[derive(Debug, Clone, PartialEq, Eq)]
pub struct Character {
    /// The class or job the character is in at present.
    pub active_class_job: Class,
    /// The address of the avatar image.
    pub avatar: String,
    /// What the character says of itself.
    pub bio: String,
    /// Every class and job of the character.
    pub class_jobs: Vec<Class>,
    /// The progress in the Bozjan content.
    pub class_jobs_bozjan: ClassBozjan,
    /// The progress in the Elemental content.
    pub class_jobs_elemental: ClassElemental,
    /// The data center of the server.
    pub dc: String,
    /// The id of the free company of the character.
    pub free_company_id: String,
    /// The name of that free company.
    pub free_company_name: String,
    /// What the character wears.
    pub gear_set: GearSet,
    /// The gender, as the id the server uses.
    pub gender: u8,
    /// The standing with a grand company.
    pub grand_company: GrandCompany,
    /// The id of the character.
    pub id: u32,
    /// The language of the character, where it is known.
    pub lang: Option<String>,
    /// The name of the character.
    pub name: String,
    /// The nameday of the character.
    pub nameday: String,
    /// When the server read the profile, in seconds since 1970.
    pub parse_date: u32,
    /// The address of the portrait image.
    pub portrait: String,
    /// The id of the PvP team; absent where the character is in none.
    pub pvp_team_id: Option<String>,
    /// The race, as the id the server uses.
    pub race: u8,
    /// The server the character lives on.
    pub server: String,
    /// The id of the title.
    pub title: u32,
    /// Whether the title stands above the name.
    pub title_top: bool,
    /// The id of the home town.
    pub town: u32,
    /// The id of the tribe.
    pub tribe: u32,
}

/// The mathematical value of a [`Character`].
pub struct CharacterView {
    pub active_class_job: ClassView,
    pub avatar: Seq<char>,
    pub bio: Seq<char>,
    pub class_jobs: Seq<ClassView>,
    pub class_jobs_bozjan: ClassBozjanView,
    pub class_jobs_elemental: ClassElementalView,
    pub dc: Seq<char>,
    pub free_company_id: Seq<char>,
    pub free_company_name: Seq<char>,
    pub gear_set: GearSetView,
    pub gender: u8,
    pub grand_company: GrandCompanyView,
    pub id: u32,
    pub lang: Option<Seq<char>>,
    pub name: Seq<char>,
    pub nameday: Seq<char>,
    pub parse_date: u32,
    pub portrait: Seq<char>,
    pub pvp_team_id: Option<Seq<char>>,
    pub race: u8,
    pub server: Seq<char>,
    pub title: u32,
    pub title_top: bool,
    pub town: u32,
    pub tribe: u32,
}

impl DeepView for Character {
    type V = CharacterView;

    open spec fn deep_view(&self) -> CharacterView {
        CharacterView {
            active_class_job: self.active_class_job.deep_view(),
            avatar: self.avatar.deep_view(),
            bio: self.bio.deep_view(),
            class_jobs: self.class_jobs.deep_view(),
            class_jobs_bozjan: self.class_jobs_bozjan.deep_view(),
            class_jobs_elemental: self.class_jobs_elemental.deep_view(),
            dc: self.dc.deep_view(),
            free_company_id: self.free_company_id.deep_view(),
            free_company_name: self.free_company_name.deep_view(),
            gear_set: self.gear_set.deep_view(),
            gender: self.gender.deep_view(),
            grand_company: self.grand_company.deep_view(),
            id: self.id.deep_view(),
            lang: self.lang.deep_view(),
            name: self.name.deep_view(),
            nameday: self.nameday.deep_view(),
            parse_date: self.parse_date.deep_view(),
            portrait: self.portrait.deep_view(),
            pvp_team_id: self.pvp_team_id.deep_view(),
            race: self.race.deep_view(),
            server: self.server.deep_view(),
            title: self.title.deep_view(),
            title_top: self.title_top.deep_view(),
            town: self.town.deep_view(),
            tribe: self.tribe.deep_view(),
        }
    }
}

impl Wire for Character {
    open spec fn decoded(doc: JsonModel) -> Result<CharacterView, Seq<char>> {
        match doc {
            JsonModel::Object(fields) => {
                let active_class_job = required::<Class>(
                    fields,
                    "ActiveClassJob"@,
                    "active_class_job"@,
                );
                let avatar = required::<String>(fields, "Avatar"@, "avatar"@);
                let bio = required::<String>(fields, "Bio"@, "bio"@);
                let class_jobs = required::<Vec<Class>>(fields, "ClassJobs"@, "class_jobs"@);
                let class_jobs_bozjan = required::<ClassBozjan>(
                    fields,
                    "ClassJobsBozjan"@,
                    "class_jobs_bozjan"@,
                );
                let class_jobs_elemental = required::<ClassElemental>(
                    fields,
                    "ClassJobsElemental"@,
                    "class_jobs_elemental"@,
                );
                let dc = required::<String>(fields, "DC"@, "dc"@);
                let free_company_id = required::<String>(
                    fields,
                    "FreeCompanyId"@,
                    "free_company_id"@,
                );
                let free_company_name = required::<String>(
                    fields,
                    "FreeCompanyName"@,
                    "free_company_name"@,
                );
                let gear_set = required::<GearSet>(fields, "GearSet"@, "gear_set"@);
                let gender = required::<u8>(fields, "Gender"@, "gender"@);
                let grand_company = required::<GrandCompany>(
                    fields,
                    "GrandCompany"@,
                    "grand_company"@,
                );
                let id = required::<u32>(fields, "ID"@, "id"@);
                let lang = optional::<String>(fields, "Lang"@, "lang"@);
                let name = required::<String>(fields, "Name"@, "name"@);
                let nameday = required::<String>(fields, "Nameday"@, "nameday"@);
                let parse_date = required::<u32>(fields, "ParseDate"@, "parse_date"@);
                let portrait = required::<String>(fields, "Portrait"@, "portrait"@);
                let pvp_team_id = optional::<String>(fields, "PvPTeamId"@, "pvp_team_id"@);
                let race = required::<u8>(fields, "Race"@, "race"@);
                let server = required::<String>(fields, "Server"@, "server"@);
                let title = required::<u32>(fields, "Title"@, "title"@);
                let title_top = required::<bool>(fields, "TitleTop"@, "title_top"@);
                let town = required::<u32>(fields, "Town"@, "town"@);
                let tribe = required::<u32>(fields, "Tribe"@, "tribe"@);
                if active_class_job is Err {
                    Err(active_class_job->Err_0)
                } else if avatar is Err {
                    Err(avatar->Err_0)
                } else if bio is Err {
                    Err(bio->Err_0)
                } else if class_jobs is Err {
                    Err(class_jobs->Err_0)
                } else if class_jobs_bozjan is Err {
                    Err(class_jobs_bozjan->Err_0)
                } else if class_jobs_elemental is Err {
                    Err(class_jobs_elemental->Err_0)
                } else if dc is Err {
                    Err(dc->Err_0)
                } else if free_company_id is Err {
                    Err(free_company_id->Err_0)
                } else if free_company_name is Err {
                    Err(free_company_name->Err_0)
                } else if gear_set is Err {
                    Err(gear_set->Err_0)
                } else if gender is Err {
                    Err(gender->Err_0)
                } else if grand_company is Err {
                    Err(grand_company->Err_0)
                } else if id is Err {
                    Err(id->Err_0)
                } else if lang is Err {
                    Err(lang->Err_0)
                } else if name is Err {
                    Err(name->Err_0)
                } else if nameday is Err {
                    Err(nameday->Err_0)
                } else if parse_date is Err {
                    Err(parse_date->Err_0)
                } else if portrait is Err {
                    Err(portrait->Err_0)
                } else if pvp_team_id is Err {
                    Err(pvp_team_id->Err_0)
                } else if race is Err {
                    Err(race->Err_0)
                } else if server is Err {
                    Err(server->Err_0)
                } else if title is Err {
                    Err(title->Err_0)
                } else if title_top is Err {
                    Err(title_top->Err_0)
                } else if town is Err {
                    Err(town->Err_0)
                } else if tribe is Err {
                    Err(tribe->Err_0)
                } else {
                    Ok(
                        CharacterView {
                            active_class_job: active_class_job->Ok_0,
                            avatar: avatar->Ok_0,
                            bio: bio->Ok_0,
                            class_jobs: class_jobs->Ok_0,
                            class_jobs_bozjan: class_jobs_bozjan->Ok_0,
                            class_jobs_elemental: class_jobs_elemental->Ok_0,
                            dc: dc->Ok_0,
                            free_company_id: free_company_id->Ok_0,
                            free_company_name: free_company_name->Ok_0,
                            gear_set: gear_set->Ok_0,
                            gender: gender->Ok_0,
                            grand_company: grand_company->Ok_0,
                            id: id->Ok_0,
                            lang: lang->Ok_0,
                            name: name->Ok_0,
                            nameday: nameday->Ok_0,
                            parse_date: parse_date->Ok_0,
                            portrait: portrait->Ok_0,
                            pvp_team_id: pvp_team_id->Ok_0,
                            race: race->Ok_0,
                            server: server->Ok_0,
                            title: title->Ok_0,
                            title_top: title_top->Ok_0,
                            town: town->Ok_0,
                            tribe: tribe->Ok_0,
                        },
                    )
                }
            },
            _ => Err(Seq::empty()),
        }
    }

    open spec fn encoded(value: CharacterView) -> JsonModel {
        JsonModel::Object(
            Seq::empty()
                .push(("ActiveClassJob"@, Class::encoded(value.active_class_job)))
                .push(("Avatar"@, String::encoded(value.avatar)))
                .push(("Bio"@, String::encoded(value.bio)))
                .push(("ClassJobs"@, Vec::<Class>::encoded(value.class_jobs)))
                .push(("ClassJobsBozjan"@, ClassBozjan::encoded(value.class_jobs_bozjan)))
                .push(("ClassJobsElemental"@, ClassElemental::encoded(value.class_jobs_elemental)))
                .push(("DC"@, String::encoded(value.dc)))
                .push(("FreeCompanyId"@, String::encoded(value.free_company_id)))
                .push(("FreeCompanyName"@, String::encoded(value.free_company_name)))
                .push(("GearSet"@, GearSet::encoded(value.gear_set)))
                .push(("Gender"@, u8::encoded(value.gender)))
                .push(("GrandCompany"@, GrandCompany::encoded(value.grand_company)))
                .push(("ID"@, u32::encoded(value.id)))
                .push(("Lang"@, encoded_optional::<String>(value.lang)))
                .push(("Name"@, String::encoded(value.name)))
                .push(("Nameday"@, String::encoded(value.nameday)))
                .push(("ParseDate"@, u32::encoded(value.parse_date)))
                .push(("Portrait"@, String::encoded(value.portrait)))
                .push(("PvPTeamId"@, encoded_optional::<String>(value.pvp_team_id)))
                .push(("Race"@, u8::encoded(value.race)))
                .push(("Server"@, String::encoded(value.server)))
                .push(("Title"@, u32::encoded(value.title)))
                .push(("TitleTop"@, bool::encoded(value.title_top)))
                .push(("Town"@, u32::encoded(value.town)))
                .push(("Tribe"@, u32::encoded(value.tribe))),
        )
    }

    fn from_json(doc: &Json) -> (r: Result<Character, String>) {
        match doc.as_object() {
            None => Err(String::new()),
            Some(fields) => {
                let active_class_job = read_required::<Class>(
                    fields,
                    "ActiveClassJob",
                    "active_class_job",
                )?;
                let avatar = read_required::<String>(fields, "Avatar", "avatar")?;
                let bio = read_required::<String>(fields, "Bio", "bio")?;
                let class_jobs = read_required::<Vec<Class>>(fields, "ClassJobs", "class_jobs")?;
                let class_jobs_bozjan = read_required::<ClassBozjan>(
                    fields,
                    "ClassJobsBozjan",
                    "class_jobs_bozjan",
                )?;
                let class_jobs_elemental = read_required::<ClassElemental>(
                    fields,
                    "ClassJobsElemental",
                    "class_jobs_elemental",
                )?;
                let dc = read_required::<String>(fields, "DC", "dc")?;
                let free_company_id = read_required::<String>(
                    fields,
                    "FreeCompanyId",
                    "free_company_id",
                )?;
                let free_company_name = read_required::<String>(
                    fields,
                    "FreeCompanyName",
                    "free_company_name",
                )?;
                let gear_set = read_required::<GearSet>(fields, "GearSet", "gear_set")?;
                let gender = read_required::<u8>(fields, "Gender", "gender")?;
                let grand_company = read_required::<GrandCompany>(
                    fields,
                    "GrandCompany",
                    "grand_company",
                )?;
                let id = read_required::<u32>(fields, "ID", "id")?;
                let lang = read_optional::<String>(fields, "Lang", "lang")?;
                let name = read_required::<String>(fields, "Name", "name")?;
                let nameday = read_required::<String>(fields, "Nameday", "nameday")?;
                let parse_date = read_required::<u32>(fields, "ParseDate", "parse_date")?;
                let portrait = read_required::<String>(fields, "Portrait", "portrait")?;
                let pvp_team_id = read_optional::<String>(fields, "PvPTeamId", "pvp_team_id")?;
                let race = read_required::<u8>(fields, "Race", "race")?;
                let server = read_required::<String>(fields, "Server", "server")?;
                let title = read_required::<u32>(fields, "Title", "title")?;
                let title_top = read_required::<bool>(fields, "TitleTop", "title_top")?;
                let town = read_required::<u32>(fields, "Town", "town")?;
                let tribe = read_required::<u32>(fields, "Tribe", "tribe")?;
                Ok(
                    Character {
                        active_class_job,
                        avatar,
                        bio,
                        class_jobs,
                        class_jobs_bozjan,
                        class_jobs_elemental,
                        dc,
                        free_company_id,
                        free_company_name,
                        gear_set,
                        gender,
                        grand_company,
                        id,
                        lang,
                        name,
                        nameday,
                        parse_date,
                        portrait,
                        pvp_team_id,
                        race,
                        server,
                        title,
                        title_top,
                        town,
                        tribe,
                    },
                )
            },
        }
    }

    fn to_json(&self) -> (doc: Json) {
        let mut fields = no_fields();
        put(&mut fields, "ActiveClassJob", self.active_class_job.to_json());
        put(&mut fields, "Avatar", self.avatar.to_json());
        put(&mut fields, "Bio", self.bio.to_json());
        put(&mut fields, "ClassJobs", self.class_jobs.to_json());
        put(&mut fields, "ClassJobsBozjan", self.class_jobs_bozjan.to_json());
        put(&mut fields, "ClassJobsElemental", self.class_jobs_elemental.to_json());
        put(&mut fields, "DC", self.dc.to_json());
        put(&mut fields, "FreeCompanyId", self.free_company_id.to_json());
        put(&mut fields, "FreeCompanyName", self.free_company_name.to_json());
        put(&mut fields, "GearSet", self.gear_set.to_json());
        put(&mut fields, "Gender", self.gender.to_json());
        put(&mut fields, "GrandCompany", self.grand_company.to_json());
        put(&mut fields, "ID", self.id.to_json());
        put(&mut fields, "Lang", write_optional(&self.lang));
        put(&mut fields, "Name", self.name.to_json());
        put(&mut fields, "Nameday", self.nameday.to_json());
        put(&mut fields, "ParseDate", self.parse_date.to_json());
        put(&mut fields, "Portrait", self.portrait.to_json());
        put(&mut fields, "PvPTeamId", write_optional(&self.pvp_team_id));
        put(&mut fields, "Race", self.race.to_json());
        put(&mut fields, "Server", self.server.to_json());
        put(&mut fields, "Title", self.title.to_json());
        put(&mut fields, "TitleTop", self.title_top.to_json());
        put(&mut fields, "Town", self.town.to_json());
        put(&mut fields, "Tribe", self.tribe.to_json());
        Json::object(fields)
    }

    proof fn lemma_round_trip(value: CharacterView) {
        // The names differ from one another in their length or in one of the
        // characters stated here.
        reveal_strlit("ActiveClassJob");
        reveal_strlit("Avatar");
        reveal_strlit("Bio");
        reveal_strlit("ClassJobs");
        reveal_strlit("ClassJobsBozjan");
        reveal_strlit("ClassJobsElemental");
        reveal_strlit("DC");
        reveal_strlit("FreeCompanyId");
        reveal_strlit("FreeCompanyName");
        reveal_strlit("GearSet");
        reveal_strlit("Gender");
        reveal_strlit("GrandCompany");
        reveal_strlit("ID");
        reveal_strlit("Lang");
        reveal_strlit("Name");
        reveal_strlit("Nameday");
        reveal_strlit("ParseDate");
        reveal_strlit("Portrait");
        reveal_strlit("PvPTeamId");
        reveal_strlit("Race");
        reveal_strlit("Server");
        reveal_strlit("Title");
        reveal_strlit("TitleTop");
        reveal_strlit("Town");
        reveal_strlit("Tribe");
        assert("ActiveClassJob"@.len() == 14);
        assert("Avatar"@.len() == 6 && "Avatar"@[0] == 'A');
        assert("Bio"@.len() == 3);
        assert("ClassJobs"@.len() == 9 && "ClassJobs"@[0] == 'C');
        assert("ClassJobsBozjan"@.len() == 15 && "ClassJobsBozjan"@[0] == 'C');
        assert("ClassJobsElemental"@.len() == 18);
        assert("DC"@.len() == 2 && "DC"@[0] == 'D');
        assert("FreeCompanyId"@.len() == 13);
        assert("FreeCompanyName"@.len() == 15 && "FreeCompanyName"@[0] == 'F');
        assert("GearSet"@.len() == 7 && "GearSet"@[0] == 'G');
        assert("Gender"@.len() == 6 && "Gender"@[0] == 'G');
        assert("GrandCompany"@.len() == 12);
        assert("ID"@.len() == 2 && "ID"@[0] == 'I');
        assert("Lang"@.len() == 4 && "Lang"@[0] == 'L');
        assert("Name"@.len() == 4 && "Name"@[0] == 'N');
        assert("Nameday"@.len() == 7 && "Nameday"@[0] == 'N');
        assert("ParseDate"@.len() == 9 && "ParseDate"@[0] == 'P' && "ParseDate"@[1] == 'a');
        assert("Portrait"@.len() == 8 && "Portrait"@[0] == 'P');
        assert("PvPTeamId"@.len() == 9 && "PvPTeamId"@[0] == 'P' && "PvPTeamId"@[1] == 'v');
        assert("Race"@.len() == 4 && "Race"@[0] == 'R');
        assert("Server"@.len() == 6 && "Server"@[0] == 'S');
        assert("Title"@.len() == 5 && "Title"@[1] == 'i');
        assert("TitleTop"@.len() == 8 && "TitleTop"@[0] == 'T');
        assert("Town"@.len() == 4 && "Town"@[0] == 'T');
        assert("Tribe"@.len() == 5 && "Tribe"@[1] == 'r');
        reveal_with_fuel(lookup_from, 26);
        let fields = Self::encoded(value)->Object_0;
        lemma_required_round_trip::<Class>(
            fields,
            "ActiveClassJob"@,
            "active_class_job"@,
            value.active_class_job,
        );
        lemma_required_round_trip::<String>(fields, "Avatar"@, "avatar"@, value.avatar);
        lemma_required_round_trip::<String>(fields, "Bio"@, "bio"@, value.bio);
        lemma_required_round_trip::<Vec<Class>>(
            fields,
            "ClassJobs"@,
            "class_jobs"@,
            value.class_jobs,
        );
        lemma_required_round_trip::<ClassBozjan>(
            fields,
            "ClassJobsBozjan"@,
            "class_jobs_bozjan"@,
            value.class_jobs_bozjan,
        );
        lemma_required_round_trip::<ClassElemental>(
            fields,
            "ClassJobsElemental"@,
            "class_jobs_elemental"@,
            value.class_jobs_elemental,
        );
        lemma_required_round_trip::<String>(fields, "DC"@, "dc"@, value.dc);
        lemma_required_round_trip::<String>(
            fields,
            "FreeCompanyId"@,
            "free_company_id"@,
            value.free_company_id,
        );
        lemma_required_round_trip::<String>(
            fields,
            "FreeCompanyName"@,
            "free_company_name"@,
            value.free_company_name,
        );
        lemma_required_round_trip::<GearSet>(fields, "GearSet"@, "gear_set"@, value.gear_set);
        lemma_required_round_trip::<u8>(fields, "Gender"@, "gender"@, value.gender);
        lemma_required_round_trip::<GrandCompany>(
            fields,
            "GrandCompany"@,
            "grand_company"@,
            value.grand_company,
        );
        lemma_required_round_trip::<u32>(fields, "ID"@, "id"@, value.id);
        lemma_optional_round_trip::<String>(fields, "Lang"@, "lang"@, value.lang);
        lemma_required_round_trip::<String>(fields, "Name"@, "name"@, value.name);
        lemma_required_round_trip::<String>(fields, "Nameday"@, "nameday"@, value.nameday);
        lemma_required_round_trip::<u32>(fields, "ParseDate"@, "parse_date"@, value.parse_date);
        lemma_required_round_trip::<String>(fields, "Portrait"@, "portrait"@, value.portrait);
        lemma_optional_round_trip::<String>(
            fields,
            "PvPTeamId"@,
            "pvp_team_id"@,
            value.pvp_team_id,
        );
        lemma_required_round_trip::<u8>(fields, "Race"@, "race"@, value.race);
        lemma_required_round_trip::<String>(fields, "Server"@, "server"@, value.server);
        lemma_required_round_trip::<u32>(fields, "Title"@, "title"@, value.title);
        lemma_required_round_trip::<bool>(fields, "TitleTop"@, "title_top"@, value.title_top);
        lemma_required_round_trip::<u32>(fields, "Town"@, "town"@, value.town);
        lemma_required_round_trip::<u32>(fields, "Tribe"@, "tribe"@, value.tribe);
    }
}

impl Character {
    /// Where a document decodes, an optional member that it leaves out is
    /// absent in the value.
    pub proof fn lemma_absent_members(fields: Seq<(Seq<char>, JsonModel)>)
        requires
            Self::decoded(JsonModel::Object(fields)) is Ok,
        ensures
            lookup(fields, "Lang"@) is None ==> Self::decoded(
                JsonModel::Object(fields),
            )->Ok_0.lang is None,
            lookup(fields, "PvPTeamId"@) is None ==> Self::decoded(
                JsonModel::Object(fields),
            )->Ok_0.pvp_team_id is None,
    {
    }
}

/// The standing of a character with a grand company.
#[derive(Debug, Clone, PartialEq, Eq)]
pub struct GrandCompany {
    /// The id of the company.
    pub name_id: u8,
    /// The id of the rank.
    pub rank_id: u8,
}

/// The mathematical value of a [`GrandCompany`].
pub struct GrandCompanyView {
    pub name_id: u8,
    pub rank_id: u8,
}

impl DeepView for GrandCompany {
    type V = GrandCompanyView;

    open spec fn deep_view(&self) -> GrandCompanyView {
        GrandCompanyView {
            name_id: self.name_id.deep_view(),
            rank_id: self.rank_id.deep_view(),
        }
    }
}

impl Wire for GrandCompany {
    open spec fn decoded(doc: JsonModel) -> Result<GrandCompanyView, Seq<char>> {
        match doc {
            JsonModel::Object(fields) => {
                let name_id = required::<u8>(fields, "NameID"@, "name_id"@);
                let rank_id = required::<u8>(fields, "RankID"@, "rank_id"@);
                if name_id is Err {
                    Err(name_id->Err_0)
                } else if rank_id is Err {
                    Err(rank_id->Err_0)
                } else {
                    Ok(
                        GrandCompanyView {
                            name_id: name_id->Ok_0,
                            rank_id: rank_id->Ok_0,
                        },
                    )
                }
            },
            _ => Err(Seq::empty()),
        }
    }

    open spec fn encoded(value: GrandCompanyView) -> JsonModel {
        JsonModel::Object(
            Seq::empty()
                .push(("NameID"@, u8::encoded(value.name_id)))
                .push(("RankID"@, u8::encoded(value.rank_id))),
        )
    }

    fn from_json(doc: &Json) -> (r: Result<GrandCompany, String>) {
        match doc.as_object() {
            None => Err(String::new()),
            Some(fields) => {
                let name_id = read_required::<u8>(fields, "NameID", "name_id")?;
                let rank_id = read_required::<u8>(fields, "RankID", "rank_id")?;
                Ok(
                    GrandCompany {
                        name_id,
                        rank_id,
                    },
                )
            },
        }
    }

    fn to_json(&self) -> (doc: Json) {
        let mut fields = no_fields();
        put(&mut fields, "NameID", self.name_id.to_json());
        put(&mut fields, "RankID", self.rank_id.to_json());
        Json::object(fields)
    }

    proof fn lemma_round_trip(value: GrandCompanyView) {
        // The names differ from one another in their length or in one of the
        // characters stated here.
        reveal_strlit("NameID");
        reveal_strlit("RankID");
        assert("NameID"@.len() == 6 && "NameID"@[0] == 'N');
        assert("RankID"@.len() == 6 && "RankID"@[0] == 'R');
        reveal_with_fuel(lookup_from, 3);
        let fields = Self::encoded(value)->Object_0;
        lemma_required_round_trip::<u8>(fields, "NameID"@, "name_id"@, value.name_id);
        lemma_required_round_trip::<u8>(fields, "RankID"@, "rank_id"@, value.rank_id);
    }
}

/// A mount or a minion.
#[derive(Debug, Clone, PartialEq, Eq)]
pub struct Mimo {
    /// The address of the icon.
    pub icon: String,
    /// The name.
    pub name: String,
}

/// The mathematical value of a [`Mimo`].
pub struct MimoView {
    pub icon: Seq<char>,
    pub name: Seq<char>,
}

impl DeepView for Mimo {
    type V = MimoView;

    open spec fn deep_view(&self) -> MimoView {
        MimoView {
            icon: self.icon.deep_view(),
            name: self.name.deep_view(),
        }
    }
}

impl Wire for Mimo {
    open spec fn decoded(doc: JsonModel) -> Result<MimoView, Seq<char>> {
        match doc {
            JsonModel::Object(fields) => {
                let icon = required::<String>(fields, "Icon"@, "icon"@);
                let name = required::<String>(fields, "Name"@, "name"@);
                if icon is Err {
                    Err(icon->Err_0)
                } else if name is Err {
                    Err(name->Err_0)
                } else {
                    Ok(
                        MimoView {
                            icon: icon->Ok_0,
                            name: name->Ok_0,
                        },
                    )
                }
            },
            _ => Err(Seq::empty()),
        }
    }

    open spec fn encoded(value: MimoView) -> JsonModel {
        JsonModel::Object(
            Seq::empty()
                .push(("Icon"@, String::encoded(value.icon)))
                .push(("Name"@, String::encoded(value.name))),
        )
    }

    fn from_json(doc: &Json) -> (r: Result<Mimo, String>) {
        match doc.as_object() {
            None => Err(String::new()),
            Some(fields) => {
                let icon = read_required::<String>(fields, "Icon", "icon")?;
                let name = read_required::<String>(fields, "Name", "name")?;
                Ok(
                    Mimo {
                        icon,
                        name,
                    },
                )
            },
        }
    }

    fn to_json(&self) -> (doc: Json) {
        let mut fields = no_fields();
        put(&mut fields, "Icon", self.icon.to_json());
        put(&mut fields, "Name", self.name.to_json());
        Json::object(fields)
    }

    proof fn lemma_round_trip(value: MimoView) {
        // The names differ from one another in their length or in one of the
        // characters stated here.
        reveal_strlit("Icon");
        reveal_strlit("Name");
        assert("Icon"@.len() == 4 && "Icon"@[0] == 'I');
        assert("Name"@.len() == 4 && "Name"@[0] == 'N');
        reveal_with_fuel(lookup_from, 3);
        let fields = Self::encoded(value)->Object_0;
        lemma_required_round_trip::<String>(fields, "Icon"@, "icon"@, value.icon);
        lemma_required_round_trip::<String>(fields, "Name"@, "name"@, value.name);
    }
}

impl Character {
    /// Whether every member of a profile that the decoder reads before the
    /// id is there and decodes.
    pub open spec fn decodes_up_to_id(fields: Seq<(Seq<char>, JsonModel)>) -> bool {
        &&& required::<Class>(fields, "ActiveClassJob"@, "active_class_job"@) is Ok
        &&& required::<String>(fields, "Avatar"@, "avatar"@) is Ok
        &&& required::<String>(fields, "Bio"@, "bio"@) is Ok
        &&& required::<Vec<Class>>(fields, "ClassJobs"@, "class_jobs"@) is Ok
        &&& required::<ClassBozjan>(fields, "ClassJobsBozjan"@, "class_jobs_bozjan"@) is Ok
        &&& required::<ClassElemental>(fields, "ClassJobsElemental"@, "class_jobs_elemental"@) is Ok
        &&& required::<String>(fields, "DC"@, "dc"@) is Ok
        &&& required::<String>(fields, "FreeCompanyId"@, "free_company_id"@) is Ok
        &&& required::<String>(fields, "FreeCompanyName"@, "free_company_name"@) is Ok
        &&& required::<GearSet>(fields, "GearSet"@, "gear_set"@) is Ok
        &&& required::<u8>(fields, "Gender"@, "gender"@) is Ok
        &&& required::<GrandCompany>(fields, "GrandCompany"@, "grand_company"@) is Ok
    }
}

/// A lookup result whose profile lacks its id is refused at `character.id`:
/// no id is made up for it. This holds where what the decoder reads before
/// the id decodes, since of several mismatches the first is the one
/// reported.
pub proof fn lemma_profile_without_id(
    fields: Seq<(Seq<char>, JsonModel)>,
    profile: Seq<(Seq<char>, JsonModel)>,
)
    requires
        optional::<CharacterAchievements>(fields, "Achievements"@, "achievements"@) is Ok,
        optional::<bool>(fields, "AchievementsPublic"@, "achievements_public"@) is Ok,
        lookup(fields, "Character"@) == Some(JsonModel::Object(profile)),
        Character::decodes_up_to_id(profile),
        lookup(profile, "ID"@) is None,
    ensures
        CharacterResult::decoded(JsonModel::Object(fields)) == Err::<
            CharacterResultView,
            Seq<char>,
        >("character.id"@),
{
    reveal_strlit("character");
    reveal_strlit("id");
    reveal_strlit("character.id");
    assert(Character::decoded(JsonModel::Object(profile)) == Err::<CharacterView, Seq<char>>(
        "id"@,
    ));
    assert("character"@ + seq!['.'] + "id"@ =~= "character.id"@);
}

} // verus!
