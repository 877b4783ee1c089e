//! The achievements of a character.

use crate::json::{lookup_from, no_fields, put, Json, JsonModel};
use crate::wire::{
    lemma_required_round_trip, read_required, required, Wire,
};
use vstd::prelude::*;

verus! {

/// The achievements a character has unlocked. The server sends them only where
/// the character makes them public.
#[derive(Debug, Clone, PartialEq, Eq)]
pub struct CharacterAchievements {
    /// The unlocked achievements, group by group.
    pub list: Vec<Achievements>,
    /// The points of all groups together.
    pub points: u32,
}

/// The mathematical value of a [`CharacterAchievements`].
pub struct CharacterAchievementsView {
    pub list: Seq<AchievementsView>,
    pub points: u32,
}

impl DeepView for CharacterAchievements {
    type V = CharacterAchievementsView;

    open spec fn deep_view(&self) -> CharacterAchievementsView {
        CharacterAchievementsView {
            list: self.list.deep_view(),
            points: self.points.deep_view(),
        }
    }
}

impl Wire for CharacterAchievements {
    open spec fn decoded(doc: JsonModel) -> Result<CharacterAchievementsView, Seq<char>> {
        match doc {
            JsonModel::Object(fields) => {
                let list = required::<Vec<Achievements>>(fields, "List"@, "list"@);
                let points = required::<u32>(fields, "Points"@, "points"@);
                if list is Err {
                    Err(list->Err_0)
                } else if points is Err {
                    Err(points->Err_0)
                } else {
                    Ok(
                        CharacterAchievementsView {
                            list: list->Ok_0,
                            points: points->Ok_0,
                        },
                    )
                }
            },
            _ => Err(Seq::empty()),
        }
    }

    open spec fn encoded(value: CharacterAchievementsView) -> JsonModel {
        JsonModel::Object(
            Seq::empty()
                .push(("List"@, Vec::<Achievements>::encoded(value.list)))
                .push(("Points"@, u32::encoded(value.points))),
        )
    }

    fn from_json(doc: &Json) -> (r: Result<CharacterAchievements, String>) {
        match doc.as_object() {
            None => Err(String::new()),
            Some(fields) => {
                let list = read_required::<Vec<Achievements>>(fields, "List", "list")?;
                let points = read_required::<u32>(fields, "Points", "points")?;
                Ok(
                    CharacterAchievements {
                        list,
                        points,
                    },
                )
            },
        }
    }

    fn to_json(&self) -> (doc: Json) {
        let mut fields = no_fields();
        put(&mut fields, "List", self.list.to_json());
        put(&mut fields, "Points", self.points.to_json());
        Json::object(fields)
    }

    proof fn lemma_round_trip(value: CharacterAchievementsView) {
        // The names differ from one another in their length or in one of the
        // characters stated here.
        reveal_strlit("List");
        reveal_strlit("Points");
        assert("List"@.len() == 4);
        assert("Points"@.len() == 6);
        reveal_with_fuel(lookup_from, 3);
        let fields = Self::encoded(value)->Object_0;
        lemma_required_round_trip::<Vec<Achievements>>(fields, "List"@, "list"@, value.list);
        lemma_required_round_trip::<u32>(fields, "Points"@, "points"@, value.points);
    }
}

/// One group of unlocked achievements.
#[derive(Debug, Clone, PartialEq, Eq)]
pub struct Achievements {
    /// The achievements of the group.
    pub list: Vec<String>,
    /// The points the group is worth.
    pub points: u32,
}

/// The mathematical value of a [`Achievements`].
pub struct AchievementsView {
    pub list: Seq<Seq<char>>,
    pub points: u32,
}

impl DeepView for Achievements {
    type V = AchievementsView;

    open spec fn deep_view(&self) -> AchievementsView {
        AchievementsView {
            list: self.list.deep_view(),
            points: self.points.deep_view(),
        }
    }
}

impl Wire for Achievements {
    open spec fn decoded(doc: JsonModel) -> Result<AchievementsView, Seq<char>> {
        match doc {
            JsonModel::Object(fields) => {
                let list = required::<Vec<String>>(fields, "List"@, "list"@);
                let points = required::<u32>(fields, "Points"@, "points"@);
                if list is Err {
                    Err(list->Err_0)
                } else if points is Err {
                    Err(points->Err_0)
                } else {
                    Ok(
                        AchievementsView {
                            list: list->Ok_0,
                            points: points->Ok_0,
                        },
                    )
                }
            },
            _ => Err(Seq::empty()),
        }
    }

    open spec fn encoded(value: AchievementsView) -> JsonModel {
        JsonModel::Object(
            Seq::empty()
                .push(("List"@, Vec::<String>::encoded(value.list)))
                .push(("Points"@, u32::encoded(value.points))),
        )
    }

    fn from_json(doc: &Json) -> (r: Result<Achievements, String>) {
        match doc.as_object() {
            None => Err(String::new()),
            Some(fields) => {
                let list = read_required::<Vec<String>>(fields, "List", "list")?;
                let points = read_required::<u32>(fields, "Points", "points")?;
                Ok(
                    Achievements {
                        list,
                        points,
                    },
                )
            },
        }
    }

    fn to_json(&self) -> (doc: Json) {
        let mut fields = no_fields();
        put(&mut fields, "List", self.list.to_json());
        put(&mut fields, "Points", self.points.to_json());
        Json::object(fields)
    }

    proof fn lemma_round_trip(value: AchievementsView) {
        // The names differ from one another in their length or in one of the
        // characters stated here.
        reveal_strlit("List");
        reveal_strlit("Points");
        assert("List"@.len() == 4);
        assert("Points"@.len() == 6);
        reveal_with_fuel(lookup_from, 3);
        let fields = Self::encoded(value)->Object_0;
        lemma_required_round_trip::<Vec<String>>(fields, "List"@, "list"@, value.list);
        lemma_required_round_trip::<u32>(fields, "Points"@, "points"@, value.points);
    }
}

} // verus!
