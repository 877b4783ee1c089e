//! The classes and jobs of a character, and its progress in the Bozjan and
//! Elemental content.

use crate::json::{lookup, lookup_from, no_fields, put, Json, JsonModel};
use crate::wire::{
    encoded_optional, lemma_optional_round_trip, lemma_required_round_trip, optional,
    read_optional, read_required, required, write_optional, Wire,
};
use vstd::prelude::*;

verus! {

/// The progress of a character in one class or job.
#[derive(Debug, Clone, PartialEq, Eq)]
pub struct Class {
    /// The id of the class.
    pub class_id: u32,
    /// The experience gained on the current level.
    pub exp_level: u32,
    /// The experience the current level takes in all.
    pub exp_level_max: u32,
    /// The experience still missing for the next level.
    pub exp_level_togo: u32,
    /// Whether the character is a specialist of the class.
    pub is_specialised: bool,
    /// The id of the job; present once the class has been upgraded to its job.
    pub job_id: Option<u32>,
    /// The level reached.
    pub level: u32,
    /// The name of the class.
    pub name: String,
    /// Whether the class is unlocked, and as what.
    pub unlocked_state: ClassUnlockedState,
}

/// The mathematical value of a [`Class`].
pub struct ClassView {
    pub class_id: u32,
    pub exp_level: u32,
    pub exp_level_max: u32,
    pub exp_level_togo: u32,
    pub is_specialised: bool,
    pub job_id: Option<u32>,
    pub level: u32,
    pub name: Seq<char>,
    pub unlocked_state: ClassUnlockedStateView,
}

impl DeepView for Class {
    type V = ClassView;

    open spec fn deep_view(&self) -> ClassView {
        ClassView {
            class_id: self.class_id.deep_view(),
            exp_level: self.exp_level.deep_view(),
            exp_level_max: self.exp_level_max.deep_view(),
            exp_level_togo: self.exp_level_togo.deep_view(),
            is_specialised: self.is_specialised.deep_view(),
            job_id: self.job_id.deep_view(),
            level: self.level.deep_view(),
            name: self.name.deep_view(),
            unlocked_state: self.unlocked_state.deep_view(),
        }
    }
}

impl Wire for Class {
    open spec fn decoded(doc: JsonModel) -> Result<ClassView, Seq<char>> {
        match doc {
            JsonModel::Object(fields) => {
                let class_id = required::<u32>(fields, "ClassID"@, "class_id"@);
                let exp_level = required::<u32>(fields, "ExpLevel"@, "exp_level"@);
                let exp_level_max = required::<u32>(fields, "ExpLevelMax"@, "exp_level_max"@);
                let exp_level_togo = required::<u32>(fields, "ExpLevelTogo"@, "exp_level_togo"@);
                let is_specialised = required::<bool>(fields, "IsSpecialised"@, "is_specialised"@);
                let job_id = optional::<u32>(fields, "JobID"@, "job_id"@);
                let level = required::<u32>(fields, "Level"@, "level"@);
                let name = required::<String>(fields, "Name"@, "name"@);
                let unlocked_state = required::<ClassUnlockedState>(
                    fields,
                    "UnlockedState"@,
                    "unlocked_state"@,
                );
                if class_id is Err {
                    Err(class_id->Err_0)
                } else if exp_level is Err {
                    Err(exp_level->Err_0)
                } else if exp_level_max is Err {
                    Err(exp_level_max->Err_0)
                } else if exp_level_togo is Err {
                    Err(exp_level_togo->Err_0)
                } else if is_specialised is Err {
                    Err(is_specialised->Err_0)
                } else if job_id is Err {
                    Err(job_id->Err_0)
                } else if level is Err {
                    Err(level->Err_0)
                } else if name is Err {
                    Err(name->Err_0)
                } else if unlocked_state is Err {
                    Err(unlocked_state->Err_0)
                } else {
                    Ok(
                        ClassView {
                            class_id: class_id->Ok_0,
                            exp_level: exp_level->Ok_0,
                            exp_level_max: exp_level_max->Ok_0,
                            exp_level_togo: exp_level_togo->Ok_0,
                            is_specialised: is_specialised->Ok_0,
                            job_id: job_id->Ok_0,
                            level: level->Ok_0,
                            name: name->Ok_0,
                            unlocked_state: unlocked_state->Ok_0,
                        },
                    )
                }
            },
            _ => Err(Seq::empty()),
        }
    }

    open spec fn encoded(value: ClassView) -> JsonModel {
        JsonModel::Object(
            Seq::empty()
                .push(("ClassID"@, u32::encoded(value.class_id)))
                .push(("ExpLevel"@, u32::encoded(value.exp_level)))
                .push(("ExpLevelMax"@, u32::encoded(value.exp_level_max)))
                .push(("ExpLevelTogo"@, u32::encoded(value.exp_level_togo)))
                .push(("IsSpecialised"@, bool::encoded(value.is_specialised)))
                .push(("JobID"@, encoded_optional::<u32>(value.job_id)))
                .push(("Level"@, u32::encoded(value.level)))
                .push(("Name"@, String::encoded(value.name)))
                .push(("UnlockedState"@, ClassUnlockedState::encoded(value.unlocked_state))),
        )
    }

    fn from_json(doc: &Json) -> (r: Result<Class, String>) {
        match doc.as_object() {
            None => Err(String::new()),
            Some(fields) => {
                let class_id = read_required::<u32>(fields, "ClassID", "class_id")?;
                let exp_level = read_required::<u32>(fields, "ExpLevel", "exp_level")?;
                let exp_level_max = read_required::<u32>(fields, "ExpLevelMax", "exp_level_max")?;
                let exp_level_togo = read_required::<u32>(
                    fields,
                    "ExpLevelTogo",
                    "exp_level_togo",
                )?;
                let is_specialised = read_required::<bool>(
                    fields,
                    "IsSpecialised",
                    "is_specialised",
                )?;
                let job_id = read_optional::<u32>(fields, "JobID", "job_id")?;
                let level = read_required::<u32>(fields, "Level", "level")?;
                let name = read_required::<String>(fields, "Name", "name")?;
                let unlocked_state = read_required::<ClassUnlockedState>(
                    fields,
                    "UnlockedState",
                    "unlocked_state",
                )?;
                Ok(
                    Class {
                        class_id,
                        exp_level,
                        exp_level_max,
                        exp_level_togo,
                        is_specialised,
                        job_id,
                        level,
                        name,
                        unlocked_state,
                    },
                )
            },
        }
    }

    fn to_json(&self) -> (doc: Json) {
        let mut fields = no_fields();
        put(&mut fields, "ClassID", self.class_id.to_json());
        put(&mut fields, "ExpLevel", self.exp_level.to_json());
        put(&mut fields, "ExpLevelMax", self.exp_level_max.to_json());
        put(&mut fields, "ExpLevelTogo", self.exp_level_togo.to_json());
        put(&mut fields, "IsSpecialised", self.is_specialised.to_json());
        put(&mut fields, "JobID", write_optional(&self.job_id));
        put(&mut fields, "Level", self.level.to_json());
        put(&mut fields, "Name", self.name.to_json());
        put(&mut fields, "UnlockedState", self.unlocked_state.to_json());
        Json::object(fields)
    }

    proof fn lemma_round_trip(value: ClassView) {
        // The names differ from one another in their length or in one of the
        // characters stated here.
        reveal_strlit("ClassID");
        reveal_strlit("ExpLevel");
        reveal_strlit("ExpLevelMax");
        reveal_strlit("ExpLevelTogo");
        reveal_strlit("IsSpecialised");
        reveal_strlit("JobID");
        reveal_strlit("Level");
        reveal_strlit("Name");
        reveal_strlit("UnlockedState");
        assert("ClassID"@.len() == 7);
        assert("ExpLevel"@.len() == 8);
        assert("ExpLevelMax"@.len() == 11);
        assert("ExpLevelTogo"@.len() == 12);
        assert("IsSpecialised"@.len() == 13 && "IsSpecialised"@[0] == 'I');
        assert("JobID"@.len() == 5 && "JobID"@[0] == 'J');
        assert("Level"@.len() == 5 && "Level"@[0] == 'L');
        assert("Name"@.len() == 4);
        assert("UnlockedState"@.len() == 13 && "UnlockedState"@[0] == 'U');
        reveal_with_fuel(lookup_from, 10);
        let fields = Self::encoded(value)->Object_0;
        lemma_required_round_trip::<u32>(fields, "ClassID"@, "class_id"@, value.class_id);
        lemma_required_round_trip::<u32>(fields, "ExpLevel"@, "exp_level"@, value.exp_level);
        lemma_required_round_trip::<u32>(
            fields,
            "ExpLevelMax"@,
            "exp_level_max"@,
            value.exp_level_max,
        );
        lemma_required_round_trip::<u32>(
            fields,
            "ExpLevelTogo"@,
            "exp_level_togo"@,
            value.exp_level_togo,
        );
        lemma_required_round_trip::<bool>(
            fields,
            "IsSpecialised"@,
            "is_specialised"@,
            value.is_specialised,
        );
        lemma_optional_round_trip::<u32>(fields, "JobID"@, "job_id"@, value.job_id);
        lemma_required_round_trip::<u32>(fields, "Level"@, "level"@, value.level);
        lemma_required_round_trip::<String>(fields, "Name"@, "name"@, value.name);
        lemma_required_round_trip::<ClassUnlockedState>(
            fields,
            "UnlockedState"@,
            "unlocked_state"@,
            value.unlocked_state,
        );
    }
}

impl Class {
    /// Where a document decodes, an optional member that it leaves out is
    /// absent in the value.
    pub proof fn lemma_absent_members(fields: Seq<(Seq<char>, JsonModel)>)
        requires
            Self::decoded(JsonModel::Object(fields)) is Ok,
        ensures
            lookup(fields, "JobID"@) is None ==> Self::decoded(
                JsonModel::Object(fields),
            )->Ok_0.job_id is None,
    {
    }
}

/// Whether a class is unlocked and, if so, whether as the class or as its job.
#[derive(Debug, Clone, PartialEq, Eq)]
pub struct ClassUnlockedState {
    /// The id of the state; absent where the class is locked.
    pub id: Option<u32>,
    /// The name of the state.
    pub name: String,
}

/// The mathematical value of a [`ClassUnlockedState`].
pub struct ClassUnlockedStateView {
    pub id: Option<u32>,
    pub name: Seq<char>,
}

impl DeepView for ClassUnlockedState {
    type V = ClassUnlockedStateView;

    open spec fn deep_view(&self) -> ClassUnlockedStateView {
        ClassUnlockedStateView {
            id: self.id.deep_view(),
            name: self.name.deep_view(),
        }
    }
}

impl Wire for ClassUnlockedState {
    open spec fn decoded(doc: JsonModel) -> Result<ClassUnlockedStateView, Seq<char>> {
        match doc {
            JsonModel::Object(fields) => {
                let id = optional::<u32>(fields, "ID"@, "id"@);
                let name = required::<String>(fields, "Name"@, "name"@);
                if id is Err {
                    Err(id->Err_0)
                } else if name is Err {
                    Err(name->Err_0)
                } else {
                    Ok(
                        ClassUnlockedStateView {
                            id: id->Ok_0,
                            name: name->Ok_0,
                        },
                    )
                }
            },
            _ => Err(Seq::empty()),
        }
    }

    open spec fn encoded(value: ClassUnlockedStateView) -> JsonModel {
        JsonModel::Object(
            Seq::empty()
                .push(("ID"@, encoded_optional::<u32>(value.id)))
                .push(("Name"@, String::encoded(value.name))),
        )
    }

    fn from_json(doc: &Json) -> (r: Result<ClassUnlockedState, String>) {
        match doc.as_object() {
            None => Err(String::new()),
            Some(fields) => {
                let id = read_optional::<u32>(fields, "ID", "id")?;
                let name = read_required::<String>(fields, "Name", "name")?;
                Ok(
                    ClassUnlockedState {
                        id,
                        name,
                    },
                )
            },
        }
    }

    fn to_json(&self) -> (doc: Json) {
        let mut fields = no_fields();
        put(&mut fields, "ID", write_optional(&self.id));
        put(&mut fields, "Name", self.name.to_json());
        Json::object(fields)
    }

    proof fn lemma_round_trip(value: ClassUnlockedStateView) {
        // The names differ from one another in their length or in one of the
        // characters stated here.
        reveal_strlit("ID");
        reveal_strlit("Name");
        assert("ID"@.len() == 2);
        assert("Name"@.len() == 4);
        reveal_with_fuel(lookup_from, 3);
        let fields = Self::encoded(value)->Object_0;
        lemma_optional_round_trip::<u32>(fields, "ID"@, "id"@, value.id);
        lemma_required_round_trip::<String>(fields, "Name"@, "name"@, value.name);
    }
}

impl ClassUnlockedState {
    /// Where a document decodes, an optional member that it leaves out is
    /// absent in the value.
    pub proof fn lemma_absent_members(fields: Seq<(Seq<char>, JsonModel)>)
        requires
            Self::decoded(JsonModel::Object(fields)) is Ok,
        ensures
            lookup(fields, "ID"@) is None ==> Self::decoded(
                JsonModel::Object(fields),
            )->Ok_0.id is None,
    {
    }
}

/// The progress of a character in the Bozjan content.
#[derive(Debug, Clone, PartialEq, Eq)]
pub struct ClassBozjan {
    /// The level reached; absent where the character has not entered the
    /// content.
    pub level: Option<u32>,
    /// The mettle gathered; absent where the character has not entered the
    /// content.
    pub mettle: Option<u32>,
    /// The name of the progression.
    pub name: String,
}

/// The mathematical value of a [`ClassBozjan`].
pub struct ClassBozjanView {
    pub level: Option<u32>,
    pub mettle: Option<u32>,
    pub name: Seq<char>,
}

impl DeepView for ClassBozjan {
    type V = ClassBozjanView;

    open spec fn deep_view(&self) -> ClassBozjanView {
        ClassBozjanView {
            level: self.level.deep_view(),
            mettle: self.mettle.deep_view(),
            name: self.name.deep_view(),
        }
    }
}

impl Wire for ClassBozjan {
    open spec fn decoded(doc: JsonModel) -> Result<ClassBozjanView, Seq<char>> {
        match doc {
            JsonModel::Object(fields) => {
                let level = optional::<u32>(fields, "Level"@, "level"@);
                let mettle = optional::<u32>(fields, "Mettle"@, "mettle"@);
                let name = required::<String>(fields, "Name"@, "name"@);
                if level is Err {
                    Err(level->Err_0)
                } else if mettle is Err {
                    Err(mettle->Err_0)
                } else if name is Err {
                    Err(name->Err_0)
                } else {
                    Ok(
                        ClassBozjanView {
                            level: level->Ok_0,
                            mettle: mettle->Ok_0,
                            name: name->Ok_0,
                        },
                    )
                }
            },
            _ => Err(Seq::empty()),
        }
    }

    open spec fn encoded(value: ClassBozjanView) -> JsonModel {
        JsonModel::Object(
            Seq::empty()
                .push(("Level"@, encoded_optional::<u32>(value.level)))
                .push(("Mettle"@, encoded_optional::<u32>(value.mettle)))
                .push(("Name"@, String::encoded(value.name))),
        )
    }

    fn from_json(doc: &Json) -> (r: Result<ClassBozjan, String>) {
        match doc.as_object() {
            None => Err(String::new()),
            Some(fields) => {
                let level = read_optional::<u32>(fields, "Level", "level")?;
                let mettle = read_optional::<u32>(fields, "Mettle", "mettle")?;
                let name = read_required::<String>(fields, "Name", "name")?;
                Ok(
                    ClassBozjan {
                        level,
                        mettle,
                        name,
                    },
                )
            },
        }
    }

    fn to_json(&self) -> (doc: Json) {
        let mut fields = no_fields();
        put(&mut fields, "Level", write_optional(&self.level));
        put(&mut fields, "Mettle", write_optional(&self.mettle));
        put(&mut fields, "Name", self.name.to_json());
        Json::object(fields)
    }

    proof fn lemma_round_trip(value: ClassBozjanView) {
        // The names differ from one another in their length or in one of the
        // characters stated here.
        reveal_strlit("Level");
        reveal_strlit("Mettle");
        reveal_strlit("Name");
        assert("Level"@.len() == 5);
        assert("Mettle"@.len() == 6);
        assert("Name"@.len() == 4);
        reveal_with_fuel(lookup_from, 4);
        let fields = Self::encoded(value)->Object_0;
        lemma_optional_round_trip::<u32>(fields, "Level"@, "level"@, value.level);
        lemma_optional_round_trip::<u32>(fields, "Mettle"@, "mettle"@, value.mettle);
        lemma_required_round_trip::<String>(fields, "Name"@, "name"@, value.name);
    }
}

impl ClassBozjan {
    /// Where a document decodes, an optional member that it leaves out is
    /// absent in the value.
    pub proof fn lemma_absent_members(fields: Seq<(Seq<char>, JsonModel)>)
        requires
            Self::decoded(JsonModel::Object(fields)) is Ok,
        ensures
            lookup(fields, "Level"@) is None ==> Self::decoded(
                JsonModel::Object(fields),
            )->Ok_0.level is None,
            lookup(fields, "Mettle"@) is None ==> Self::decoded(
                JsonModel::Object(fields),
            )->Ok_0.mettle is None,
    {
    }
}

/// The progress of a character in the Elemental content.
#[derive(Debug, Clone, PartialEq, Eq)]
pub struct ClassElemental {
    /// The experience gained on the current level; absent where the character
    /// has not entered the content.
    pub exp_level: Option<u32>,
    /// The experience the current level takes in all; absent where the
    /// character has not entered the content.
    pub exp_level_max: Option<u32>,
    /// The experience still missing for the next level; absent where the
    /// character has not entered the content.
    pub exp_level_togo: Option<u32>,
    /// The level reached.
    pub level: u32,
    /// The name of the progression.
    pub name: String,
}

/// The mathematical value of a [`ClassElemental`].
pub struct ClassElementalView {
    pub exp_level: Option<u32>,
    pub exp_level_max: Option<u32>,
    pub exp_level_togo: Option<u32>,
    pub level: u32,
    pub name: Seq<char>,
}

impl DeepView for ClassElemental {
    type V = ClassElementalView;

    open spec fn deep_view(&self) -> ClassElementalView {
        ClassElementalView {
            exp_level: self.exp_level.deep_view(),
            exp_level_max: self.exp_level_max.deep_view(),
            exp_level_togo: self.exp_level_togo.deep_view(),
            level: self.level.deep_view(),
            name: self.name.deep_view(),
        }
    }
}

impl Wire for ClassElemental {
    open spec fn decoded(doc: JsonModel) -> Result<ClassElementalView, Seq<char>> {
        match doc {
            JsonModel::Object(fields) => {
                let exp_level = optional::<u32>(fields, "ExpLevel"@, "exp_level"@);
                let exp_level_max = optional::<u32>(fields, "ExpLevelMax"@, "exp_level_max"@);
                let exp_level_togo = optional::<u32>(fields, "ExpLevelTogo"@, "exp_level_togo"@);
                let level = required::<u32>(fields, "Level"@, "level"@);
                let name = required::<String>(fields, "Name"@, "name"@);
                if exp_level is Err {
                    Err(exp_level->Err_0)
                } else if exp_level_max is Err {
                    Err(exp_level_max->Err_0)
                } else if exp_level_togo is Err {
                    Err(exp_level_togo->Err_0)
                } else if level is Err {
                    Err(level->Err_0)
                } else if name is Err {
                    Err(name->Err_0)
                } else {
                    Ok(
                        ClassElementalView {
                            exp_level: exp_level->Ok_0,
                            exp_level_max: exp_level_max->Ok_0,
                            exp_level_togo: exp_level_togo->Ok_0,
                            level: level->Ok_0,
                            name: name->Ok_0,
                        },
                    )
                }
            },
            _ => Err(Seq::empty()),
        }
    }

    open spec fn encoded(value: ClassElementalView) -> JsonModel {
        JsonModel::Object(
            Seq::empty()
                .push(("ExpLevel"@, encoded_optional::<u32>(value.exp_level)))
                .push(("ExpLevelMax"@, encoded_optional::<u32>(value.exp_level_max)))
                .push(("ExpLevelTogo"@, encoded_optional::<u32>(value.exp_level_togo)))
                .push(("Level"@, u32::encoded(value.level)))
                .push(("Name"@, String::encoded(value.name))),
        )
    }

    fn from_json(doc: &Json) -> (r: Result<ClassElemental, String>) {
        match doc.as_object() {
            None => Err(String::new()),
            Some(fields) => {
                let exp_level = read_optional::<u32>(fields, "ExpLevel", "exp_level")?;
                let exp_level_max = read_optional::<u32>(fields, "ExpLevelMax", "exp_level_max")?;
                let exp_level_togo = read_optional::<u32>(
                    fields,
                    "ExpLevelTogo",
                    "exp_level_togo",
                )?;
                let level = read_required::<u32>(fields, "Level", "level")?;
                let name = read_required::<String>(fields, "Name", "name")?;
                Ok(
                    ClassElemental {
                        exp_level,
                        exp_level_max,
                        exp_level_togo,
                        level,
                        name,
                    },
                )
            },
        }
    }

    fn to_json(&self) -> (doc: Json) {
        let mut fields = no_fields();
        put(&mut fields, "ExpLevel", write_optional(&self.exp_level));
        put(&mut fields, "ExpLevelMax", write_optional(&self.exp_level_max));
        put(&mut fields, "ExpLevelTogo", write_optional(&self.exp_level_togo));
        put(&mut fields, "Level", self.level.to_json());
        put(&mut fields, "Name", self.name.to_json());
        Json::object(fields)
    }

    proof fn lemma_round_trip(value: ClassElementalView) {
        // The names differ from one another in their length or in one of the
        // characters stated here.
        reveal_strlit("ExpLevel");
        reveal_strlit("ExpLevelMax");
        reveal_strlit("ExpLevelTogo");
        reveal_strlit("Level");
        reveal_strlit("Name");
        assert("ExpLevel"@.len() == 8);
        assert("ExpLevelMax"@.len() == 11);
        assert("ExpLevelTogo"@.len() == 12);
        assert("Level"@.len() == 5);
        assert("Name"@.len() == 4);
        reveal_with_fuel(lookup_from, 6);
        let fields = Self::encoded(value)->Object_0;
        lemma_optional_round_trip::<u32>(fields, "ExpLevel"@, "exp_level"@, value.exp_level);
        lemma_optional_round_trip::<u32>(
            fields,
            "ExpLevelMax"@,
            "exp_level_max"@,
            value.exp_level_max,
        );
        lemma_optional_round_trip::<u32>(
            fields,
            "ExpLevelTogo"@,
            "exp_level_togo"@,
            value.exp_level_togo,
        );
        lemma_required_round_trip::<u32>(fields, "Level"@, "level"@, value.level);
        lemma_required_round_trip::<String>(fields, "Name"@, "name"@, value.name);
    }
}

impl ClassElemental {
    /// Where a document decodes, an optional member that it leaves out is
    /// absent in the value.
    pub proof fn lemma_absent_members(fields: Seq<(Seq<char>, JsonModel)>)
        requires
            Self::decoded(JsonModel::Object(fields)) is Ok,
        ensures
            lookup(fields, "ExpLevel"@) is None ==> Self::decoded(
                JsonModel::Object(fields),
            )->Ok_0.exp_level is None,
            lookup(fields, "ExpLevelMax"@) is None ==> Self::decoded(
                JsonModel::Object(fields),
            )->Ok_0.exp_level_max is None,
            lookup(fields, "ExpLevelTogo"@) is None ==> Self::decoded(
                JsonModel::Object(fields),
            )->Ok_0.exp_level_togo is None,
    {
    }
}

} // verus!
