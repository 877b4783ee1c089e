//! The gear a character wears.

use crate::json::{lookup, lookup_from, no_fields, put, Json, JsonModel};
use crate::wire::{
    encoded_optional, lemma_optional_round_trip, lemma_required_round_trip, optional,
    read_optional, read_required, required, write_optional, Wire,
};
use std::collections::HashMap;
use vstd::prelude::*;

verus! {

/// What a character wears, with the attributes that result from it.
#[derive(Debug, Clone, PartialEq, Eq)]
pub struct GearSet {
    /// The total of each attribute, by the id of the attribute.
    pub attributes: HashMap<u32, u32>,
    /// The id of the class the set is worn in.
    pub class_id: u32,
    /// The pieces, slot by slot.
    pub gear: Gear,
    /// The key that identifies this snapshot of the set.
    pub gear_key: String,
    /// The id of the job the set is worn in.
    pub job_id: u32,
    /// The level of the character in that class.
    pub level: u32,
}

/// The mathematical value of a [`GearSet`].
pub struct GearSetView {
    pub attributes: Map<u32, u32>,
    pub class_id: u32,
    pub gear: GearView,
    pub gear_key: Seq<char>,
    pub job_id: u32,
    pub level: u32,
}

impl DeepView for GearSet {
    type V = GearSetView;

    open spec fn deep_view(&self) -> GearSetView {
        GearSetView {
            attributes: self.attributes.deep_view(),
            class_id: self.class_id.deep_view(),
            gear: self.gear.deep_view(),
            gear_key: self.gear_key.deep_view(),
            job_id: self.job_id.deep_view(),
            level: self.level.deep_view(),
        }
    }
}

impl Wire for GearSet {
    open spec fn decoded(doc: JsonModel) -> Result<GearSetView, Seq<char>> {
        match doc {
            JsonModel::Object(fields) => {
                let attributes = required::<HashMap<u32, u32>>(
                    fields,
                    "Attributes"@,
                    "attributes"@,
                );
                let class_id = required::<u32>(fields, "ClassID"@, "class_id"@);
                let gear = required::<Gear>(fields, "Gear"@, "gear"@);
                let gear_key = required::<String>(fields, "GearKey"@, "gear_key"@);
                let job_id = required::<u32>(fields, "JobID"@, "job_id"@);
                let level = required::<u32>(fields, "Level"@, "level"@);
                if attributes is Err {
                    Err(attributes->Err_0)
                } else if class_id is Err {
                    Err(class_id->Err_0)
                } else if gear is Err {
                    Err(gear->Err_0)
                } else if gear_key is Err {
                    Err(gear_key->Err_0)
                } else if job_id is Err {
                    Err(job_id->Err_0)
                } else if level is Err {
                    Err(level->Err_0)
                } else {
                    Ok(
                        GearSetView {
                            attributes: attributes->Ok_0,
                            class_id: class_id->Ok_0,
                            gear: gear->Ok_0,
                            gear_key: gear_key->Ok_0,
                            job_id: job_id->Ok_0,
                            level: level->Ok_0,
                        },
                    )
                }
            },
            _ => Err(Seq::empty()),
        }
    }

    open spec fn encoded(value: GearSetView) -> JsonModel {
        JsonModel::Object(
            Seq::empty()
                .push(("Attributes"@, HashMap::<u32, u32>::encoded(value.attributes)))
                .push(("ClassID"@, u32::encoded(value.class_id)))
                .push(("Gear"@, Gear::encoded(value.gear)))
                .push(("GearKey"@, String::encoded(value.gear_key)))
                .push(("JobID"@, u32::encoded(value.job_id)))
                .push(("Level"@, u32::encoded(value.level))),
        )
    }

    fn from_json(doc: &Json) -> (r: Result<GearSet, String>) {
        match doc.as_object() {
            None => Err(String::new()),
            Some(fields) => {
                let attributes = read_required::<HashMap<u32, u32>>(
                    fields,
                    "Attributes",
                    "attributes",
                )?;
                let class_id = read_required::<u32>(fields, "ClassID", "class_id")?;
                let gear = read_required::<Gear>(fields, "Gear", "gear")?;
                let gear_key = read_required::<String>(fields, "GearKey", "gear_key")?;
                let job_id = read_required::<u32>(fields, "JobID", "job_id")?;
                let level = read_required::<u32>(fields, "Level", "level")?;
                Ok(
                    GearSet {
                        attributes,
                        class_id,
                        gear,
                        gear_key,
                        job_id,
                        level,
                    },
                )
            },
        }
    }

    fn to_json(&self) -> (doc: Json) {
        let mut fields = no_fields();
        put(&mut fields, "Attributes", self.attributes.to_json());
        put(&mut fields, "ClassID", self.class_id.to_json());
        put(&mut fields, "Gear", self.gear.to_json());
        put(&mut fields, "GearKey", self.gear_key.to_json());
        put(&mut fields, "JobID", self.job_id.to_json());
        put(&mut fields, "Level", self.level.to_json());
        Json::object(fields)
    }

    proof fn lemma_round_trip(value: GearSetView) {
        // The names differ from one another in their length or in one of the
        // characters stated here.
        reveal_strlit("Attributes");
        reveal_strlit("ClassID");
        reveal_strlit("Gear");
        reveal_strlit("GearKey");
        reveal_strlit("JobID");
        reveal_strlit("Level");
        assert("Attributes"@.len() == 10);
        assert("ClassID"@.len() == 7 && "ClassID"@[0] == 'C');
        assert("Gear"@.len() == 4);
        assert("GearKey"@.len() == 7 && "GearKey"@[0] == 'G');
        assert("JobID"@.len() == 5 && "JobID"@[0] == 'J');
        assert("Level"@.len() == 5 && "Level"@[0] == 'L');
        reveal_with_fuel(lookup_from, 7);
        let fields = Self::encoded(value)->Object_0;
        lemma_required_round_trip::<HashMap<u32, u32>>(
            fields,
            "Attributes"@,
            "attributes"@,
            value.attributes,
        );
        lemma_required_round_trip::<u32>(fields, "ClassID"@, "class_id"@, value.class_id);
        lemma_required_round_trip::<Gear>(fields, "Gear"@, "gear"@, value.gear);
        lemma_required_round_trip::<String>(fields, "GearKey"@, "gear_key"@, value.gear_key);
        lemma_required_round_trip::<u32>(fields, "JobID"@, "job_id"@, value.job_id);
        lemma_required_round_trip::<u32>(fields, "Level"@, "level"@, value.level);
    }
}

/// The twelve equipment slots. An empty slot is absent.
#[derive(Debug, Clone, PartialEq, Eq)]
pub struct Gear {
    /// The piece in the body slot.
    pub body: Option<GearPiece>,
    /// The piece in the bracelets slot.
    pub bracelets: Option<GearPiece>,
    /// The piece in the earrings slot.
    pub earrings: Option<GearPiece>,
    /// The piece in the feet slot.
    pub feet: Option<GearPiece>,
    /// The piece in the hands slot.
    pub hands: Option<GearPiece>,
    /// The piece in the head slot.
    pub head: Option<GearPiece>,
    /// The piece in the legs slot.
    pub legs: Option<GearPiece>,
    /// The piece in the main hand slot.
    pub main_hand: Option<GearPiece>,
    /// The piece in the necklace slot.
    pub necklace: Option<GearPiece>,
    /// The piece in the off hand slot.
    pub off_hand: Option<GearPiece>,
    /// The piece in the first ring slot.
    pub ring1: Option<GearPiece>,
    /// The piece in the second ring slot.
    pub ring2: Option<GearPiece>,
}

/// The mathematical value of a [`Gear`].
pub struct GearView {
    pub body: Option<GearPieceView>,
    pub bracelets: Option<GearPieceView>,
    pub earrings: Option<GearPieceView>,
    pub feet: Option<GearPieceView>,
    pub hands: Option<GearPieceView>,
    pub head: Option<GearPieceView>,
    pub legs: Option<GearPieceView>,
    pub main_hand: Option<GearPieceView>,
    pub necklace: Option<GearPieceView>,
    pub off_hand: Option<GearPieceView>,
    pub ring1: Option<GearPieceView>,
    pub ring2: Option<GearPieceView>,
}

impl DeepView for Gear {
    type V = GearView;

    open spec fn deep_view(&self) -> GearView {
        GearView {
            body: self.body.deep_view(),
            bracelets: self.bracelets.deep_view(),
            earrings: self.earrings.deep_view(),
            feet: self.feet.deep_view(),
            hands: self.hands.deep_view(),
            head: self.head.deep_view(),
            legs: self.legs.deep_view(),
            main_hand: self.main_hand.deep_view(),
            necklace: self.necklace.deep_view(),
            off_hand: self.off_hand.deep_view(),
            ring1: self.ring1.deep_view(),
            ring2: self.ring2.deep_view(),
        }
    }
}

impl Wire for Gear {
    open spec fn decoded(doc: JsonModel) -> Result<GearView, Seq<char>> {
        match doc {
            JsonModel::Object(fields) => {
                let body = optional::<GearPiece>(fields, "Body"@, "body"@);
                let bracelets = optional::<GearPiece>(fields, "Bracelets"@, "bracelets"@);
                let earrings = optional::<GearPiece>(fields, "Earrings"@, "earrings"@);
                let feet = optional::<GearPiece>(fields, "Feet"@, "feet"@);
                let hands = optional::<GearPiece>(fields, "Hands"@, "hands"@);
                let head = optional::<GearPiece>(fields, "Head"@, "head"@);
                let legs = optional::<GearPiece>(fields, "Legs"@, "legs"@);
                let main_hand = optional::<GearPiece>(fields, "MainHand"@, "main_hand"@);
                let necklace = optional::<GearPiece>(fields, "Necklace"@, "necklace"@);
                let off_hand = optional::<GearPiece>(fields, "OffHand"@, "off_hand"@);
                let ring1 = optional::<GearPiece>(fields, "Ring1"@, "ring1"@);
                let ring2 = optional::<GearPiece>(fields, "Ring2"@, "ring2"@);
                if body is Err {
                    Err(body->Err_0)
                } else if bracelets is Err {
                    Err(bracelets->Err_0)
                } else if earrings is Err {
                    Err(earrings->Err_0)
                } else if feet is Err {
                    Err(feet->Err_0)
                } else if hands is Err {
                    Err(hands->Err_0)
                } else if head is Err {
                    Err(head->Err_0)
                } else if legs is Err {
                    Err(legs->Err_0)
                } else if main_hand is Err {
                    Err(main_hand->Err_0)
                } else if necklace is Err {
                    Err(necklace->Err_0)
                } else if off_hand is Err {
                    Err(off_hand->Err_0)
                } else if ring1 is Err {
                    Err(ring1->Err_0)
                } else if ring2 is Err {
                    Err(ring2->Err_0)
                } else {
                    Ok(
                        GearView {
                            body: body->Ok_0,
                            bracelets: bracelets->Ok_0,
                            earrings: earrings->Ok_0,
                            feet: feet->Ok_0,
                            hands: hands->Ok_0,
                            head: head->Ok_0,
                            legs: legs->Ok_0,
                            main_hand: main_hand->Ok_0,
                            necklace: necklace->Ok_0,
                            off_hand: off_hand->Ok_0,
                            ring1: ring1->Ok_0,
                            ring2: ring2->Ok_0,
                        },
                    )
                }
            },
            _ => Err(Seq::empty()),
        }
    }

    open spec fn encoded(value: GearView) -> JsonModel {
        JsonModel::Object(
            Seq::empty()
                .push(("Body"@, encoded_optional::<GearPiece>(value.body)))
                .push(("Bracelets"@, encoded_optional::<GearPiece>(value.bracelets)))
                .push(("Earrings"@, encoded_optional::<GearPiece>(value.earrings)))
                .push(("Feet"@, encoded_optional::<GearPiece>(value.feet)))
                .push(("Hands"@, encoded_optional::<GearPiece>(value.hands)))
                .push(("Head"@, encoded_optional::<GearPiece>(value.head)))
                .push(("Legs"@, encoded_optional::<GearPiece>(value.legs)))
                .push(("MainHand"@, encoded_optional::<GearPiece>(value.main_hand)))
                .push(("Necklace"@, encoded_optional::<GearPiece>(value.necklace)))
                .push(("OffHand"@, encoded_optional::<GearPiece>(value.off_hand)))
                .push(("Ring1"@, encoded_optional::<GearPiece>(value.ring1)))
                .push(("Ring2"@, encoded_optional::<GearPiece>(value.ring2))),
        )
    }

    fn from_json(doc: &Json) -> (r: Result<Gear, String>) {
        match doc.as_object() {
            None => Err(String::new()),
            Some(fields) => {
                let body = read_optional::<GearPiece>(fields, "Body", "body")?;
                let bracelets = read_optional::<GearPiece>(fields, "Bracelets", "bracelets")?;
                let earrings = read_optional::<GearPiece>(fields, "Earrings", "earrings")?;
                let feet = read_optional::<GearPiece>(fields, "Feet", "feet")?;
                let hands = read_optional::<GearPiece>(fields, "Hands", "hands")?;
                let head = read_optional::<GearPiece>(fields, "Head", "head")?;
                let legs = read_optional::<GearPiece>(fields, "Legs", "legs")?;
                let main_hand = read_optional::<GearPiece>(fields, "MainHand", "main_hand")?;
                let necklace = read_optional::<GearPiece>(fields, "Necklace", "necklace")?;
                let off_hand = read_optional::<GearPiece>(fields, "OffHand", "off_hand")?;
                let ring1 = read_optional::<GearPiece>(fields, "Ring1", "ring1")?;
                let ring2 = read_optional::<GearPiece>(fields, "Ring2", "ring2")?;
                Ok(
                    Gear {
                        body,
                        bracelets,
                        earrings,
                        feet,
                        hands,
                        head,
                        legs,
                        main_hand,
                        necklace,
                        off_hand,
                        ring1,
                        ring2,
                    },
                )
            },
        }
    }

    fn to_json(&self) -> (doc: Json) {
        let mut fields = no_fields();
        put(&mut fields, "Body", write_optional(&self.body));
        put(&mut fields, "Bracelets", write_optional(&self.bracelets));
        put(&mut fields, "Earrings", write_optional(&self.earrings));
        put(&mut fields, "Feet", write_optional(&self.feet));
        put(&mut fields, "Hands", write_optional(&self.hands));
        put(&mut fields, "Head", write_optional(&self.head));
        put(&mut fields, "Legs", write_optional(&self.legs));
        put(&mut fields, "MainHand", write_optional(&self.main_hand));
        put(&mut fields, "Necklace", write_optional(&self.necklace));
        put(&mut fields, "OffHand", write_optional(&self.off_hand));
        put(&mut fields, "Ring1", write_optional(&self.ring1));
        put(&mut fields, "Ring2", write_optional(&self.ring2));
        Json::object(fields)
    }

    proof fn lemma_round_trip(value: GearView) {
        // The names differ from one another in their length or in one of the
        // characters stated here.
        reveal_strlit("Body");
        reveal_strlit("Bracelets");
        reveal_strlit("Earrings");
        reveal_strlit("Feet");
        reveal_strlit("Hands");
        reveal_strlit("Head");
        reveal_strlit("Legs");
        reveal_strlit("MainHand");
        reveal_strlit("Necklace");
        reveal_strlit("OffHand");
        reveal_strlit("Ring1");
        reveal_strlit("Ring2");
        assert("Body"@.len() == 4 && "Body"@[0] == 'B');
        assert("Bracelets"@.len() == 9);
        assert("Earrings"@.len() == 8 && "Earrings"@[0] == 'E');
        assert("Feet"@.len() == 4 && "Feet"@[0] == 'F');
        assert("Hands"@.len() == 5 && "Hands"@[0] == 'H');
        assert("Head"@.len() == 4 && "Head"@[0] == 'H');
        assert("Legs"@.len() == 4 && "Legs"@[0] == 'L');
        assert("MainHand"@.len() == 8 && "MainHand"@[0] == 'M');
        assert("Necklace"@.len() == 8 && "Necklace"@[0] == 'N');
        assert("OffHand"@.len() == 7);
        assert("Ring1"@.len() == 5 && "Ring1"@[0] == 'R' && "Ring1"@[4] == '1');
        assert("Ring2"@.len() == 5 && "Ring2"@[0] == 'R' && "Ring2"@[4] == '2');
        reveal_with_fuel(lookup_from, 13);
        let fields = Self::encoded(value)->Object_0;
        lemma_optional_round_trip::<GearPiece>(fields, "Body"@, "body"@, value.body);
        lemma_optional_round_trip::<GearPiece>(fields, "Bracelets"@, "bracelets"@, value.bracelets);
        lemma_optional_round_trip::<GearPiece>(fields, "Earrings"@, "earrings"@, value.earrings);
        lemma_optional_round_trip::<GearPiece>(fields, "Feet"@, "feet"@, value.feet);
        lemma_optional_round_trip::<GearPiece>(fields, "Hands"@, "hands"@, value.hands);
        lemma_optional_round_trip::<GearPiece>(fields, "Head"@, "head"@, value.head);
        lemma_optional_round_trip::<GearPiece>(fields, "Legs"@, "legs"@, value.legs);
        lemma_optional_round_trip::<GearPiece>(fields, "MainHand"@, "main_hand"@, value.main_hand);
        lemma_optional_round_trip::<GearPiece>(fields, "Necklace"@, "necklace"@, value.necklace);
        lemma_optional_round_trip::<GearPiece>(fields, "OffHand"@, "off_hand"@, value.off_hand);
        lemma_optional_round_trip::<GearPiece>(fields, "Ring1"@, "ring1"@, value.ring1);
        lemma_optional_round_trip::<GearPiece>(fields, "Ring2"@, "ring2"@, value.ring2);
    }
}

impl Gear {
    /// Where a document decodes, an optional member that it leaves out is
    /// absent in the value.
    pub proof fn lemma_absent_members(fields: Seq<(Seq<char>, JsonModel)>)
        requires
            Self::decoded(JsonModel::Object(fields)) is Ok,
        ensures
            lookup(fields, "Body"@) is None ==> Self::decoded(
                JsonModel::Object(fields),
            )->Ok_0.body is None,
            lookup(fields, "Bracelets"@) is None ==> Self::decoded(
                JsonModel::Object(fields),
            )->Ok_0.bracelets is None,
            lookup(fields, "Earrings"@) is None ==> Self::decoded(
                JsonModel::Object(fields),
            )->Ok_0.earrings is None,
            lookup(fields, "Feet"@) is None ==> Self::decoded(
                JsonModel::Object(fields),
            )->Ok_0.feet is None,
            lookup(fields, "Hands"@) is None ==> Self::decoded(
                JsonModel::Object(fields),
            )->Ok_0.hands is None,
            lookup(fields, "Head"@) is None ==> Self::decoded(
                JsonModel::Object(fields),
            )->Ok_0.head is None,
            lookup(fields, "Legs"@) is None ==> Self::decoded(
                JsonModel::Object(fields),
            )->Ok_0.legs is None,
            lookup(fields, "MainHand"@) is None ==> Self::decoded(
                JsonModel::Object(fields),
            )->Ok_0.main_hand is None,
            lookup(fields, "Necklace"@) is None ==> Self::decoded(
                JsonModel::Object(fields),
            )->Ok_0.necklace is None,
            lookup(fields, "OffHand"@) is None ==> Self::decoded(
                JsonModel::Object(fields),
            )->Ok_0.off_hand is None,
            lookup(fields, "Ring1"@) is None ==> Self::decoded(
                JsonModel::Object(fields),
            )->Ok_0.ring1 is None,
            lookup(fields, "Ring2"@) is None ==> Self::decoded(
                JsonModel::Object(fields),
            )->Ok_0.ring2 is None,
    {
    }
}

/// One equipped item.
#[derive(Debug, Clone, PartialEq, Eq)]
pub struct GearPiece {
    /// The signature of the crafter; absent on an item that nobody signed.
    pub creator: Option<String>,
    /// The id of the dye; absent on an undyed item.
    pub dye: Option<u32>,
    /// The id of the item.
    pub id: u32,
    /// The ids of the attached materia; empty where none is attached.
    pub materia: Vec<u32>,
    /// The id of the item whose looks this one takes; absent without such an
    /// override.
    pub mirage: Option<u32>,
}

/// The mathematical value of a [`GearPiece`].
pub struct GearPieceView {
    pub creator: Option<Seq<char>>,
    pub dye: Option<u32>,
    pub id: u32,
    pub materia: Seq<u32>,
    pub mirage: Option<u32>,
}

impl DeepView for GearPiece {
    type V = GearPieceView;

    open spec fn deep_view(&self) -> GearPieceView {
        GearPieceView {
            creator: self.creator.deep_view(),
            dye: self.dye.deep_view(),
            id: self.id.deep_view(),
            materia: self.materia.deep_view(),
            mirage: self.mirage.deep_view(),
        }
    }
}

impl Wire for GearPiece {
    open spec fn decoded(doc: JsonModel) -> Result<GearPieceView, Seq<char>> {
        match doc {
            JsonModel::Object(fields) => {
                let creator = optional::<String>(fields, "Creator"@, "creator"@);
                let dye = optional::<u32>(fields, "Dye"@, "dye"@);
                let id = required::<u32>(fields, "ID"@, "id"@);
                let materia = required::<Vec<u32>>(fields, "Materia"@, "materia"@);
                let mirage = optional::<u32>(fields, "Mirage"@, "mirage"@);
                if creator is Err {
                    Err(creator->Err_0)
                } else if dye is Err {
                    Err(dye->Err_0)
                } else if id is Err {
                    Err(id->Err_0)
                } else if materia is Err {
                    Err(materia->Err_0)
                } else if mirage is Err {
                    Err(mirage->Err_0)
                } else {
                    Ok(
                        GearPieceView {
                            creator: creator->Ok_0,
                            dye: dye->Ok_0,
                            id: id->Ok_0,
                            materia: materia->Ok_0,
                            mirage: mirage->Ok_0,
                        },
                    )
                }
            },
            _ => Err(Seq::empty()),
        }
    }

    open spec fn encoded(value: GearPieceView) -> JsonModel {
        JsonModel::Object(
            Seq::empty()
                .push(("Creator"@, encoded_optional::<String>(value.creator)))
                .push(("Dye"@, encoded_optional::<u32>(value.dye)))
                .push(("ID"@, u32::encoded(value.id)))
                .push(("Materia"@, Vec::<u32>::encoded(value.materia)))
                .push(("Mirage"@, encoded_optional::<u32>(value.mirage))),
        )
    }

    fn from_json(doc: &Json) -> (r: Result<GearPiece, String>) {
        match doc.as_object() {
            None => Err(String::new()),
            Some(fields) => {
                let creator = read_optional::<String>(fields, "Creator", "creator")?;
                let dye = read_optional::<u32>(fields, "Dye", "dye")?;
                let id = read_required::<u32>(fields, "ID", "id")?;
                let materia = read_required::<Vec<u32>>(fields, "Materia", "materia")?;
                let mirage = read_optional::<u32>(fields, "Mirage", "mirage")?;
                Ok(
                    GearPiece {
                        creator,
                        dye,
                        id,
                        materia,
                        mirage,
                    },
                )
            },
        }
    }

    fn to_json(&self) -> (doc: Json) {
        let mut fields = no_fields();
        put(&mut fields, "Creator", write_optional(&self.creator));
        put(&mut fields, "Dye", write_optional(&self.dye));
        put(&mut fields, "ID", self.id.to_json());
        put(&mut fields, "Materia", self.materia.to_json());
        put(&mut fields, "Mirage", write_optional(&self.mirage));
        Json::object(fields)
    }

    proof fn lemma_round_trip(value: GearPieceView) {
        // The names differ from one another in their length or in one of the
        // characters stated here.
        reveal_strlit("Creator");
        reveal_strlit("Dye");
        reveal_strlit("ID");
        reveal_strlit("Materia");
        reveal_strlit("Mirage");
        assert("Creator"@.len() == 7 && "Creator"@[0] == 'C');
        assert("Dye"@.len() == 3);
        assert("ID"@.len() == 2);
        assert("Materia"@.len() == 7 && "Materia"@[0] == 'M');
        assert("Mirage"@.len() == 6);
        reveal_with_fuel(lookup_from, 6);
        let fields = Self::encoded(value)->Object_0;
        lemma_optional_round_trip::<String>(fields, "Creator"@, "creator"@, value.creator);
        lemma_optional_round_trip::<u32>(fields, "Dye"@, "dye"@, value.dye);
        lemma_required_round_trip::<u32>(fields, "ID"@, "id"@, value.id);
        lemma_required_round_trip::<Vec<u32>>(fields, "Materia"@, "materia"@, value.materia);
        lemma_optional_round_trip::<u32>(fields, "Mirage"@, "mirage"@, value.mirage);
    }
}

impl GearPiece {
    /// Where a document decodes, an optional member that it leaves out is
    /// absent in the value.
    pub proof fn lemma_absent_members(fields: Seq<(Seq<char>, JsonModel)>)
        requires
            Self::decoded(JsonModel::Object(fields)) is Ok,
        ensures
            lookup(fields, "Creator"@) is None ==> Self::decoded(
                JsonModel::Object(fields),
            )->Ok_0.creator is None,
            lookup(fields, "Dye"@) is None ==> Self::decoded(
                JsonModel::Object(fields),
            )->Ok_0.dye is None,
            lookup(fields, "Mirage"@) is None ==> Self::decoded(
                JsonModel::Object(fields),
            )->Ok_0.mirage is None,
    {
    }
}

} // verus!
