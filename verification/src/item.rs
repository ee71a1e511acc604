//! The kinds of named definitions that scripts can refer to.

use vstd::prelude::*;

verus! {

/// A kind of named definition. Definitions of one kind share a namespace
/// and are looked up by name.
#[derive(Clone, Copy, Debug, PartialEq, Eq, Hash, Structural)]
pub enum Item {
    Amenity,
    Artifact,
    ArtifactCategory,
    ArtifactFeature,
    ArtifactFeatureGroup,
    ArtifactModifier,
    ArtifactRarity,
    ArtifactSlot,
    Building,
    BuildingFlag,
    BuildingGfx,
    CasusBelli,
    Catalyst,
    Character,
    ClothingGfx,
    CoaGfx,
    CouncilPosition,
    CouncilTask,
    CourtPosition,
    CourtPositionCategory,
    CourtType,
    Culture,
    CultureEra,
    CultureParameter,
    CulturePillar,
    CultureTradition,
    Decision,
    Doctrine,
    DoctrineParameter,
    Dynasty,
    DynastyLegacy,
    DynastyPerk,
    EducationFocus,
    Event,
    Faction,
    Faith,
    FaithIcon,
    File,
    GameConcept,
    Government,
    GraphicalFaith,
    Holding,
    HolySite,
    HolySiteFlag,
    Hook,
    House,
    Innovation,
    InnovationFlag,
    Inspiration,
    Interaction,
    InteractionCategory,
    Language,
    Law,
    Lifestyle,
    Localization,
    MenAtArms,
    MenAtArmsBase,
    Modifier,
    Music,
    NameList,
    Nickname,
    Perk,
    PrisonType,
    Province,
    Region,
    Relation,
    Religion,
    ReligiousFamily,
    Scheme,
    ScriptedEffect,
    ScriptedList,
    ScriptedTrigger,
    ScriptValue,
    Secret,
    Sexuality,
    Skill,
    SpecialBuilding,
    Story,
    Struggle,
    StrugglePhase,
    StrugglePhaseParameter,
    Terrain,
    Title,
    TitleHistory,
    TitleLaw,
    TitleLawFlag,
    Tradition,
    Trait,
    UnitGfx,
    VassalObligation,
    Area,
    CharacterTemplate,
}

impl Item {
    /// Where definitions of the kind are found, below the game directory.
    pub open spec fn spec_path(self) -> &'static str {
        match self {
            Item::Amenity => "common/court_amenities/",
            Item::Artifact => "common/artifacts/types",
            Item::ArtifactCategory => "common/artifacts/",
            Item::ArtifactFeature => "common/artifacts/features/",
            Item::ArtifactFeatureGroup => "common/artifacts/feature_groups/",
            Item::ArtifactModifier => "common/artifacts/",
            Item::ArtifactRarity => "common/artifacts/",
            Item::ArtifactSlot => "common/artifacts/",
            Item::Building => "common/buildings/",
            Item::BuildingFlag => "common/buildings/",
            Item::BuildingGfx => "common/culture/cultures/",
            Item::CasusBelli => "common/casus_belli_types",
            Item::Catalyst => "common/struggle/catalysts/",
            Item::Character => "history/characters/",
            Item::ClothingGfx => "common/culture/cultures/",
            Item::CoaGfx => "common/culture/cultures/",
            Item::CouncilPosition => "common/council_positions/",
            Item::CouncilTask => "common/council_tasks/",
            Item::CourtPosition => "common/court_positions/types/",
            Item::CourtPositionCategory => "common/court_positions/categories/",
            Item::CourtType => "common/court_types/",
            Item::Culture => "common/culture/cultures/",
            Item::CultureEra => "common/culture/eras/",
            Item::CultureParameter => "common/culture/cultures/",
            Item::CulturePillar => "common/culture/pillars/",
            Item::CultureTradition => "common/culture/traditions/",
            Item::Decision => "common/decisions/",
            Item::Doctrine => "common/religion/doctrines/",
            Item::DoctrineParameter => "common/religion/doctrines/",
            Item::Dynasty => "common/dynasties/",
            Item::DynastyLegacy => "common/dynasty_legacies/",
            Item::DynastyPerk => "common/dynasty_perks/",
            Item::EducationFocus => "common/focuses/",
            Item::Event => "events/",
            Item::Faction => "common/factions/",
            Item::Faith => "common/religion/religions/",
            Item::FaithIcon => "common/religion/religions/",
            Item::File => "",
            Item::GameConcept => "common/game_concepts/",
            Item::Government => "common/governments/",
            Item::GraphicalFaith => "common/religion/religions/",
            Item::Holding => "",
            Item::HolySite => "common/religion/holy_sites/",
            Item::HolySiteFlag => "common/religion/holy_sites/",
            Item::Hook => "common/hook_types/",
            Item::House => "common/dynasty_houses/",
            Item::Innovation => "common/culture/innovations/",
            Item::InnovationFlag => "common/culture/innovations/",
            Item::Inspiration => "common/inspirations/",
            Item::Interaction => "common/character_interactions/",
            Item::InteractionCategory => "common/character_interaction_categories/",
            Item::Language => "common/culture/pillars/",
            Item::Law => "common/laws/",
            Item::Lifestyle => "common/lifestyles/",
            Item::Localization => "localization/",
            Item::MenAtArms => "common/men_at_arms_types/",
            Item::MenAtArmsBase => "common/men_at_arms_types/",
            Item::Modifier => "common/modifiers/",
            Item::Music => "music/",
            Item::NameList => "common/culture/name_lists/",
            Item::Nickname => "common/nicknames/",
            Item::Perk => "common/lifestyle_perks/",
            Item::PrisonType => "",
            Item::Province => "map_data/definition.csv",
            Item::Region => "map_data/geographical_regions/",
            Item::Relation => "common/scripted_relations/",
            Item::Religion => "common/religion/religions/",
            Item::ReligiousFamily => "common/religion/religion_families/",
            Item::Scheme => "common/schemes/",
            Item::ScriptedEffect => "common/scripted_effects/",
            Item::ScriptedList => "common/scripted_lists/",
            Item::ScriptedTrigger => "common/scripted_triggers/",
            Item::ScriptValue => "common/script_values/",
            Item::Secret => "common/secret_types/",
            Item::Sexuality => "",
            Item::Skill => "",
            Item::SpecialBuilding => "common/buildings/",
            Item::Story => "common/story_cycle/",
            Item::Struggle => "common/struggle/struggles/",
            Item::StrugglePhase => "common/struggle/struggles/",
            Item::StrugglePhaseParameter => "common/struggle/struggles/",
            Item::Terrain => "common/terrain_types/",
            Item::Title => "common/landed_titles/",
            Item::TitleHistory => "history/titles/",
            Item::TitleLaw => "common/laws/",
            Item::TitleLawFlag => "common/laws/",
            Item::Tradition => "common/culture/traditions/",
            Item::Trait => "common/traits/",
            Item::UnitGfx => "common/culture/cultures/",
            Item::VassalObligation => "common/vassal_contracts/",
            Item::Area => "map_data/areas.txt",
            Item::CharacterTemplate => "common/character_templates/",
        }
    }

    #[verifier::when_used_as_spec(spec_path)]
    pub fn path(self) -> (r: &'static str)
        ensures
            r == self.spec_path(),
    {
        match self {
            Item::Amenity => "common/court_amenities/",
            Item::Artifact => "common/artifacts/types",
            Item::ArtifactCategory => "common/artifacts/",
            Item::ArtifactFeature => "common/artifacts/features/",
            Item::ArtifactFeatureGroup => "common/artifacts/feature_groups/",
            Item::ArtifactModifier => "common/artifacts/",
            Item::ArtifactRarity => "common/artifacts/",
            Item::ArtifactSlot => "common/artifacts/",
            Item::Building => "common/buildings/",
            Item::BuildingFlag => "common/buildings/",
            Item::BuildingGfx => "common/culture/cultures/",
            Item::CasusBelli => "common/casus_belli_types",
            Item::Catalyst => "common/struggle/catalysts/",
            Item::Character => "history/characters/",
            Item::ClothingGfx => "common/culture/cultures/",
            Item::CoaGfx => "common/culture/cultures/",
            Item::CouncilPosition => "common/council_positions/",
            Item::CouncilTask => "common/council_tasks/",
            Item::CourtPosition => "common/court_positions/types/",
            Item::CourtPositionCategory => "common/court_positions/categories/",
            Item::CourtType => "common/court_types/",
            Item::Culture => "common/culture/cultures/",
            Item::CultureEra => "common/culture/eras/",
            Item::CultureParameter => "common/culture/cultures/",
            Item::CulturePillar => "common/culture/pillars/",
            Item::CultureTradition => "common/culture/traditions/",
            Item::Decision => "common/decisions/",
            Item::Doctrine => "common/religion/doctrines/",
            Item::DoctrineParameter => "common/religion/doctrines/",
            Item::Dynasty => "common/dynasties/",
            Item::DynastyLegacy => "common/dynasty_legacies/",
            Item::DynastyPerk => "common/dynasty_perks/",
            Item::EducationFocus => "common/focuses/",
            Item::Event => "events/",
            Item::Faction => "common/factions/",
            Item::Faith => "common/religion/religions/",
            Item::FaithIcon => "common/religion/religions/",
            Item::File => "",
            Item::GameConcept => "common/game_concepts/",
            Item::Government => "common/governments/",
            Item::GraphicalFaith => "common/religion/religions/",
            Item::Holding => "",
            Item::HolySite => "common/religion/holy_sites/",
            Item::HolySiteFlag => "common/religion/holy_sites/",
            Item::Hook => "common/hook_types/",
            Item::House => "common/dynasty_houses/",
            Item::Innovation => "common/culture/innovations/",
            Item::InnovationFlag => "common/culture/innovations/",
            Item::Inspiration => "common/inspirations/",
            Item::Interaction => "common/character_interactions/",
            Item::InteractionCategory => "common/character_interaction_categories/",
            Item::Language => "common/culture/pillars/",
            Item::Law => "common/laws/",
            Item::Lifestyle => "common/lifestyles/",
            Item::Localization => "localization/",
            Item::MenAtArms => "common/men_at_arms_types/",
            Item::MenAtArmsBase => "common/men_at_arms_types/",
            Item::Modifier => "common/modifiers/",
            Item::Music => "music/",
            Item::NameList => "common/culture/name_lists/",
            Item::Nickname => "common/nicknames/",
            Item::Perk => "common/lifestyle_perks/",
            Item::PrisonType => "",
            Item::Province => "map_data/definition.csv",
            Item::Region => "map_data/geographical_regions/",
            Item::Relation => "common/scripted_relations/",
            Item::Religion => "common/religion/religions/",
            Item::ReligiousFamily => "common/religion/religion_families/",
            Item::Scheme => "common/schemes/",
            Item::ScriptedEffect => "common/scripted_effects/",
            Item::ScriptedList => "common/scripted_lists/",
            Item::ScriptedTrigger => "common/scripted_triggers/",
            Item::ScriptValue => "common/script_values/",
            Item::Secret => "common/secret_types/",
            Item::Sexuality => "",
            Item::Skill => "",
            Item::SpecialBuilding => "common/buildings/",
            Item::Story => "common/story_cycle/",
            Item::Struggle => "common/struggle/struggles/",
            Item::StrugglePhase => "common/struggle/struggles/",
            Item::StrugglePhaseParameter => "common/struggle/struggles/",
            Item::Terrain => "common/terrain_types/",
            Item::Title => "common/landed_titles/",
            Item::TitleHistory => "history/titles/",
            Item::TitleLaw => "common/laws/",
            Item::TitleLawFlag => "common/laws/",
            Item::Tradition => "common/culture/traditions/",
            Item::Trait => "common/traits/",
            Item::UnitGfx => "common/culture/cultures/",
            Item::VassalObligation => "common/vassal_contracts/",
            Item::Area => "map_data/areas.txt",
            Item::CharacterTemplate => "common/character_templates/",
        }
    }

    /// What the kind is called in messages.
    pub open spec fn spec_name(self) -> &'static str {
        match self {
            Item::Amenity => "amenity",
            Item::Artifact => "artifact",
            Item::ArtifactCategory => "artifact category",
            Item::ArtifactFeature => "artifact feature",
            Item::ArtifactFeatureGroup => "artifact feature group",
            Item::ArtifactModifier => "artifact modifier",
            Item::ArtifactRarity => "artifact rarity",
            Item::ArtifactSlot => "artifact slot",
            Item::Building => "building",
            Item::BuildingFlag => "building flag",
            Item::BuildingGfx => "building gfx",
            Item::CasusBelli => "casus belli",
            Item::Catalyst => "catalyst",
            Item::Character => "character",
            Item::ClothingGfx => "clothing gfx",
            Item::CoaGfx => "coa gfx",
            Item::CouncilPosition => "council position",
            Item::CouncilTask => "council task",
            Item::CourtPosition => "court position",
            Item::CourtPositionCategory => "court position category",
            Item::CourtType => "court type",
            Item::Culture => "culture",
            Item::CultureEra => "culture era",
            Item::CultureParameter => "culture parameter",
            Item::CulturePillar => "culture pillar",
            Item::CultureTradition => "culture tradition",
            Item::Decision => "decision",
            Item::Doctrine => "doctrine",
            Item::DoctrineParameter => "doctrine parameter",
            Item::Dynasty => "dynasty",
            Item::DynastyLegacy => "dynasty legacy",
            Item::DynastyPerk => "dynasty perk",
            Item::EducationFocus => "education focus",
            Item::Event => "event",
            Item::Faction => "faction",
            Item::Faith => "faith",
            Item::FaithIcon => "faith icon",
            Item::File => "file",
            Item::GameConcept => "game concept",
            Item::Government => "government",
            Item::GraphicalFaith => "graphical faith",
            Item::Holding => "holding",
            Item::HolySite => "holy site",
            Item::HolySiteFlag => "holy site flag",
            Item::Hook => "hook",
            Item::House => "house",
            Item::Innovation => "innovation",
            Item::InnovationFlag => "innovation flag",
            Item::Inspiration => "inspiration",
            Item::Interaction => "interaction",
            Item::InteractionCategory => "interaction category",
            Item::Language => "language",
            Item::Law => "law",
            Item::Lifestyle => "lifestyle",
            Item::Localization => "localization",
            Item::MenAtArms => "men at arms",
            Item::MenAtArmsBase => "men at arms base",
            Item::Modifier => "modifier",
            Item::Music => "music",
            Item::NameList => "name list",
            Item::Nickname => "nickname",
            Item::Perk => "perk",
            Item::PrisonType => "prison type",
            Item::Province => "province",
            Item::Region => "region",
            Item::Relation => "relation",
            Item::Religion => "religion",
            Item::ReligiousFamily => "religious family",
            Item::Scheme => "scheme",
            Item::ScriptedEffect => "effect",
            Item::ScriptedList => "scripted list",
            Item::ScriptedTrigger => "trigger",
            Item::ScriptValue => "script value",
            Item::Secret => "secret",
            Item::Sexuality => "sexuality",
            Item::Skill => "skill",
            Item::SpecialBuilding => "special building",
            Item::Story => "story",
            Item::Struggle => "struggle",
            Item::StrugglePhase => "struggle phase",
            Item::StrugglePhaseParameter => "struggle phase parameter",
            Item::Terrain => "terrain",
            Item::Title => "title",
            Item::TitleHistory => "title history",
            Item::TitleLaw => "title law",
            Item::TitleLawFlag => "title law flag",
            Item::Tradition => "tradition",
            Item::Trait => "trait",
            Item::UnitGfx => "unit gfx",
            Item::VassalObligation => "vassal obligation",
            Item::Area => "area",
            Item::CharacterTemplate => "character template",
        }
    }

    #[verifier::when_used_as_spec(spec_name)]
    pub fn name(self) -> (r: &'static str)
        ensures
            r == self.spec_name(),
    {
        match self {
            Item::Amenity => "amenity",
            Item::Artifact => "artifact",
            Item::ArtifactCategory => "artifact category",
            Item::ArtifactFeature => "artifact feature",
            Item::ArtifactFeatureGroup => "artifact feature group",
            Item::ArtifactModifier => "artifact modifier",
            Item::ArtifactRarity => "artifact rarity",
            Item::ArtifactSlot => "artifact slot",
            Item::Building => "building",
            Item::BuildingFlag => "building flag",
            Item::BuildingGfx => "building gfx",
            Item::CasusBelli => "casus belli",
            Item::Catalyst => "catalyst",
            Item::Character => "character",
            Item::ClothingGfx => "clothing gfx",
            Item::CoaGfx => "coa gfx",
            Item::CouncilPosition => "council position",
            Item::CouncilTask => "council task",
            Item::CourtPosition => "court position",
            Item::CourtPositionCategory => "court position category",
            Item::CourtType => "court type",
            Item::Culture => "culture",
            Item::CultureEra => "culture era",
            Item::CultureParameter => "culture parameter",
            Item::CulturePillar => "culture pillar",
            Item::CultureTradition => "culture tradition",
            Item::Decision => "decision",
            Item::Doctrine => "doctrine",
            Item::DoctrineParameter => "doctrine parameter",
            Item::Dynasty => "dynasty",
            Item::DynastyLegacy => "dynasty legacy",
            Item::DynastyPerk => "dynasty perk",
            Item::EducationFocus => "education focus",
            Item::Event => "event",
            Item::Faction => "faction",
            Item::Faith => "faith",
            Item::FaithIcon => "faith icon",
            Item::File => "file",
            Item::GameConcept => "game concept",
            Item::Government => "government",
            Item::GraphicalFaith => "graphical faith",
            Item::Holding => "holding",
            Item::HolySite => "holy site",
            Item::HolySiteFlag => "holy site flag",
            Item::Hook => "hook",
            Item::House => "house",
            Item::Innovation => "innovation",
            Item::InnovationFlag => "innovation flag",
            Item::Inspiration => "inspiration",
            Item::Interaction => "interaction",
            Item::InteractionCategory => "interaction category",
            Item::Language => "language",
            Item::Law => "law",
            Item::Lifestyle => "lifestyle",
            Item::Localization => "localization",
            Item::MenAtArms => "men at arms",
            Item::MenAtArmsBase => "men at arms base",
            Item::Modifier => "modifier",
            Item::Music => "music",
            Item::NameList => "name list",
            Item::Nickname => "nickname",
            Item::Perk => "perk",
            Item::PrisonType => "prison type",
            Item::Province => "province",
            Item::Region => "region",
            Item::Relation => "relation",
            Item::Religion => "religion",
            Item::ReligiousFamily => "religious family",
            Item::Scheme => "scheme",
            Item::ScriptedEffect => "effect",
            Item::ScriptedList => "scripted list",
            Item::ScriptedTrigger => "trigger",
            Item::ScriptValue => "script value",
            Item::Secret => "secret",
            Item::Sexuality => "sexuality",
            Item::Skill => "skill",
            Item::SpecialBuilding => "special building",
            Item::Story => "story",
            Item::Struggle => "struggle",
            Item::StrugglePhase => "struggle phase",
            Item::StrugglePhaseParameter => "struggle phase parameter",
            Item::Terrain => "terrain",
            Item::Title => "title",
            Item::TitleHistory => "title history",
            Item::TitleLaw => "title law",
            Item::TitleLawFlag => "title law flag",
            Item::Tradition => "tradition",
            Item::Trait => "trait",
            Item::UnitGfx => "unit gfx",
            Item::VassalObligation => "vassal obligation",
            Item::Area => "area",
            Item::CharacterTemplate => "character template",
        }
    }

    /// The number that stands for the kind in an index of names.
    pub open spec fn spec_ordinal(self) -> u8 {
        match self {
            Item::Amenity => 0,
            Item::Artifact => 1,
            Item::ArtifactCategory => 2,
            Item::ArtifactFeature => 3,
            Item::ArtifactFeatureGroup => 4,
            Item::ArtifactModifier => 5,
            Item::ArtifactRarity => 6,
            Item::ArtifactSlot => 7,
            Item::Building => 8,
            Item::BuildingFlag => 9,
            Item::BuildingGfx => 10,
            Item::CasusBelli => 11,
            Item::Catalyst => 12,
            Item::Character => 13,
            Item::ClothingGfx => 14,
            Item::CoaGfx => 15,
            Item::CouncilPosition => 16,
            Item::CouncilTask => 17,
            Item::CourtPosition => 18,
            Item::CourtPositionCategory => 19,
            Item::CourtType => 20,
            Item::Culture => 21,
            Item::CultureEra => 22,
            Item::CultureParameter => 23,
            Item::CulturePillar => 24,
            Item::CultureTradition => 25,
            Item::Decision => 26,
            Item::Doctrine => 27,
            Item::DoctrineParameter => 28,
            Item::Dynasty => 29,
            Item::DynastyLegacy => 30,
            Item::DynastyPerk => 31,
            Item::EducationFocus => 32,
            Item::Event => 33,
            Item::Faction => 34,
            Item::Faith => 35,
            Item::FaithIcon => 36,
            Item::File => 37,
            Item::GameConcept => 38,
            Item::Government => 39,
            Item::GraphicalFaith => 40,
            Item::Holding => 41,
            Item::HolySite => 42,
            Item::HolySiteFlag => 43,
            Item::Hook => 44,
            Item::House => 45,
            Item::Innovation => 46,
            Item::InnovationFlag => 47,
            Item::Inspiration => 48,
            Item::Interaction => 49,
            Item::InteractionCategory => 50,
            Item::Language => 51,
            Item::Law => 52,
            Item::Lifestyle => 53,
            Item::Localization => 54,
            Item::MenAtArms => 55,
            Item::MenAtArmsBase => 56,
            Item::Modifier => 57,
            Item::Music => 58,
            Item::NameList => 59,
            Item::Nickname => 60,
            Item::Perk => 61,
            Item::PrisonType => 62,
            Item::Province => 63,
            Item::Region => 64,
            Item::Relation => 65,
            Item::Religion => 66,
            Item::ReligiousFamily => 67,
            Item::Scheme => 68,
            Item::ScriptedEffect => 69,
            Item::ScriptedList => 70,
            Item::ScriptedTrigger => 71,
            Item::ScriptValue => 72,
            Item::Secret => 73,
            Item::Sexuality => 74,
            Item::Skill => 75,
            Item::SpecialBuilding => 76,
            Item::Story => 77,
            Item::Struggle => 78,
            Item::StrugglePhase => 79,
            Item::StrugglePhaseParameter => 80,
            Item::Terrain => 81,
            Item::Title => 82,
            Item::TitleHistory => 83,
            Item::TitleLaw => 84,
            Item::TitleLawFlag => 85,
            Item::Tradition => 86,
            Item::Trait => 87,
            Item::UnitGfx => 88,
            Item::VassalObligation => 89,
            Item::Area => 90,
            Item::CharacterTemplate => 91,
        }
    }

    #[verifier::when_used_as_spec(spec_ordinal)]
    pub fn ordinal(self) -> (r: u8)
        ensures
            r == self.spec_ordinal(),
    {
        match self {
            Item::Amenity => 0,
            Item::Artifact => 1,
            Item::ArtifactCategory => 2,
            Item::ArtifactFeature => 3,
            Item::ArtifactFeatureGroup => 4,
            Item::ArtifactModifier => 5,
            Item::ArtifactRarity => 6,
            Item::ArtifactSlot => 7,
            Item::Building => 8,
            Item::BuildingFlag => 9,
            Item::BuildingGfx => 10,
            Item::CasusBelli => 11,
            Item::Catalyst => 12,
            Item::Character => 13,
            Item::ClothingGfx => 14,
            Item::CoaGfx => 15,
            Item::CouncilPosition => 16,
            Item::CouncilTask => 17,
            Item::CourtPosition => 18,
            Item::CourtPositionCategory => 19,
            Item::CourtType => 20,
            Item::Culture => 21,
            Item::CultureEra => 22,
            Item::CultureParameter => 23,
            Item::CulturePillar => 24,
            Item::CultureTradition => 25,
            Item::Decision => 26,
            Item::Doctrine => 27,
            Item::DoctrineParameter => 28,
            Item::Dynasty => 29,
            Item::DynastyLegacy => 30,
            Item::DynastyPerk => 31,
            Item::EducationFocus => 32,
            Item::Event => 33,
            Item::Faction => 34,
            Item::Faith => 35,
            Item::FaithIcon => 36,
            Item::File => 37,
            Item::GameConcept => 38,
            Item::Government => 39,
            Item::GraphicalFaith => 40,
            Item::Holding => 41,
            Item::HolySite => 42,
            Item::HolySiteFlag => 43,
            Item::Hook => 44,
            Item::House => 45,
            Item::Innovation => 46,
            Item::InnovationFlag => 47,
            Item::Inspiration => 48,
            Item::Interaction => 49,
            Item::InteractionCategory => 50,
            Item::Language => 51,
            Item::Law => 52,
            Item::Lifestyle => 53,
            Item::Localization => 54,
            Item::MenAtArms => 55,
            Item::MenAtArmsBase => 56,
            Item::Modifier => 57,
            Item::Music => 58,
            Item::NameList => 59,
            Item::Nickname => 60,
            Item::Perk => 61,
            Item::PrisonType => 62,
            Item::Province => 63,
            Item::Region => 64,
            Item::Relation => 65,
            Item::Religion => 66,
            Item::ReligiousFamily => 67,
            Item::Scheme => 68,
            Item::ScriptedEffect => 69,
            Item::ScriptedList => 70,
            Item::ScriptedTrigger => 71,
            Item::ScriptValue => 72,
            Item::Secret => 73,
            Item::Sexuality => 74,
            Item::Skill => 75,
            Item::SpecialBuilding => 76,
            Item::Story => 77,
            Item::Struggle => 78,
            Item::StrugglePhase => 79,
            Item::StrugglePhaseParameter => 80,
            Item::Terrain => 81,
            Item::Title => 82,
            Item::TitleHistory => 83,
            Item::TitleLaw => 84,
            Item::TitleLawFlag => 85,
            Item::Tradition => 86,
            Item::Trait => 87,
            Item::UnitGfx => 88,
            Item::VassalObligation => 89,
            Item::Area => 90,
            Item::CharacterTemplate => 91,
        }
    }
}

/// Two kinds with the same ordinal are the same kind.
pub proof fn lemma_ordinal_injective(a: Item, b: Item)
    requires
        a.ordinal() == b.ordinal(),
    ensures
        a == b,
{
}

} // verus!
