//! Modifiers: the things that modifier definitions can change, each with
//! the kinds of modifier that it can stand in.

use vstd::prelude::*;
use vstd::string::StringExecFns;
use crate::block::{Block, BlockItem};
use crate::cache::Caches;
use crate::context::{ContextView, ScopeContext};
use crate::everything::Everything;
use crate::expression::{after, nothing, only, Outcome, State};
use crate::helpers::extends;
use crate::item::{lemma_ordinal_injective, Item};
use crate::report::{DiagnosticView, Sink};
use crate::scopes::{SCOPE_NONE, Scopes};
use crate::token::Token;
use crate::validate::{field_script_value, fits, lemma_reports_after, reports, script_value_field_out, state};
use crate::validator::{checked, claim, FieldKind, Validator};

verus! {

// The kinds of modifier, one bit each.
pub const MODIF_CHARACTER: u8 = 0x01;
pub const MODIF_PROVINCE: u8 = 0x02;
pub const MODIF_COUNTY: u8 = 0x04;
pub const MODIF_TERRAIN: u8 = 0x08;
pub const MODIF_CULTURE: u8 = 0x10;
pub const MODIF_SCHEME: u8 = 0x20;

/// A set of kinds of modifier, one bit per kind.
#[derive(Clone, Copy, Debug, PartialEq, Eq, Structural)]
pub struct ModifKinds {
    pub bits: u8,
}

impl ModifKinds {
    /// Whether the two sets share a kind.
    pub open spec fn spec_intersects(self, other: ModifKinds) -> bool {
        self.bits & other.bits != 0
    }

    #[verifier::when_used_as_spec(spec_intersects)]
    pub fn intersects(self, other: ModifKinds) -> (r: bool)
        ensures
            r == self.spec_intersects(other),
    {
        self.bits & other.bits != 0
    }

    /// The kinds that are in either set.
    pub fn union(self, other: ModifKinds) -> (r: ModifKinds)
        ensures
            r.bits == self.bits | other.bits,
    {
        ModifKinds { bits: self.bits | other.bits }
    }
}

/// What a modifier field holds, or for a family of fields, what their
/// names derive from.
#[derive(Clone, Copy, Debug, PartialEq, Eq, Structural)]
pub enum ModifShape {
    Numeric,
    Bool,
    ScriptValue,
    /// One numeric field for each terrain and each effect that a terrain
    /// has on characters.
    TerrainCharacter,
    /// One numeric field for each faith and each religion: the opinion of
    /// its followers.
    FaithOpinion,
    /// One numeric field for each lifestyle: the experience gained in it.
    LifestyleXp,
    /// One numeric field for each terrain and each effect that a terrain
    /// has on provinces.
    TerrainProvince,
}

/// One row of the table of modifier fields.
#[derive(Clone, Copy, Debug)]
pub struct Modif {
    pub name: &'static str,
    /// The kinds of modifier that the field can stand in.
    pub kinds: ModifKinds,
    pub shape: ModifShape,
}

/// The number of rows of the table.
pub const MODIF_COUNT: usize = 363;

/// Row `i` of the table of modifier fields.
pub open spec fn spec_modif(i: usize) -> Option<Modif> {
    match i {
        0 => Some(Modif { name: "hostile_scheme_power_add", kinds: ModifKinds { bits: MODIF_CHARACTER }, shape: ModifShape::Numeric }),
        1 => Some(Modif { name: "hostile_scheme_power_mult", kinds: ModifKinds { bits: MODIF_CHARACTER }, shape: ModifShape::Numeric }),
        2 => Some(Modif { name: "hostile_scheme_resistance_add", kinds: ModifKinds { bits: MODIF_CHARACTER }, shape: ModifShape::Numeric }),
        3 => Some(Modif { name: "hostile_scheme_resistance_mult", kinds: ModifKinds { bits: MODIF_CHARACTER }, shape: ModifShape::Numeric }),
        4 => Some(Modif { name: "max_hostile_schemes_add", kinds: ModifKinds { bits: MODIF_CHARACTER }, shape: ModifShape::Numeric }),
        5 => Some(Modif { name: "owned_hostile_scheme_success_chance_add", kinds: ModifKinds { bits: MODIF_CHARACTER }, shape: ModifShape::Numeric }),
        6 => Some(Modif { name: "personal_scheme_power_add", kinds: ModifKinds { bits: MODIF_CHARACTER }, shape: ModifShape::Numeric }),
        7 => Some(Modif { name: "personal_scheme_power_mult", kinds: ModifKinds { bits: MODIF_CHARACTER }, shape: ModifShape::Numeric }),
        8 => Some(Modif { name: "personal_scheme_resistance_add", kinds: ModifKinds { bits: MODIF_CHARACTER }, shape: ModifShape::Numeric }),
        9 => Some(Modif { name: "personal_scheme_resistance_mult", kinds: ModifKinds { bits: MODIF_CHARACTER }, shape: ModifShape::Numeric }),
        10 => Some(Modif { name: "max_personal_schemes_add", kinds: ModifKinds { bits: MODIF_CHARACTER }, shape: ModifShape::Numeric }),
        11 => Some(Modif { name: "owned_personal_scheme_success_chance_add", kinds: ModifKinds { bits: MODIF_CHARACTER }, shape: ModifShape::Numeric }),
        12 => Some(Modif { name: "owned_scheme_secrecy_add", kinds: ModifKinds { bits: MODIF_CHARACTER }, shape: ModifShape::Numeric }),
        13 => Some(Modif { name: "scheme_discovery_chance_mult", kinds: ModifKinds { bits: MODIF_CHARACTER }, shape: ModifShape::Numeric }),
        14 => Some(Modif { name: "ai_amenity_spending", kinds: ModifKinds { bits: MODIF_CHARACTER }, shape: ModifShape::Numeric }),
        15 => Some(Modif { name: "ai_amenity_target_baseline", kinds: ModifKinds { bits: MODIF_CHARACTER }, shape: ModifShape::Numeric }),
        16 => Some(Modif { name: "ai_boldness", kinds: ModifKinds { bits: MODIF_CHARACTER }, shape: ModifShape::ScriptValue }),
        17 => Some(Modif { name: "ai_compassion", kinds: ModifKinds { bits: MODIF_CHARACTER }, shape: ModifShape::ScriptValue }),
        18 => Some(Modif { name: "ai_energy", kinds: ModifKinds { bits: MODIF_CHARACTER }, shape: ModifShape::ScriptValue }),
        19 => Some(Modif { name: "ai_greed", kinds: ModifKinds { bits: MODIF_CHARACTER }, shape: ModifShape::ScriptValue }),
        20 => Some(Modif { name: "ai_honor", kinds: ModifKinds { bits: MODIF_CHARACTER }, shape: ModifShape::ScriptValue }),
        21 => Some(Modif { name: "ai_rationality", kinds: ModifKinds { bits: MODIF_CHARACTER }, shape: ModifShape::ScriptValue }),
        22 => Some(Modif { name: "ai_sociability", kinds: ModifKinds { bits: MODIF_CHARACTER }, shape: ModifShape::ScriptValue }),
        23 => Some(Modif { name: "ai_vengefulness", kinds: ModifKinds { bits: MODIF_CHARACTER }, shape: ModifShape::ScriptValue }),
        24 => Some(Modif { name: "ai_zeal", kinds: ModifKinds { bits: MODIF_CHARACTER }, shape: ModifShape::ScriptValue }),
        25 => Some(Modif { name: "ai_war_chance", kinds: ModifKinds { bits: MODIF_CHARACTER }, shape: ModifShape::Numeric }),
        26 => Some(Modif { name: "ai_war_cooldown", kinds: ModifKinds { bits: MODIF_CHARACTER }, shape: ModifShape::Numeric }),
        27 => Some(Modif { name: "army_damage_mult", kinds: ModifKinds { bits: MODIF_CHARACTER }, shape: ModifShape::Numeric }),
        28 => Some(Modif { name: "army_maintenance_mult", kinds: ModifKinds { bits: MODIF_CHARACTER }, shape: ModifShape::Numeric }),
        29 => Some(Modif { name: "army_pursuit_mult", kinds: ModifKinds { bits: MODIF_CHARACTER }, shape: ModifShape::Numeric }),
        30 => Some(Modif { name: "army_screen_mult", kinds: ModifKinds { bits: MODIF_CHARACTER }, shape: ModifShape::Numeric }),
        31 => Some(Modif { name: "army_siege_value_mult", kinds: ModifKinds { bits: MODIF_CHARACTER }, shape: ModifShape::Numeric }),
        32 => Some(Modif { name: "army_toughness_mult", kinds: ModifKinds { bits: MODIF_CHARACTER }, shape: ModifShape::Numeric }),
        33 => Some(Modif { name: "advantage", kinds: ModifKinds { bits: MODIF_CHARACTER }, shape: ModifShape::Numeric }),
        34 => Some(Modif { name: "advantage_against_coreligionists", kinds: ModifKinds { bits: MODIF_CHARACTER }, shape: ModifShape::Numeric }),
        35 => Some(Modif { name: "attacker_advantage", kinds: ModifKinds { bits: MODIF_CHARACTER }, shape: ModifShape::Numeric }),
        36 => Some(Modif { name: "coastal_advantage", kinds: ModifKinds { bits: MODIF_CHARACTER }, shape: ModifShape::Numeric }),
        37 => Some(Modif { name: "controlled_province_advantage", kinds: ModifKinds { bits: MODIF_CHARACTER }, shape: ModifShape::Numeric }),
        38 => Some(Modif { name: "defender_advantage", kinds: ModifKinds { bits: MODIF_CHARACTER }, shape: ModifShape::Numeric }),
        39 => Some(Modif { name: "enemy_terrain_advantage", kinds: ModifKinds { bits: MODIF_CHARACTER }, shape: ModifShape::Numeric }),
        40 => Some(Modif { name: "independent_primary_defender_advantage_add", kinds: ModifKinds { bits: MODIF_CHARACTER }, shape: ModifShape::Numeric }),
        41 => Some(Modif { name: "led_by_owner_extra_advantage_add", kinds: ModifKinds { bits: MODIF_CHARACTER }, shape: ModifShape::Numeric }),
        42 => Some(Modif { name: "random_advantage", kinds: ModifKinds { bits: MODIF_CHARACTER }, shape: ModifShape::Numeric }),
        43 => Some(Modif { name: "same_heritage_county_advantage_add", kinds: ModifKinds { bits: MODIF_CHARACTER }, shape: ModifShape::Numeric }),
        44 => Some(Modif { name: "winter_advantage", kinds: ModifKinds { bits: MODIF_CHARACTER }, shape: ModifShape::Numeric }),
        45 => Some(Modif { name: "", kinds: ModifKinds { bits: MODIF_CHARACTER }, shape: ModifShape::TerrainCharacter }),
        46 => Some(Modif { name: "max_combat_roll", kinds: ModifKinds { bits: MODIF_CHARACTER }, shape: ModifShape::Numeric }),
        47 => Some(Modif { name: "min_combat_roll", kinds: ModifKinds { bits: MODIF_CHARACTER }, shape: ModifShape::Numeric }),
        48 => Some(Modif { name: "", kinds: ModifKinds { bits: MODIF_CHARACTER }, shape: ModifShape::FaithOpinion }),
        49 => Some(Modif { name: "attraction_opinion", kinds: ModifKinds { bits: MODIF_CHARACTER }, shape: ModifShape::Numeric }),
        50 => Some(Modif { name: "child_except_player_heir_opinion", kinds: ModifKinds { bits: MODIF_CHARACTER }, shape: ModifShape::Numeric }),
        51 => Some(Modif { name: "child_opinion", kinds: ModifKinds { bits: MODIF_CHARACTER }, shape: ModifShape::Numeric }),
        52 => Some(Modif { name: "clergy_opinion", kinds: ModifKinds { bits: MODIF_CHARACTER }, shape: ModifShape::Numeric }),
        53 => Some(Modif { name: "close_relative_opinion", kinds: ModifKinds { bits: MODIF_CHARACTER }, shape: ModifShape::Numeric }),
        54 => Some(Modif { name: "councillor_opinion", kinds: ModifKinds { bits: MODIF_CHARACTER }, shape: ModifShape::Numeric }),
        55 => Some(Modif { name: "county_opinion_add_even_if_baron", kinds: ModifKinds { bits: MODIF_CHARACTER }, shape: ModifShape::Numeric }),
        56 => Some(Modif { name: "courtier_and_guest_opinion", kinds: ModifKinds { bits: MODIF_CHARACTER }, shape: ModifShape::Numeric }),
        57 => Some(Modif { name: "courtier_opinion", kinds: ModifKinds { bits: MODIF_CHARACTER }, shape: ModifShape::Numeric }),
        58 => Some(Modif { name: "different_culture_opinion", kinds: ModifKinds { bits: MODIF_CHARACTER }, shape: ModifShape::Numeric }),
        59 => Some(Modif { name: "different_faith_county_opinion_mult", kinds: ModifKinds { bits: MODIF_CHARACTER }, shape: ModifShape::Numeric }),
        60 => Some(Modif { name: "different_faith_county_opinion_mult_even_if_baron", kinds: ModifKinds { bits: MODIF_CHARACTER }, shape: ModifShape::Numeric }),
        61 => Some(Modif { name: "different_faith_liege_opinion", kinds: ModifKinds { bits: MODIF_CHARACTER }, shape: ModifShape::Numeric }),
        62 => Some(Modif { name: "different_faith_opinion", kinds: ModifKinds { bits: MODIF_CHARACTER }, shape: ModifShape::Numeric }),
        63 => Some(Modif { name: "direct_vassal_opinion", kinds: ModifKinds { bits: MODIF_CHARACTER }, shape: ModifShape::Numeric }),
        64 => Some(Modif { name: "dynasty_house_opinion", kinds: ModifKinds { bits: MODIF_CHARACTER }, shape: ModifShape::Numeric }),
        65 => Some(Modif { name: "dynasty_opinion", kinds: ModifKinds { bits: MODIF_CHARACTER }, shape: ModifShape::Numeric }),
        66 => Some(Modif { name: "eligible_child_except_player_heir_opinion", kinds: ModifKinds { bits: MODIF_CHARACTER }, shape: ModifShape::Numeric }),
        67 => Some(Modif { name: "eligible_child_opinion", kinds: ModifKinds { bits: MODIF_CHARACTER }, shape: ModifShape::Numeric }),
        68 => Some(Modif { name: "fellow_vassal_opinion", kinds: ModifKinds { bits: MODIF_CHARACTER }, shape: ModifShape::Numeric }),
        69 => Some(Modif { name: "general_opinion", kinds: ModifKinds { bits: MODIF_CHARACTER }, shape: ModifShape::Numeric }),
        70 => Some(Modif { name: "guest_opinion", kinds: ModifKinds { bits: MODIF_CHARACTER }, shape: ModifShape::Numeric }),
        71 => Some(Modif { name: "independent_ruler_opinion", kinds: ModifKinds { bits: MODIF_CHARACTER }, shape: ModifShape::Numeric }),
        72 => Some(Modif { name: "liege_opinion", kinds: ModifKinds { bits: MODIF_CHARACTER }, shape: ModifShape::Numeric }),
        73 => Some(Modif { name: "player_heir_opinion", kinds: ModifKinds { bits: MODIF_CHARACTER }, shape: ModifShape::Numeric }),
        74 => Some(Modif { name: "powerful_vassal_opinion", kinds: ModifKinds { bits: MODIF_CHARACTER }, shape: ModifShape::Numeric }),
        75 => Some(Modif { name: "prisoner_opinion", kinds: ModifKinds { bits: MODIF_CHARACTER }, shape: ModifShape::Numeric }),
        76 => Some(Modif { name: "realm_priest_opinion", kinds: ModifKinds { bits: MODIF_CHARACTER }, shape: ModifShape::Numeric }),
        77 => Some(Modif { name: "religious_head_opinion", kinds: ModifKinds { bits: MODIF_CHARACTER }, shape: ModifShape::Numeric }),
        78 => Some(Modif { name: "religious_vassal_opinion", kinds: ModifKinds { bits: MODIF_CHARACTER }, shape: ModifShape::Numeric }),
        79 => Some(Modif { name: "same_culture_opinion", kinds: ModifKinds { bits: MODIF_CHARACTER }, shape: ModifShape::Numeric }),
        80 => Some(Modif { name: "same_faith_opinion", kinds: ModifKinds { bits: MODIF_CHARACTER }, shape: ModifShape::Numeric }),
        81 => Some(Modif { name: "spouse_opinion", kinds: ModifKinds { bits: MODIF_CHARACTER }, shape: ModifShape::Numeric }),
        82 => Some(Modif { name: "twin_opinion", kinds: ModifKinds { bits: MODIF_CHARACTER }, shape: ModifShape::Numeric }),
        83 => Some(Modif { name: "vassal_opinion", kinds: ModifKinds { bits: MODIF_CHARACTER }, shape: ModifShape::Numeric }),
        84 => Some(Modif { name: "character_capital_county_monthly_development_growth_add", kinds: ModifKinds { bits: MODIF_CHARACTER }, shape: ModifShape::Numeric }),
        85 => Some(Modif { name: "cowed_vassal_levy_contribution_add", kinds: ModifKinds { bits: MODIF_CHARACTER }, shape: ModifShape::Numeric }),
        86 => Some(Modif { name: "cowed_vassal_levy_contribution_mult", kinds: ModifKinds { bits: MODIF_CHARACTER }, shape: ModifShape::Numeric }),
        87 => Some(Modif { name: "cowed_vassal_tax_contribution_add", kinds: ModifKinds { bits: MODIF_CHARACTER }, shape: ModifShape::Numeric }),
        88 => Some(Modif { name: "cowed_vassal_tax_contribution_mult", kinds: ModifKinds { bits: MODIF_CHARACTER }, shape: ModifShape::Numeric }),
        89 => Some(Modif { name: "happy_powerful_vassal_levy_contribution_add", kinds: ModifKinds { bits: MODIF_CHARACTER }, shape: ModifShape::Numeric }),
        90 => Some(Modif { name: "happy_powerful_vassal_levy_contribution_mult", kinds: ModifKinds { bits: MODIF_CHARACTER }, shape: ModifShape::Numeric }),
        91 => Some(Modif { name: "happy_powerful_vassal_tax_contribution_add", kinds: ModifKinds { bits: MODIF_CHARACTER }, shape: ModifShape::Numeric }),
        92 => Some(Modif { name: "happy_powerful_vassal_tax_contribution_mult", kinds: ModifKinds { bits: MODIF_CHARACTER }, shape: ModifShape::Numeric }),
        93 => Some(Modif { name: "intimidated_vassal_levy_contribution_add", kinds: ModifKinds { bits: MODIF_CHARACTER }, shape: ModifShape::Numeric }),
        94 => Some(Modif { name: "intimidated_vassal_levy_contribution_mult", kinds: ModifKinds { bits: MODIF_CHARACTER }, shape: ModifShape::Numeric }),
        95 => Some(Modif { name: "intimidated_vassal_tax_contribution_add", kinds: ModifKinds { bits: MODIF_CHARACTER }, shape: ModifShape::Numeric }),
        96 => Some(Modif { name: "intimidated_vassal_tax_contribution_mult", kinds: ModifKinds { bits: MODIF_CHARACTER }, shape: ModifShape::Numeric }),
        97 => Some(Modif { name: "vassal_levy_contribution_add", kinds: ModifKinds { bits: MODIF_CHARACTER }, shape: ModifShape::Numeric }),
        98 => Some(Modif { name: "vassal_levy_contribution_mult", kinds: ModifKinds { bits: MODIF_CHARACTER }, shape: ModifShape::Numeric }),
        99 => Some(Modif { name: "vassal_tax_contribution_add", kinds: ModifKinds { bits: MODIF_CHARACTER }, shape: ModifShape::Numeric }),
        100 => Some(Modif { name: "vassal_tax_contribution_mult", kinds: ModifKinds { bits: MODIF_CHARACTER }, shape: ModifShape::Numeric }),
        101 => Some(Modif { name: "court_grandeur_baseline_add", kinds: ModifKinds { bits: MODIF_CHARACTER }, shape: ModifShape::Numeric }),
        102 => Some(Modif { name: "monthly_court_grandeur_change_add", kinds: ModifKinds { bits: MODIF_CHARACTER }, shape: ModifShape::Numeric }),
        103 => Some(Modif { name: "monthly_court_grandeur_change_mult", kinds: ModifKinds { bits: MODIF_CHARACTER }, shape: ModifShape::Numeric }),
        104 => Some(Modif { name: "cultural_head_acceptance_gain_mult", kinds: ModifKinds { bits: MODIF_CHARACTER }, shape: ModifShape::Numeric }),
        105 => Some(Modif { name: "cultural_head_fascination_add", kinds: ModifKinds { bits: MODIF_CHARACTER }, shape: ModifShape::Numeric }),
        106 => Some(Modif { name: "cultural_head_fascination_mult", kinds: ModifKinds { bits: MODIF_CHARACTER }, shape: ModifShape::Numeric }),
        107 => Some(Modif { name: "diplomacy", kinds: ModifKinds { bits: MODIF_CHARACTER }, shape: ModifShape::Numeric }),
        108 => Some(Modif { name: "diplomacy_per_piety_level", kinds: ModifKinds { bits: MODIF_CHARACTER }, shape: ModifShape::Numeric }),
        109 => Some(Modif { name: "diplomacy_per_prestige_level", kinds: ModifKinds { bits: MODIF_CHARACTER }, shape: ModifShape::Numeric }),
        110 => Some(Modif { name: "diplomacy_per_stress_level", kinds: ModifKinds { bits: MODIF_CHARACTER }, shape: ModifShape::Numeric }),
        111 => Some(Modif { name: "diplomacy_scheme_power", kinds: ModifKinds { bits: MODIF_CHARACTER }, shape: ModifShape::Numeric }),
        112 => Some(Modif { name: "diplomacy_scheme_resistance", kinds: ModifKinds { bits: MODIF_CHARACTER }, shape: ModifShape::Numeric }),
        113 => Some(Modif { name: "negate_diplomacy_penalty_add", kinds: ModifKinds { bits: MODIF_CHARACTER }, shape: ModifShape::Numeric }),
        114 => Some(Modif { name: "intrigue", kinds: ModifKinds { bits: MODIF_CHARACTER }, shape: ModifShape::Numeric }),
        115 => Some(Modif { name: "intrigue_per_piety_level", kinds: ModifKinds { bits: MODIF_CHARACTER }, shape: ModifShape::Numeric }),
        116 => Some(Modif { name: "intrigue_per_prestige_level", kinds: ModifKinds { bits: MODIF_CHARACTER }, shape: ModifShape::Numeric }),
        117 => Some(Modif { name: "intrigue_per_stress_level", kinds: ModifKinds { bits: MODIF_CHARACTER }, shape: ModifShape::Numeric }),
        118 => Some(Modif { name: "intrigue_scheme_power", kinds: ModifKinds { bits: MODIF_CHARACTER }, shape: ModifShape::Numeric }),
        119 => Some(Modif { name: "intrigue_scheme_resistance", kinds: ModifKinds { bits: MODIF_CHARACTER }, shape: ModifShape::Numeric }),
        120 => Some(Modif { name: "negate_intrigue_penalty_add", kinds: ModifKinds { bits: MODIF_CHARACTER }, shape: ModifShape::Numeric }),
        121 => Some(Modif { name: "learning", kinds: ModifKinds { bits: MODIF_CHARACTER }, shape: ModifShape::Numeric }),
        122 => Some(Modif { name: "learning_per_piety_level", kinds: ModifKinds { bits: MODIF_CHARACTER }, shape: ModifShape::Numeric }),
        123 => Some(Modif { name: "learning_per_prestige_level", kinds: ModifKinds { bits: MODIF_CHARACTER }, shape: ModifShape::Numeric }),
        124 => Some(Modif { name: "learning_per_stress_level", kinds: ModifKinds { bits: MODIF_CHARACTER }, shape: ModifShape::Numeric }),
        125 => Some(Modif { name: "learning_scheme_power", kinds: ModifKinds { bits: MODIF_CHARACTER }, shape: ModifShape::Numeric }),
        126 => Some(Modif { name: "learning_scheme_resistance", kinds: ModifKinds { bits: MODIF_CHARACTER }, shape: ModifShape::Numeric }),
        127 => Some(Modif { name: "negate_learning_penalty_add", kinds: ModifKinds { bits: MODIF_CHARACTER }, shape: ModifShape::Numeric }),
        128 => Some(Modif { name: "martial", kinds: ModifKinds { bits: MODIF_CHARACTER }, shape: ModifShape::Numeric }),
        129 => Some(Modif { name: "martial_per_piety_level", kinds: ModifKinds { bits: MODIF_CHARACTER }, shape: ModifShape::Numeric }),
        130 => Some(Modif { name: "martial_per_prestige_level", kinds: ModifKinds { bits: MODIF_CHARACTER }, shape: ModifShape::Numeric }),
        131 => Some(Modif { name: "martial_per_stress_level", kinds: ModifKinds { bits: MODIF_CHARACTER }, shape: ModifShape::Numeric }),
        132 => Some(Modif { name: "martial_scheme_power", kinds: ModifKinds { bits: MODIF_CHARACTER }, shape: ModifShape::Numeric }),
        133 => Some(Modif { name: "martial_scheme_resistance", kinds: ModifKinds { bits: MODIF_CHARACTER }, shape: ModifShape::Numeric }),
        134 => Some(Modif { name: "negate_martial_penalty_add", kinds: ModifKinds { bits: MODIF_CHARACTER }, shape: ModifShape::Numeric }),
        135 => Some(Modif { name: "prowess", kinds: ModifKinds { bits: MODIF_CHARACTER }, shape: ModifShape::Numeric }),
        136 => Some(Modif { name: "prowess_no_portrait", kinds: ModifKinds { bits: MODIF_CHARACTER }, shape: ModifShape::Numeric }),
        137 => Some(Modif { name: "prowess_per_piety_level", kinds: ModifKinds { bits: MODIF_CHARACTER }, shape: ModifShape::Numeric }),
        138 => Some(Modif { name: "prowess_per_prestige_level", kinds: ModifKinds { bits: MODIF_CHARACTER }, shape: ModifShape::Numeric }),
        139 => Some(Modif { name: "prowess_per_stress_level", kinds: ModifKinds { bits: MODIF_CHARACTER }, shape: ModifShape::Numeric }),
        140 => Some(Modif { name: "prowess_scheme_power", kinds: ModifKinds { bits: MODIF_CHARACTER }, shape: ModifShape::Numeric }),
        141 => Some(Modif { name: "prowess_scheme_resistance", kinds: ModifKinds { bits: MODIF_CHARACTER }, shape: ModifShape::Numeric }),
        142 => Some(Modif { name: "negate_prowess_penalty_add", kinds: ModifKinds { bits: MODIF_CHARACTER }, shape: ModifShape::Numeric }),
        143 => Some(Modif { name: "stewardship", kinds: ModifKinds { bits: MODIF_CHARACTER }, shape: ModifShape::Numeric }),
        144 => Some(Modif { name: "stewardship_no_portrait", kinds: ModifKinds { bits: MODIF_CHARACTER }, shape: ModifShape::Numeric }),
        145 => Some(Modif { name: "stewardship_per_piety_level", kinds: ModifKinds { bits: MODIF_CHARACTER }, shape: ModifShape::Numeric }),
        146 => Some(Modif { name: "stewardship_per_prestige_level", kinds: ModifKinds { bits: MODIF_CHARACTER }, shape: ModifShape::Numeric }),
        147 => Some(Modif { name: "stewardship_per_stress_level", kinds: ModifKinds { bits: MODIF_CHARACTER }, shape: ModifShape::Numeric }),
        148 => Some(Modif { name: "stewardship_scheme_power", kinds: ModifKinds { bits: MODIF_CHARACTER }, shape: ModifShape::Numeric }),
        149 => Some(Modif { name: "stewardship_scheme_resistance", kinds: ModifKinds { bits: MODIF_CHARACTER }, shape: ModifShape::Numeric }),
        150 => Some(Modif { name: "negate_stewardship_penalty_add", kinds: ModifKinds { bits: MODIF_CHARACTER }, shape: ModifShape::Numeric }),
        151 => Some(Modif { name: "diplomatic_range_mult", kinds: ModifKinds { bits: MODIF_CHARACTER }, shape: ModifShape::Numeric }),
        152 => Some(Modif { name: "domain_limit", kinds: ModifKinds { bits: MODIF_CHARACTER }, shape: ModifShape::Numeric }),
        153 => Some(Modif { name: "domain_tax_different_faith_mult", kinds: ModifKinds { bits: MODIF_CHARACTER }, shape: ModifShape::Numeric }),
        154 => Some(Modif { name: "domain_tax_different_faith_mult_even_if_baron", kinds: ModifKinds { bits: MODIF_CHARACTER }, shape: ModifShape::Numeric }),
        155 => Some(Modif { name: "domain_tax_mult", kinds: ModifKinds { bits: MODIF_CHARACTER }, shape: ModifShape::Numeric }),
        156 => Some(Modif { name: "domain_tax_mult_even_if_baron", kinds: ModifKinds { bits: MODIF_CHARACTER }, shape: ModifShape::Numeric }),
        157 => Some(Modif { name: "domain_tax_same_faith_mult", kinds: ModifKinds { bits: MODIF_CHARACTER }, shape: ModifShape::Numeric }),
        158 => Some(Modif { name: "domain_tax_same_faith_mult_even_if_baron", kinds: ModifKinds { bits: MODIF_CHARACTER }, shape: ModifShape::Numeric }),
        159 => Some(Modif { name: "dread_baseline_add", kinds: ModifKinds { bits: MODIF_CHARACTER }, shape: ModifShape::Numeric }),
        160 => Some(Modif { name: "dread_decay_add", kinds: ModifKinds { bits: MODIF_CHARACTER }, shape: ModifShape::Numeric }),
        161 => Some(Modif { name: "dread_decay_mult", kinds: ModifKinds { bits: MODIF_CHARACTER }, shape: ModifShape::Numeric }),
        162 => Some(Modif { name: "dread_gain_mult", kinds: ModifKinds { bits: MODIF_CHARACTER }, shape: ModifShape::Numeric }),
        163 => Some(Modif { name: "dread_loss_mult", kinds: ModifKinds { bits: MODIF_CHARACTER }, shape: ModifShape::Numeric }),
        164 => Some(Modif { name: "dread_per_tyranny_add", kinds: ModifKinds { bits: MODIF_CHARACTER }, shape: ModifShape::Numeric }),
        165 => Some(Modif { name: "dread_per_tyranny_mult", kinds: ModifKinds { bits: MODIF_CHARACTER }, shape: ModifShape::Numeric }),
        166 => Some(Modif { name: "monthly_dread", kinds: ModifKinds { bits: MODIF_CHARACTER }, shape: ModifShape::Numeric }),
        167 => Some(Modif { name: "embarkation_cost_mult", kinds: ModifKinds { bits: MODIF_CHARACTER }, shape: ModifShape::Numeric }),
        168 => Some(Modif { name: "enemy_hostile_scheme_success_chance_add", kinds: ModifKinds { bits: MODIF_CHARACTER }, shape: ModifShape::Numeric }),
        169 => Some(Modif { name: "enemy_personal_scheme_success_chance_add", kinds: ModifKinds { bits: MODIF_CHARACTER }, shape: ModifShape::Numeric }),
        170 => Some(Modif { name: "faith_conversion_piety_cost_add", kinds: ModifKinds { bits: MODIF_CHARACTER }, shape: ModifShape::Numeric }),
        171 => Some(Modif { name: "faith_conversion_piety_cost_mult", kinds: ModifKinds { bits: MODIF_CHARACTER }, shape: ModifShape::Numeric }),
        172 => Some(Modif { name: "faith_creation_piety_cost_add", kinds: ModifKinds { bits: MODIF_CHARACTER }, shape: ModifShape::Numeric }),
        173 => Some(Modif { name: "faith_creation_piety_cost_mult", kinds: ModifKinds { bits: MODIF_CHARACTER }, shape: ModifShape::Numeric }),
        174 => Some(Modif { name: "fertility", kinds: ModifKinds { bits: MODIF_CHARACTER }, shape: ModifShape::Numeric }),
        175 => Some(Modif { name: "negate_fertility_penalty_add", kinds: ModifKinds { bits: MODIF_CHARACTER }, shape: ModifShape::Numeric }),
        176 => Some(Modif { name: "genetic_trait_strengthen_chance", kinds: ModifKinds { bits: MODIF_CHARACTER }, shape: ModifShape::Numeric }),
        177 => Some(Modif { name: "inbreeding_chance", kinds: ModifKinds { bits: MODIF_CHARACTER }, shape: ModifShape::Numeric }),
        178 => Some(Modif { name: "health", kinds: ModifKinds { bits: MODIF_CHARACTER }, shape: ModifShape::Numeric }),
        179 => Some(Modif { name: "negate_health_penalty_add", kinds: ModifKinds { bits: MODIF_CHARACTER }, shape: ModifShape::Numeric }),
        180 => Some(Modif { name: "life_expectancy", kinds: ModifKinds { bits: MODIF_CHARACTER }, shape: ModifShape::Numeric }),
        181 => Some(Modif { name: "negative_inactive_inheritance_chance", kinds: ModifKinds { bits: MODIF_CHARACTER }, shape: ModifShape::Numeric }),
        182 => Some(Modif { name: "negative_random_genetic_chance", kinds: ModifKinds { bits: MODIF_CHARACTER }, shape: ModifShape::Numeric }),
        183 => Some(Modif { name: "positive_inactive_inheritance_chance", kinds: ModifKinds { bits: MODIF_CHARACTER }, shape: ModifShape::Numeric }),
        184 => Some(Modif { name: "positive_random_genetic_chance", kinds: ModifKinds { bits: MODIF_CHARACTER }, shape: ModifShape::Numeric }),
        185 => Some(Modif { name: "years_of_fertility", kinds: ModifKinds { bits: MODIF_CHARACTER }, shape: ModifShape::Numeric }),
        186 => Some(Modif { name: "holy_order_hire_cost_add", kinds: ModifKinds { bits: MODIF_CHARACTER }, shape: ModifShape::Numeric }),
        187 => Some(Modif { name: "holy_order_hire_cost_mult", kinds: ModifKinds { bits: MODIF_CHARACTER }, shape: ModifShape::Numeric }),
        188 => Some(Modif { name: "mercenary_hire_cost_add", kinds: ModifKinds { bits: MODIF_CHARACTER }, shape: ModifShape::Numeric }),
        189 => Some(Modif { name: "mercenary_hire_cost_mult", kinds: ModifKinds { bits: MODIF_CHARACTER }, shape: ModifShape::Numeric }),
        190 => Some(Modif { name: "same_culture_holy_order_hire_cost_add", kinds: ModifKinds { bits: MODIF_CHARACTER }, shape: ModifShape::Numeric }),
        191 => Some(Modif { name: "same_culture_holy_order_hire_cost_mult", kinds: ModifKinds { bits: MODIF_CHARACTER }, shape: ModifShape::Numeric }),
        192 => Some(Modif { name: "same_culture_mercenary_hire_cost_add", kinds: ModifKinds { bits: MODIF_CHARACTER }, shape: ModifShape::Numeric }),
        193 => Some(Modif { name: "same_culture_mercenary_hire_cost_mult", kinds: ModifKinds { bits: MODIF_CHARACTER }, shape: ModifShape::Numeric }),
        194 => Some(Modif { name: "hostile_county_attrition", kinds: ModifKinds { bits: MODIF_CHARACTER }, shape: ModifShape::Numeric }),
        195 => Some(Modif { name: "ignore_different_faith_opinion", kinds: ModifKinds { bits: MODIF_CHARACTER }, shape: ModifShape::Bool }),
        196 => Some(Modif { name: "ignore_negative_culture_opinion", kinds: ModifKinds { bits: MODIF_CHARACTER }, shape: ModifShape::Bool }),
        197 => Some(Modif { name: "ignore_negative_opinion_of_culture", kinds: ModifKinds { bits: MODIF_CHARACTER }, shape: ModifShape::Bool }),
        198 => Some(Modif { name: "ignore_opinion_of_different_faith", kinds: ModifKinds { bits: MODIF_CHARACTER }, shape: ModifShape::Bool }),
        199 => Some(Modif { name: "knight_effectiveness_mult", kinds: ModifKinds { bits: MODIF_CHARACTER }, shape: ModifShape::Numeric }),
        200 => Some(Modif { name: "knight_limit", kinds: ModifKinds { bits: MODIF_CHARACTER }, shape: ModifShape::Numeric }),
        201 => Some(Modif { name: "levy_reinforcement_rate_different_faith", kinds: ModifKinds { bits: MODIF_CHARACTER }, shape: ModifShape::Numeric }),
        202 => Some(Modif { name: "levy_reinforcement_rate_different_faith_even_if_baron", kinds: ModifKinds { bits: MODIF_CHARACTER }, shape: ModifShape::Numeric }),
        203 => Some(Modif { name: "levy_reinforcement_rate_even_if_baron", kinds: ModifKinds { bits: MODIF_CHARACTER }, shape: ModifShape::Numeric }),
        204 => Some(Modif { name: "levy_reinforcement_rate_same_faith", kinds: ModifKinds { bits: MODIF_CHARACTER }, shape: ModifShape::Numeric }),
        205 => Some(Modif { name: "levy_reinforcement_rate_same_faith_even_if_baron", kinds: ModifKinds { bits: MODIF_CHARACTER }, shape: ModifShape::Numeric }),
        206 => Some(Modif { name: "long_reign_bonus_mult", kinds: ModifKinds { bits: MODIF_CHARACTER }, shape: ModifShape::Numeric }),
        207 => Some(Modif { name: "max_loot_mult", kinds: ModifKinds { bits: MODIF_CHARACTER }, shape: ModifShape::Numeric }),
        208 => Some(Modif { name: "men_at_arms_cap", kinds: ModifKinds { bits: MODIF_CHARACTER }, shape: ModifShape::Numeric }),
        209 => Some(Modif { name: "men_at_arms_limit", kinds: ModifKinds { bits: MODIF_CHARACTER }, shape: ModifShape::Numeric }),
        210 => Some(Modif { name: "men_at_arms_maintenance", kinds: ModifKinds { bits: MODIF_CHARACTER }, shape: ModifShape::Numeric }),
        211 => Some(Modif { name: "men_at_arms_maintenance_per_dread_mult", kinds: ModifKinds { bits: MODIF_CHARACTER }, shape: ModifShape::Numeric }),
        212 => Some(Modif { name: "men_at_arms_recruitment_cost", kinds: ModifKinds { bits: MODIF_CHARACTER }, shape: ModifShape::Numeric }),
        213 => Some(Modif { name: "monthly_county_control_change_add_even_if_baron", kinds: ModifKinds { bits: MODIF_CHARACTER }, shape: ModifShape::Numeric }),
        214 => Some(Modif { name: "monthly_county_control_change_factor_even_if_baron", kinds: ModifKinds { bits: MODIF_CHARACTER }, shape: ModifShape::Numeric }),
        215 => Some(Modif { name: "", kinds: ModifKinds { bits: MODIF_CHARACTER }, shape: ModifShape::LifestyleXp }),
        216 => Some(Modif { name: "monthly_lifestyle_xp_gain_mult", kinds: ModifKinds { bits: MODIF_CHARACTER }, shape: ModifShape::Numeric }),
        217 => Some(Modif { name: "monthly_dynasty_prestige", kinds: ModifKinds { bits: MODIF_CHARACTER }, shape: ModifShape::Numeric }),
        218 => Some(Modif { name: "monthly_dynasty_prestige_mult", kinds: ModifKinds { bits: MODIF_CHARACTER }, shape: ModifShape::Numeric }),
        219 => Some(Modif { name: "monthly_income_mult", kinds: ModifKinds { bits: MODIF_CHARACTER }, shape: ModifShape::Numeric }),
        220 => Some(Modif { name: "monthly_income_per_stress_level_add", kinds: ModifKinds { bits: MODIF_CHARACTER }, shape: ModifShape::Numeric }),
        221 => Some(Modif { name: "monthly_income_per_stress_level_mult", kinds: ModifKinds { bits: MODIF_CHARACTER }, shape: ModifShape::Numeric }),
        222 => Some(Modif { name: "monthly_piety", kinds: ModifKinds { bits: MODIF_CHARACTER }, shape: ModifShape::Numeric }),
        223 => Some(Modif { name: "monthly_piety_from_buildings_mult", kinds: ModifKinds { bits: MODIF_CHARACTER }, shape: ModifShape::Numeric }),
        224 => Some(Modif { name: "monthly_piety_gain_mult", kinds: ModifKinds { bits: MODIF_CHARACTER }, shape: ModifShape::Numeric }),
        225 => Some(Modif { name: "monthly_piety_gain_per_dread_add", kinds: ModifKinds { bits: MODIF_CHARACTER }, shape: ModifShape::Numeric }),
        226 => Some(Modif { name: "monthly_piety_gain_per_dread_mult", kinds: ModifKinds { bits: MODIF_CHARACTER }, shape: ModifShape::Numeric }),
        227 => Some(Modif { name: "monthly_piety_gain_per_happy_powerful_vassal_add", kinds: ModifKinds { bits: MODIF_CHARACTER }, shape: ModifShape::Numeric }),
        228 => Some(Modif { name: "monthly_piety_gain_per_happy_powerful_vassal_mult", kinds: ModifKinds { bits: MODIF_CHARACTER }, shape: ModifShape::Numeric }),
        229 => Some(Modif { name: "monthly_piety_gain_per_knight_add", kinds: ModifKinds { bits: MODIF_CHARACTER }, shape: ModifShape::Numeric }),
        230 => Some(Modif { name: "monthly_piety_gain_per_knight_mult", kinds: ModifKinds { bits: MODIF_CHARACTER }, shape: ModifShape::Numeric }),
        231 => Some(Modif { name: "monthly_prestige", kinds: ModifKinds { bits: MODIF_CHARACTER }, shape: ModifShape::Numeric }),
        232 => Some(Modif { name: "monthly_prestige_from_buildings_mult", kinds: ModifKinds { bits: MODIF_CHARACTER }, shape: ModifShape::Numeric }),
        233 => Some(Modif { name: "monthly_prestige_gain_mult", kinds: ModifKinds { bits: MODIF_CHARACTER }, shape: ModifShape::Numeric }),
        234 => Some(Modif { name: "monthly_prestige_gain_per_dread_add", kinds: ModifKinds { bits: MODIF_CHARACTER }, shape: ModifShape::Numeric }),
        235 => Some(Modif { name: "monthly_prestige_gain_per_dread_mult", kinds: ModifKinds { bits: MODIF_CHARACTER }, shape: ModifShape::Numeric }),
        236 => Some(Modif { name: "monthly_prestige_gain_per_happy_powerful_vassal_add", kinds: ModifKinds { bits: MODIF_CHARACTER }, shape: ModifShape::Numeric }),
        237 => Some(Modif { name: "monthly_prestige_gain_per_happy_powerful_vassal_mult", kinds: ModifKinds { bits: MODIF_CHARACTER }, shape: ModifShape::Numeric }),
        238 => Some(Modif { name: "monthly_prestige_gain_per_knight_add", kinds: ModifKinds { bits: MODIF_CHARACTER }, shape: ModifShape::Numeric }),
        239 => Some(Modif { name: "monthly_prestige_gain_per_knight_mult", kinds: ModifKinds { bits: MODIF_CHARACTER }, shape: ModifShape::Numeric }),
        240 => Some(Modif { name: "monthly_tyranny", kinds: ModifKinds { bits: MODIF_CHARACTER }, shape: ModifShape::Numeric }),
        241 => Some(Modif { name: "monthly_war_income_add", kinds: ModifKinds { bits: MODIF_CHARACTER }, shape: ModifShape::Numeric }),
        242 => Some(Modif { name: "monthly_war_income_mult", kinds: ModifKinds { bits: MODIF_CHARACTER }, shape: ModifShape::Numeric }),
        243 => Some(Modif { name: "movement_speed", kinds: ModifKinds { bits: MODIF_CHARACTER }, shape: ModifShape::Numeric }),
        244 => Some(Modif { name: "naval_movement_speed_mult", kinds: ModifKinds { bits: MODIF_CHARACTER }, shape: ModifShape::Numeric }),
        245 => Some(Modif { name: "raid_speed", kinds: ModifKinds { bits: MODIF_CHARACTER }, shape: ModifShape::Numeric }),
        246 => Some(Modif { name: "winter_movement_speed", kinds: ModifKinds { bits: MODIF_CHARACTER }, shape: ModifShape::Numeric }),
        247 => Some(Modif { name: "no_disembark_penalty", kinds: ModifKinds { bits: MODIF_CHARACTER }, shape: ModifShape::Bool }),
        248 => Some(Modif { name: "no_prowess_loss_from_age", kinds: ModifKinds { bits: MODIF_CHARACTER }, shape: ModifShape::Bool }),
        249 => Some(Modif { name: "no_water_crossing_penalty", kinds: ModifKinds { bits: MODIF_CHARACTER }, shape: ModifShape::Bool }),
        250 => Some(Modif { name: "opinion_of_different_culture", kinds: ModifKinds { bits: MODIF_CHARACTER }, shape: ModifShape::Numeric }),
        251 => Some(Modif { name: "opinion_of_different_faith", kinds: ModifKinds { bits: MODIF_CHARACTER }, shape: ModifShape::Numeric }),
        252 => Some(Modif { name: "opinion_of_different_faith_liege", kinds: ModifKinds { bits: MODIF_CHARACTER }, shape: ModifShape::Numeric }),
        253 => Some(Modif { name: "opinion_of_female_rulers", kinds: ModifKinds { bits: MODIF_CHARACTER }, shape: ModifShape::Numeric }),
        254 => Some(Modif { name: "opinion_of_liege", kinds: ModifKinds { bits: MODIF_CHARACTER }, shape: ModifShape::Numeric }),
        255 => Some(Modif { name: "opinion_of_male_rulers", kinds: ModifKinds { bits: MODIF_CHARACTER }, shape: ModifShape::Numeric }),
        256 => Some(Modif { name: "opinion_of_parents", kinds: ModifKinds { bits: MODIF_CHARACTER }, shape: ModifShape::Numeric }),
        257 => Some(Modif { name: "opinion_of_same_culture", kinds: ModifKinds { bits: MODIF_CHARACTER }, shape: ModifShape::Numeric }),
        258 => Some(Modif { name: "opinion_of_same_faith", kinds: ModifKinds { bits: MODIF_CHARACTER }, shape: ModifShape::Numeric }),
        259 => Some(Modif { name: "opinion_of_vassal", kinds: ModifKinds { bits: MODIF_CHARACTER }, shape: ModifShape::Numeric }),
        260 => Some(Modif { name: "piety_level_impact_mult", kinds: ModifKinds { bits: MODIF_CHARACTER }, shape: ModifShape::Numeric }),
        261 => Some(Modif { name: "prestige_level_impact_mult", kinds: ModifKinds { bits: MODIF_CHARACTER }, shape: ModifShape::Numeric }),
        262 => Some(Modif { name: "random_skills_per_child", kinds: ModifKinds { bits: MODIF_CHARACTER }, shape: ModifShape::Numeric }),
        263 => Some(Modif { name: "revolting_siege_morale_loss_add", kinds: ModifKinds { bits: MODIF_CHARACTER }, shape: ModifShape::Numeric }),
        264 => Some(Modif { name: "revolting_siege_morale_loss_mult", kinds: ModifKinds { bits: MODIF_CHARACTER }, shape: ModifShape::Numeric }),
        265 => Some(Modif { name: "siege_morale_loss", kinds: ModifKinds { bits: MODIF_CHARACTER }, shape: ModifShape::Numeric }),
        266 => Some(Modif { name: "siege_phase_time", kinds: ModifKinds { bits: MODIF_CHARACTER }, shape: ModifShape::Numeric }),
        267 => Some(Modif { name: "short_reign_duration_mult", kinds: ModifKinds { bits: MODIF_CHARACTER }, shape: ModifShape::Numeric }),
        268 => Some(Modif { name: "stress_gain_mult", kinds: ModifKinds { bits: MODIF_CHARACTER }, shape: ModifShape::Numeric }),
        269 => Some(Modif { name: "stress_loss_mult", kinds: ModifKinds { bits: MODIF_CHARACTER }, shape: ModifShape::Numeric }),
        270 => Some(Modif { name: "supply_capacity_add", kinds: ModifKinds { bits: MODIF_CHARACTER }, shape: ModifShape::Numeric }),
        271 => Some(Modif { name: "supply_capacity_mult", kinds: ModifKinds { bits: MODIF_CHARACTER }, shape: ModifShape::Numeric }),
        272 => Some(Modif { name: "supply_duration", kinds: ModifKinds { bits: MODIF_CHARACTER }, shape: ModifShape::Numeric }),
        273 => Some(Modif { name: "title_creation_cost", kinds: ModifKinds { bits: MODIF_CHARACTER }, shape: ModifShape::Numeric }),
        274 => Some(Modif { name: "title_creation_cost_mult", kinds: ModifKinds { bits: MODIF_CHARACTER }, shape: ModifShape::Numeric }),
        275 => Some(Modif { name: "tolerance_advantage_mod", kinds: ModifKinds { bits: MODIF_CHARACTER }, shape: ModifShape::Numeric }),
        276 => Some(Modif { name: "tyranny_gain_mult", kinds: ModifKinds { bits: MODIF_CHARACTER }, shape: ModifShape::Numeric }),
        277 => Some(Modif { name: "tyranny_loss_mult", kinds: ModifKinds { bits: MODIF_CHARACTER }, shape: ModifShape::Numeric }),
        278 => Some(Modif { name: "vassal_limit", kinds: ModifKinds { bits: MODIF_CHARACTER }, shape: ModifShape::Numeric }),
        279 => Some(Modif { name: "vassal_tax_mult", kinds: ModifKinds { bits: MODIF_CHARACTER }, shape: ModifShape::Numeric }),
        280 => Some(Modif { name: "county_opinion_add", kinds: ModifKinds { bits: MODIF_CHARACTER | MODIF_COUNTY }, shape: ModifShape::Numeric }),
        281 => Some(Modif { name: "monthly_income", kinds: ModifKinds { bits: MODIF_CHARACTER | MODIF_PROVINCE }, shape: ModifShape::Numeric }),
        282 => Some(Modif { name: "counter_efficiency", kinds: ModifKinds { bits: MODIF_CHARACTER | MODIF_TERRAIN }, shape: ModifShape::Numeric }),
        283 => Some(Modif { name: "enemy_hard_casualty_modifier", kinds: ModifKinds { bits: MODIF_CHARACTER | MODIF_TERRAIN }, shape: ModifShape::Numeric }),
        284 => Some(Modif { name: "hard_casualty_modifier", kinds: ModifKinds { bits: MODIF_CHARACTER | MODIF_TERRAIN }, shape: ModifShape::Numeric }),
        285 => Some(Modif { name: "pursue_efficiency", kinds: ModifKinds { bits: MODIF_CHARACTER | MODIF_TERRAIN }, shape: ModifShape::Numeric }),
        286 => Some(Modif { name: "retreat_losses", kinds: ModifKinds { bits: MODIF_CHARACTER | MODIF_TERRAIN }, shape: ModifShape::Numeric }),
        287 => Some(Modif { name: "additional_fort_level", kinds: ModifKinds { bits: MODIF_CHARACTER | MODIF_COUNTY | MODIF_PROVINCE }, shape: ModifShape::Numeric }),
        288 => Some(Modif { name: "artifact_decay_reduction_mult", kinds: ModifKinds { bits: MODIF_CHARACTER | MODIF_COUNTY | MODIF_PROVINCE }, shape: ModifShape::Numeric }),
        289 => Some(Modif { name: "build_gold_cost", kinds: ModifKinds { bits: MODIF_CHARACTER | MODIF_COUNTY | MODIF_PROVINCE }, shape: ModifShape::Numeric }),
        290 => Some(Modif { name: "build_piety_cost", kinds: ModifKinds { bits: MODIF_CHARACTER | MODIF_COUNTY | MODIF_PROVINCE }, shape: ModifShape::Numeric }),
        291 => Some(Modif { name: "build_prestige_cost", kinds: ModifKinds { bits: MODIF_CHARACTER | MODIF_COUNTY | MODIF_PROVINCE }, shape: ModifShape::Numeric }),
        292 => Some(Modif { name: "build_speed", kinds: ModifKinds { bits: MODIF_CHARACTER | MODIF_COUNTY | MODIF_PROVINCE }, shape: ModifShape::Numeric }),
        293 => Some(Modif { name: "holding_build_gold_cost", kinds: ModifKinds { bits: MODIF_CHARACTER | MODIF_COUNTY | MODIF_PROVINCE }, shape: ModifShape::Numeric }),
        294 => Some(Modif { name: "holding_build_piety_cost", kinds: ModifKinds { bits: MODIF_CHARACTER | MODIF_COUNTY | MODIF_PROVINCE }, shape: ModifShape::Numeric }),
        295 => Some(Modif { name: "holding_build_prestige_cost", kinds: ModifKinds { bits: MODIF_CHARACTER | MODIF_COUNTY | MODIF_PROVINCE }, shape: ModifShape::Numeric }),
        296 => Some(Modif { name: "holding_build_speed", kinds: ModifKinds { bits: MODIF_CHARACTER | MODIF_COUNTY | MODIF_PROVINCE }, shape: ModifShape::Numeric }),
        297 => Some(Modif { name: "castle_holding_build_gold_cost", kinds: ModifKinds { bits: MODIF_CHARACTER | MODIF_COUNTY | MODIF_PROVINCE }, shape: ModifShape::Numeric }),
        298 => Some(Modif { name: "castle_holding_build_piety_cost", kinds: ModifKinds { bits: MODIF_CHARACTER | MODIF_COUNTY | MODIF_PROVINCE }, shape: ModifShape::Numeric }),
        299 => Some(Modif { name: "castle_holding_build_prestige_cost", kinds: ModifKinds { bits: MODIF_CHARACTER | MODIF_COUNTY | MODIF_PROVINCE }, shape: ModifShape::Numeric }),
        300 => Some(Modif { name: "castle_holding_build_speed", kinds: ModifKinds { bits: MODIF_CHARACTER | MODIF_COUNTY | MODIF_PROVINCE }, shape: ModifShape::Numeric }),
        301 => Some(Modif { name: "castle_holding_holding_build_gold_cost", kinds: ModifKinds { bits: MODIF_CHARACTER | MODIF_COUNTY | MODIF_PROVINCE }, shape: ModifShape::Numeric }),
        302 => Some(Modif { name: "castle_holding_holding_build_piety_cost", kinds: ModifKinds { bits: MODIF_CHARACTER | MODIF_COUNTY | MODIF_PROVINCE }, shape: ModifShape::Numeric }),
        303 => Some(Modif { name: "castle_holding_holding_build_prestige_cost", kinds: ModifKinds { bits: MODIF_CHARACTER | MODIF_COUNTY | MODIF_PROVINCE }, shape: ModifShape::Numeric }),
        304 => Some(Modif { name: "castle_holding_holding_build_speed", kinds: ModifKinds { bits: MODIF_CHARACTER | MODIF_COUNTY | MODIF_PROVINCE }, shape: ModifShape::Numeric }),
        305 => Some(Modif { name: "church_holding_build_gold_cost", kinds: ModifKinds { bits: MODIF_CHARACTER | MODIF_COUNTY | MODIF_PROVINCE }, shape: ModifShape::Numeric }),
        306 => Some(Modif { name: "church_holding_build_piety_cost", kinds: ModifKinds { bits: MODIF_CHARACTER | MODIF_COUNTY | MODIF_PROVINCE }, shape: ModifShape::Numeric }),
        307 => Some(Modif { name: "church_holding_build_prestige_cost", kinds: ModifKinds { bits: MODIF_CHARACTER | MODIF_COUNTY | MODIF_PROVINCE }, shape: ModifShape::Numeric }),
        308 => Some(Modif { name: "church_holding_build_speed", kinds: ModifKinds { bits: MODIF_CHARACTER | MODIF_COUNTY | MODIF_PROVINCE }, shape: ModifShape::Numeric }),
        309 => Some(Modif { name: "church_holding_holding_build_gold_cost", kinds: ModifKinds { bits: MODIF_CHARACTER | MODIF_COUNTY | MODIF_PROVINCE }, shape: ModifShape::Numeric }),
        310 => Some(Modif { name: "church_holding_holding_build_piety_cost", kinds: ModifKinds { bits: MODIF_CHARACTER | MODIF_COUNTY | MODIF_PROVINCE }, shape: ModifShape::Numeric }),
        311 => Some(Modif { name: "church_holding_holding_build_prestige_cost", kinds: ModifKinds { bits: MODIF_CHARACTER | MODIF_COUNTY | MODIF_PROVINCE }, shape: ModifShape::Numeric }),
        312 => Some(Modif { name: "church_holding_holding_build_speed", kinds: ModifKinds { bits: MODIF_CHARACTER | MODIF_COUNTY | MODIF_PROVINCE }, shape: ModifShape::Numeric }),
        313 => Some(Modif { name: "city_holding_build_gold_cost", kinds: ModifKinds { bits: MODIF_CHARACTER | MODIF_COUNTY | MODIF_PROVINCE }, shape: ModifShape::Numeric }),
        314 => Some(Modif { name: "city_holding_build_piety_cost", kinds: ModifKinds { bits: MODIF_CHARACTER | MODIF_COUNTY | MODIF_PROVINCE }, shape: ModifShape::Numeric }),
        315 => Some(Modif { name: "city_holding_build_prestige_cost", kinds: ModifKinds { bits: MODIF_CHARACTER | MODIF_COUNTY | MODIF_PROVINCE }, shape: ModifShape::Numeric }),
        316 => Some(Modif { name: "city_holding_build_speed", kinds: ModifKinds { bits: MODIF_CHARACTER | MODIF_COUNTY | MODIF_PROVINCE }, shape: ModifShape::Numeric }),
        317 => Some(Modif { name: "city_holding_holding_build_gold_cost", kinds: ModifKinds { bits: MODIF_CHARACTER | MODIF_COUNTY | MODIF_PROVINCE }, shape: ModifShape::Numeric }),
        318 => Some(Modif { name: "city_holding_holding_build_piety_cost", kinds: ModifKinds { bits: MODIF_CHARACTER | MODIF_COUNTY | MODIF_PROVINCE }, shape: ModifShape::Numeric }),
        319 => Some(Modif { name: "city_holding_holding_build_prestige_cost", kinds: ModifKinds { bits: MODIF_CHARACTER | MODIF_COUNTY | MODIF_PROVINCE }, shape: ModifShape::Numeric }),
        320 => Some(Modif { name: "city_holding_holding_build_speed", kinds: ModifKinds { bits: MODIF_CHARACTER | MODIF_COUNTY | MODIF_PROVINCE }, shape: ModifShape::Numeric }),
        321 => Some(Modif { name: "tribal_holding_build_gold_cost", kinds: ModifKinds { bits: MODIF_CHARACTER | MODIF_COUNTY | MODIF_PROVINCE }, shape: ModifShape::Numeric }),
        322 => Some(Modif { name: "tribal_holding_build_piety_cost", kinds: ModifKinds { bits: MODIF_CHARACTER | MODIF_COUNTY | MODIF_PROVINCE }, shape: ModifShape::Numeric }),
        323 => Some(Modif { name: "tribal_holding_build_prestige_cost", kinds: ModifKinds { bits: MODIF_CHARACTER | MODIF_COUNTY | MODIF_PROVINCE }, shape: ModifShape::Numeric }),
        324 => Some(Modif { name: "tribal_holding_build_speed", kinds: ModifKinds { bits: MODIF_CHARACTER | MODIF_COUNTY | MODIF_PROVINCE }, shape: ModifShape::Numeric }),
        325 => Some(Modif { name: "tribal_holding_holding_build_gold_cost", kinds: ModifKinds { bits: MODIF_CHARACTER | MODIF_COUNTY | MODIF_PROVINCE }, shape: ModifShape::Numeric }),
        326 => Some(Modif { name: "tribal_holding_holding_build_piety_cost", kinds: ModifKinds { bits: MODIF_CHARACTER | MODIF_COUNTY | MODIF_PROVINCE }, shape: ModifShape::Numeric }),
        327 => Some(Modif { name: "tribal_holding_holding_build_prestige_cost", kinds: ModifKinds { bits: MODIF_CHARACTER | MODIF_COUNTY | MODIF_PROVINCE }, shape: ModifShape::Numeric }),
        328 => Some(Modif { name: "tribal_holding_holding_build_speed", kinds: ModifKinds { bits: MODIF_CHARACTER | MODIF_COUNTY | MODIF_PROVINCE }, shape: ModifShape::Numeric }),
        329 => Some(Modif { name: "defender_holding_advantage", kinds: ModifKinds { bits: MODIF_CHARACTER | MODIF_COUNTY | MODIF_PROVINCE }, shape: ModifShape::Numeric }),
        330 => Some(Modif { name: "", kinds: ModifKinds { bits: MODIF_CHARACTER | MODIF_COUNTY | MODIF_PROVINCE }, shape: ModifShape::TerrainProvince }),
        331 => Some(Modif { name: "development_growth", kinds: ModifKinds { bits: MODIF_CHARACTER | MODIF_COUNTY | MODIF_PROVINCE }, shape: ModifShape::Numeric }),
        332 => Some(Modif { name: "development_growth_factor", kinds: ModifKinds { bits: MODIF_CHARACTER | MODIF_COUNTY | MODIF_PROVINCE }, shape: ModifShape::Numeric }),
        333 => Some(Modif { name: "fort_level", kinds: ModifKinds { bits: MODIF_CHARACTER | MODIF_COUNTY | MODIF_PROVINCE }, shape: ModifShape::Numeric }),
        334 => Some(Modif { name: "garrison_size", kinds: ModifKinds { bits: MODIF_CHARACTER | MODIF_COUNTY | MODIF_PROVINCE }, shape: ModifShape::Numeric }),
        335 => Some(Modif { name: "hostile_raid_time", kinds: ModifKinds { bits: MODIF_CHARACTER | MODIF_COUNTY | MODIF_PROVINCE }, shape: ModifShape::Numeric }),
        336 => Some(Modif { name: "levy_reinforcement_rate", kinds: ModifKinds { bits: MODIF_CHARACTER | MODIF_COUNTY | MODIF_PROVINCE }, shape: ModifShape::Numeric }),
        337 => Some(Modif { name: "levy_reinforcement_rate_friendly_territory", kinds: ModifKinds { bits: MODIF_CHARACTER | MODIF_COUNTY | MODIF_PROVINCE }, shape: ModifShape::Numeric }),
        338 => Some(Modif { name: "levy_size", kinds: ModifKinds { bits: MODIF_CHARACTER | MODIF_COUNTY | MODIF_PROVINCE }, shape: ModifShape::Numeric }),
        339 => Some(Modif { name: "monthly_county_control_change_add", kinds: ModifKinds { bits: MODIF_CHARACTER | MODIF_COUNTY | MODIF_PROVINCE }, shape: ModifShape::Numeric }),
        340 => Some(Modif { name: "monthly_county_control_change_factor", kinds: ModifKinds { bits: MODIF_CHARACTER | MODIF_COUNTY | MODIF_PROVINCE }, shape: ModifShape::Numeric }),
        341 => Some(Modif { name: "monthly_county_control_change_at_war_add", kinds: ModifKinds { bits: MODIF_CHARACTER | MODIF_COUNTY | MODIF_PROVINCE }, shape: ModifShape::Numeric }),
        342 => Some(Modif { name: "monthly_county_control_change_at_war_mult", kinds: ModifKinds { bits: MODIF_CHARACTER | MODIF_COUNTY | MODIF_PROVINCE }, shape: ModifShape::Numeric }),
        343 => Some(Modif { name: "supply_limit", kinds: ModifKinds { bits: MODIF_CHARACTER | MODIF_COUNTY | MODIF_PROVINCE }, shape: ModifShape::Numeric }),
        344 => Some(Modif { name: "supply_limit_mult", kinds: ModifKinds { bits: MODIF_CHARACTER | MODIF_COUNTY | MODIF_PROVINCE }, shape: ModifShape::Numeric }),
        345 => Some(Modif { name: "tax_mult", kinds: ModifKinds { bits: MODIF_CHARACTER | MODIF_COUNTY | MODIF_PROVINCE }, shape: ModifShape::Numeric }),
        346 => Some(Modif { name: "supply_limit_mult", kinds: ModifKinds { bits: MODIF_CHARACTER | MODIF_COUNTY | MODIF_PROVINCE }, shape: ModifShape::Numeric }),
        347 => Some(Modif { name: "world_innovation_camels_development_growth", kinds: ModifKinds { bits: MODIF_CHARACTER | MODIF_COUNTY | MODIF_PROVINCE }, shape: ModifShape::Numeric }),
        348 => Some(Modif { name: "world_innovation_camels_development_growth_factor", kinds: ModifKinds { bits: MODIF_CHARACTER | MODIF_COUNTY | MODIF_PROVINCE }, shape: ModifShape::Numeric }),
        349 => Some(Modif { name: "world_innovation_elephants_development_growth", kinds: ModifKinds { bits: MODIF_CHARACTER | MODIF_COUNTY | MODIF_PROVINCE }, shape: ModifShape::Numeric }),
        350 => Some(Modif { name: "world_innovation_elephants_development_growth_factor", kinds: ModifKinds { bits: MODIF_CHARACTER | MODIF_COUNTY | MODIF_PROVINCE }, shape: ModifShape::Numeric }),
        351 => Some(Modif { name: "world_steppe_development_growth", kinds: ModifKinds { bits: MODIF_CHARACTER | MODIF_COUNTY | MODIF_PROVINCE }, shape: ModifShape::Numeric }),
        352 => Some(Modif { name: "world_steppe_development_growth_factor", kinds: ModifKinds { bits: MODIF_CHARACTER | MODIF_COUNTY | MODIF_PROVINCE }, shape: ModifShape::Numeric }),
        353 => Some(Modif { name: "cultural_acceptance_gain_mult", kinds: ModifKinds { bits: MODIF_CULTURE }, shape: ModifShape::Numeric }),
        354 => Some(Modif { name: "culture_tradition_max_add", kinds: ModifKinds { bits: MODIF_CULTURE }, shape: ModifShape::Numeric }),
        355 => Some(Modif { name: "mercenary_count_mult", kinds: ModifKinds { bits: MODIF_CULTURE }, shape: ModifShape::Numeric }),
        356 => Some(Modif { name: "defender_winter_advantage", kinds: ModifKinds { bits: MODIF_PROVINCE }, shape: ModifShape::Numeric }),
        357 => Some(Modif { name: "hard_casualty_winter", kinds: ModifKinds { bits: MODIF_PROVINCE }, shape: ModifShape::Numeric }),
        358 => Some(Modif { name: "supply_loss_winter", kinds: ModifKinds { bits: MODIF_PROVINCE }, shape: ModifShape::Numeric }),
        359 => Some(Modif { name: "scheme_power", kinds: ModifKinds { bits: MODIF_SCHEME }, shape: ModifShape::Numeric }),
        360 => Some(Modif { name: "scheme_resistance", kinds: ModifKinds { bits: MODIF_SCHEME }, shape: ModifShape::Numeric }),
        361 => Some(Modif { name: "scheme_secrecy", kinds: ModifKinds { bits: MODIF_SCHEME }, shape: ModifShape::Numeric }),
        362 => Some(Modif { name: "scheme_success_chance", kinds: ModifKinds { bits: MODIF_SCHEME }, shape: ModifShape::Numeric }),
        _ => None,
    }
}

/// Row `i` of the table of modifier fields.
pub fn modif(i: usize) -> (r: Option<Modif>)
    ensures
        r == spec_modif(i),
        i < MODIF_COUNT ==> r is Some,
{
    match i {
        0 => Some(Modif { name: "hostile_scheme_power_add", kinds: ModifKinds { bits: MODIF_CHARACTER }, shape: ModifShape::Numeric }),
        1 => Some(Modif { name: "hostile_scheme_power_mult", kinds: ModifKinds { bits: MODIF_CHARACTER }, shape: ModifShape::Numeric }),
        2 => Some(Modif { name: "hostile_scheme_resistance_add", kinds: ModifKinds { bits: MODIF_CHARACTER }, shape: ModifShape::Numeric }),
        3 => Some(Modif { name: "hostile_scheme_resistance_mult", kinds: ModifKinds { bits: MODIF_CHARACTER }, shape: ModifShape::Numeric }),
        4 => Some(Modif { name: "max_hostile_schemes_add", kinds: ModifKinds { bits: MODIF_CHARACTER }, shape: ModifShape::Numeric }),
        5 => Some(Modif { name: "owned_hostile_scheme_success_chance_add", kinds: ModifKinds { bits: MODIF_CHARACTER }, shape: ModifShape::Numeric }),
        6 => Some(Modif { name: "personal_scheme_power_add", kinds: ModifKinds { bits: MODIF_CHARACTER }, shape: ModifShape::Numeric }),
        7 => Some(Modif { name: "personal_scheme_power_mult", kinds: ModifKinds { bits: MODIF_CHARACTER }, shape: ModifShape::Numeric }),
        8 => Some(Modif { name: "personal_scheme_resistance_add", kinds: ModifKinds { bits: MODIF_CHARACTER }, shape: ModifShape::Numeric }),
        9 => Some(Modif { name: "personal_scheme_resistance_mult", kinds: ModifKinds { bits: MODIF_CHARACTER }, shape: ModifShape::Numeric }),
        10 => Some(Modif { name: "max_personal_schemes_add", kinds: ModifKinds { bits: MODIF_CHARACTER }, shape: ModifShape::Numeric }),
        11 => Some(Modif { name: "owned_personal_scheme_success_chance_add", kinds: ModifKinds { bits: MODIF_CHARACTER }, shape: ModifShape::Numeric }),
        12 => Some(Modif { name: "owned_scheme_secrecy_add", kinds: ModifKinds { bits: MODIF_CHARACTER }, shape: ModifShape::Numeric }),
        13 => Some(Modif { name: "scheme_discovery_chance_mult", kinds: ModifKinds { bits: MODIF_CHARACTER }, shape: ModifShape::Numeric }),
        14 => Some(Modif { name: "ai_amenity_spending", kinds: ModifKinds { bits: MODIF_CHARACTER }, shape: ModifShape::Numeric }),
        15 => Some(Modif { name: "ai_amenity_target_baseline", kinds: ModifKinds { bits: MODIF_CHARACTER }, shape: ModifShape::Numeric }),
        16 => Some(Modif { name: "ai_boldness", kinds: ModifKinds { bits: MODIF_CHARACTER }, shape: ModifShape::ScriptValue }),
        17 => Some(Modif { name: "ai_compassion", kinds: ModifKinds { bits: MODIF_CHARACTER }, shape: ModifShape::ScriptValue }),
        18 => Some(Modif { name: "ai_energy", kinds: ModifKinds { bits: MODIF_CHARACTER }, shape: ModifShape::ScriptValue }),
        19 => Some(Modif { name: "ai_greed", kinds: ModifKinds { bits: MODIF_CHARACTER }, shape: ModifShape::ScriptValue }),
        20 => Some(Modif { name: "ai_honor", kinds: ModifKinds { bits: MODIF_CHARACTER }, shape: ModifShape::ScriptValue }),
        21 => Some(Modif { name: "ai_rationality", kinds: ModifKinds { bits: MODIF_CHARACTER }, shape: ModifShape::ScriptValue }),
        22 => Some(Modif { name: "ai_sociability", kinds: ModifKinds { bits: MODIF_CHARACTER }, shape: ModifShape::ScriptValue }),
        23 => Some(Modif { name: "ai_vengefulness", kinds: ModifKinds { bits: MODIF_CHARACTER }, shape: ModifShape::ScriptValue }),
        24 => Some(Modif { name: "ai_zeal", kinds: ModifKinds { bits: MODIF_CHARACTER }, shape: ModifShape::ScriptValue }),
        25 => Some(Modif { name: "ai_war_chance", kinds: ModifKinds { bits: MODIF_CHARACTER }, shape: ModifShape::Numeric }),
        26 => Some(Modif { name: "ai_war_cooldown", kinds: ModifKinds { bits: MODIF_CHARACTER }, shape: ModifShape::Numeric }),
        27 => Some(Modif { name: "army_damage_mult", kinds: ModifKinds { bits: MODIF_CHARACTER }, shape: ModifShape::Numeric }),
        28 => Some(Modif { name: "army_maintenance_mult", kinds: ModifKinds { bits: MODIF_CHARACTER }, shape: ModifShape::Numeric }),
        29 => Some(Modif { name: "army_pursuit_mult", kinds: ModifKinds { bits: MODIF_CHARACTER }, shape: ModifShape::Numeric }),
        30 => Some(Modif { name: "army_screen_mult", kinds: ModifKinds { bits: MODIF_CHARACTER }, shape: ModifShape::Numeric }),
        31 => Some(Modif { name: "army_siege_value_mult", kinds: ModifKinds { bits: MODIF_CHARACTER }, shape: ModifShape::Numeric }),
        32 => Some(Modif { name: "army_toughness_mult", kinds: ModifKinds { bits: MODIF_CHARACTER }, shape: ModifShape::Numeric }),
        33 => Some(Modif { name: "advantage", kinds: ModifKinds { bits: MODIF_CHARACTER }, shape: ModifShape::Numeric }),
        34 => Some(Modif { name: "advantage_against_coreligionists", kinds: ModifKinds { bits: MODIF_CHARACTER }, shape: ModifShape::Numeric }),
        35 => Some(Modif { name: "attacker_advantage", kinds: ModifKinds { bits: MODIF_CHARACTER }, shape: ModifShape::Numeric }),
        36 => Some(Modif { name: "coastal_advantage", kinds: ModifKinds { bits: MODIF_CHARACTER }, shape: ModifShape::Numeric }),
        37 => Some(Modif { name: "controlled_province_advantage", kinds: ModifKinds { bits: MODIF_CHARACTER }, shape: ModifShape::Numeric }),
        38 => Some(Modif { name: "defender_advantage", kinds: ModifKinds { bits: MODIF_CHARACTER }, shape: ModifShape::Numeric }),
        39 => Some(Modif { name: "enemy_terrain_advantage", kinds: ModifKinds { bits: MODIF_CHARACTER }, shape: ModifShape::Numeric }),
        40 => Some(Modif { name: "independent_primary_defender_advantage_add", kinds: ModifKinds { bits: MODIF_CHARACTER }, shape: ModifShape::Numeric }),
        41 => Some(Modif { name: "led_by_owner_extra_advantage_add", kinds: ModifKinds { bits: MODIF_CHARACTER }, shape: ModifShape::Numeric }),
        42 => Some(Modif { name: "random_advantage", kinds: ModifKinds { bits: MODIF_CHARACTER }, shape: ModifShape::Numeric }),
        43 => Some(Modif { name: "same_heritage_county_advantage_add", kinds: ModifKinds { bits: MODIF_CHARACTER }, shape: ModifShape::Numeric }),
        44 => Some(Modif { name: "winter_advantage", kinds: ModifKinds { bits: MODIF_CHARACTER }, shape: ModifShape::Numeric }),
        45 => Some(Modif { name: "", kinds: ModifKinds { bits: MODIF_CHARACTER }, shape: ModifShape::TerrainCharacter }),
        46 => Some(Modif { name: "max_combat_roll", kinds: ModifKinds { bits: MODIF_CHARACTER }, shape: ModifShape::Numeric }),
        47 => Some(Modif { name: "min_combat_roll", kinds: ModifKinds { bits: MODIF_CHARACTER }, shape: ModifShape::Numeric }),
        48 => Some(Modif { name: "", kinds: ModifKinds { bits: MODIF_CHARACTER }, shape: ModifShape::FaithOpinion }),
        49 => Some(Modif { name: "attraction_opinion", kinds: ModifKinds { bits: MODIF_CHARACTER }, shape: ModifShape::Numeric }),
        50 => Some(Modif { name: "child_except_player_heir_opinion", kinds: ModifKinds { bits: MODIF_CHARACTER }, shape: ModifShape::Numeric }),
        51 => Some(Modif { name: "child_opinion", kinds: ModifKinds { bits: MODIF_CHARACTER }, shape: ModifShape::Numeric }),
        52 => Some(Modif { name: "clergy_opinion", kinds: ModifKinds { bits: MODIF_CHARACTER }, shape: ModifShape::Numeric }),
        53 => Some(Modif { name: "close_relative_opinion", kinds: ModifKinds { bits: MODIF_CHARACTER }, shape: ModifShape::Numeric }),
        54 => Some(Modif { name: "councillor_opinion", kinds: ModifKinds { bits: MODIF_CHARACTER }, shape: ModifShape::Numeric }),
        55 => Some(Modif { name: "county_opinion_add_even_if_baron", kinds: ModifKinds { bits: MODIF_CHARACTER }, shape: ModifShape::Numeric }),
        56 => Some(Modif { name: "courtier_and_guest_opinion", kinds: ModifKinds { bits: MODIF_CHARACTER }, shape: ModifShape::Numeric }),
        57 => Some(Modif { name: "courtier_opinion", kinds: ModifKinds { bits: MODIF_CHARACTER }, shape: ModifShape::Numeric }),
        58 => Some(Modif { name: "different_culture_opinion", kinds: ModifKinds { bits: MODIF_CHARACTER }, shape: ModifShape::Numeric }),
        59 => Some(Modif { name: "different_faith_county_opinion_mult", kinds: ModifKinds { bits: MODIF_CHARACTER }, shape: ModifShape::Numeric }),
        60 => Some(Modif { name: "different_faith_county_opinion_mult_even_if_baron", kinds: ModifKinds { bits: MODIF_CHARACTER }, shape: ModifShape::Numeric }),
        61 => Some(Modif { name: "different_faith_liege_opinion", kinds: ModifKinds { bits: MODIF_CHARACTER }, shape: ModifShape::Numeric }),
        62 => Some(Modif { name: "different_faith_opinion", kinds: ModifKinds { bits: MODIF_CHARACTER }, shape: ModifShape::Numeric }),
        63 => Some(Modif { name: "direct_vassal_opinion", kinds: ModifKinds { bits: MODIF_CHARACTER }, shape: ModifShape::Numeric }),
        64 => Some(Modif { name: "dynasty_house_opinion", kinds: ModifKinds { bits: MODIF_CHARACTER }, shape: ModifShape::Numeric }),
        65 => Some(Modif { name: "dynasty_opinion", kinds: ModifKinds { bits: MODIF_CHARACTER }, shape: ModifShape::Numeric }),
        66 => Some(Modif { name: "eligible_child_except_player_heir_opinion", kinds: ModifKinds { bits: MODIF_CHARACTER }, shape: ModifShape::Numeric }),
        67 => Some(Modif { name: "eligible_child_opinion", kinds: ModifKinds { bits: MODIF_CHARACTER }, shape: ModifShape::Numeric }),
        68 => Some(Modif { name: "fellow_vassal_opinion", kinds: ModifKinds { bits: MODIF_CHARACTER }, shape: ModifShape::Numeric }),
        69 => Some(Modif { name: "general_opinion", kinds: ModifKinds { bits: MODIF_CHARACTER }, shape: ModifShape::Numeric }),
        70 => Some(Modif { name: "guest_opinion", kinds: ModifKinds { bits: MODIF_CHARACTER }, shape: ModifShape::Numeric }),
        71 => Some(Modif { name: "independent_ruler_opinion", kinds: ModifKinds { bits: MODIF_CHARACTER }, shape: ModifShape::Numeric }),
        72 => Some(Modif { name: "liege_opinion", kinds: ModifKinds { bits: MODIF_CHARACTER }, shape: ModifShape::Numeric }),
        73 => Some(Modif { name: "player_heir_opinion", kinds: ModifKinds { bits: MODIF_CHARACTER }, shape: ModifShape::Numeric }),
        74 => Some(Modif { name: "powerful_vassal_opinion", kinds: ModifKinds { bits: MODIF_CHARACTER }, shape: ModifShape::Numeric }),
        75 => Some(Modif { name: "prisoner_opinion", kinds: ModifKinds { bits: MODIF_CHARACTER }, shape: ModifShape::Numeric }),
        76 => Some(Modif { name: "realm_priest_opinion", kinds: ModifKinds { bits: MODIF_CHARACTER }, shape: ModifShape::Numeric }),
        77 => Some(Modif { name: "religious_head_opinion", kinds: ModifKinds { bits: MODIF_CHARACTER }, shape: ModifShape::Numeric }),
        78 => Some(Modif { name: "religious_vassal_opinion", kinds: ModifKinds { bits: MODIF_CHARACTER }, shape: ModifShape::Numeric }),
        79 => Some(Modif { name: "same_culture_opinion", kinds: ModifKinds { bits: MODIF_CHARACTER }, shape: ModifShape::Numeric }),
        80 => Some(Modif { name: "same_faith_opinion", kinds: ModifKinds { bits: MODIF_CHARACTER }, shape: ModifShape::Numeric }),
        81 => Some(Modif { name: "spouse_opinion", kinds: ModifKinds { bits: MODIF_CHARACTER }, shape: ModifShape::Numeric }),
        82 => Some(Modif { name: "twin_opinion", kinds: ModifKinds { bits: MODIF_CHARACTER }, shape: ModifShape::Numeric }),
        83 => Some(Modif { name: "vassal_opinion", kinds: ModifKinds { bits: MODIF_CHARACTER }, shape: ModifShape::Numeric }),
        84 => Some(Modif { name: "character_capital_county_monthly_development_growth_add", kinds: ModifKinds { bits: MODIF_CHARACTER }, shape: ModifShape::Numeric }),
        85 => Some(Modif { name: "cowed_vassal_levy_contribution_add", kinds: ModifKinds { bits: MODIF_CHARACTER }, shape: ModifShape::Numeric }),
        86 => Some(Modif { name: "cowed_vassal_levy_contribution_mult", kinds: ModifKinds { bits: MODIF_CHARACTER }, shape: ModifShape::Numeric }),
        87 => Some(Modif { name: "cowed_vassal_tax_contribution_add", kinds: ModifKinds { bits: MODIF_CHARACTER }, shape: ModifShape::Numeric }),
        88 => Some(Modif { name: "cowed_vassal_tax_contribution_mult", kinds: ModifKinds { bits: MODIF_CHARACTER }, shape: ModifShape::Numeric }),
        89 => Some(Modif { name: "happy_powerful_vassal_levy_contribution_add", kinds: ModifKinds { bits: MODIF_CHARACTER }, shape: ModifShape::Numeric }),
        90 => Some(Modif { name: "happy_powerful_vassal_levy_contribution_mult", kinds: ModifKinds { bits: MODIF_CHARACTER }, shape: ModifShape::Numeric }),
        91 => Some(Modif { name: "happy_powerful_vassal_tax_contribution_add", kinds: ModifKinds { bits: MODIF_CHARACTER }, shape: ModifShape::Numeric }),
        92 => Some(Modif { name: "happy_powerful_vassal_tax_contribution_mult", kinds: ModifKinds { bits: MODIF_CHARACTER }, shape: ModifShape::Numeric }),
        93 => Some(Modif { name: "intimidated_vassal_levy_contribution_add", kinds: ModifKinds { bits: MODIF_CHARACTER }, shape: ModifShape::Numeric }),
        94 => Some(Modif { name: "intimidated_vassal_levy_contribution_mult", kinds: ModifKinds { bits: MODIF_CHARACTER }, shape: ModifShape::Numeric }),
        95 => Some(Modif { name: "intimidated_vassal_tax_contribution_add", kinds: ModifKinds { bits: MODIF_CHARACTER }, shape: ModifShape::Numeric }),
        96 => Some(Modif { name: "intimidated_vassal_tax_contribution_mult", kinds: ModifKinds { bits: MODIF_CHARACTER }, shape: ModifShape::Numeric }),
        97 => Some(Modif { name: "vassal_levy_contribution_add", kinds: ModifKinds { bits: MODIF_CHARACTER }, shape: ModifShape::Numeric }),
        98 => Some(Modif { name: "vassal_levy_contribution_mult", kinds: ModifKinds { bits: MODIF_CHARACTER }, shape: ModifShape::Numeric }),
        99 => Some(Modif { name: "vassal_tax_contribution_add", kinds: ModifKinds { bits: MODIF_CHARACTER }, shape: ModifShape::Numeric }),
        100 => Some(Modif { name: "vassal_tax_contribution_mult", kinds: ModifKinds { bits: MODIF_CHARACTER }, shape: ModifShape::Numeric }),
        101 => Some(Modif { name: "court_grandeur_baseline_add", kinds: ModifKinds { bits: MODIF_CHARACTER }, shape: ModifShape::Numeric }),
        102 => Some(Modif { name: "monthly_court_grandeur_change_add", kinds: ModifKinds { bits: MODIF_CHARACTER }, shape: ModifShape::Numeric }),
        103 => Some(Modif { name: "monthly_court_grandeur_change_mult", kinds: ModifKinds { bits: MODIF_CHARACTER }, shape: ModifShape::Numeric }),
        104 => Some(Modif { name: "cultural_head_acceptance_gain_mult", kinds: ModifKinds { bits: MODIF_CHARACTER }, shape: ModifShape::Numeric }),
        105 => Some(Modif { name: "cultural_head_fascination_add", kinds: ModifKinds { bits: MODIF_CHARACTER }, shape: ModifShape::Numeric }),
        106 => Some(Modif { name: "cultural_head_fascination_mult", kinds: ModifKinds { bits: MODIF_CHARACTER }, shape: ModifShape::Numeric }),
        107 => Some(Modif { name: "diplomacy", kinds: ModifKinds { bits: MODIF_CHARACTER }, shape: ModifShape::Numeric }),
        108 => Some(Modif { name: "diplomacy_per_piety_level", kinds: ModifKinds { bits: MODIF_CHARACTER }, shape: ModifShape::Numeric }),
        109 => Some(Modif { name: "diplomacy_per_prestige_level", kinds: ModifKinds { bits: MODIF_CHARACTER }, shape: ModifShape::Numeric }),
        110 => Some(Modif { name: "diplomacy_per_stress_level", kinds: ModifKinds { bits: MODIF_CHARACTER }, shape: ModifShape::Numeric }),
        111 => Some(Modif { name: "diplomacy_scheme_power", kinds: ModifKinds { bits: MODIF_CHARACTER }, shape: ModifShape::Numeric }),
        112 => Some(Modif { name: "diplomacy_scheme_resistance", kinds: ModifKinds { bits: MODIF_CHARACTER }, shape: ModifShape::Numeric }),
        113 => Some(Modif { name: "negate_diplomacy_penalty_add", kinds: ModifKinds { bits: MODIF_CHARACTER }, shape: ModifShape::Numeric }),
        114 => Some(Modif { name: "intrigue", kinds: ModifKinds { bits: MODIF_CHARACTER }, shape: ModifShape::Numeric }),
        115 => Some(Modif { name: "intrigue_per_piety_level", kinds: ModifKinds { bits: MODIF_CHARACTER }, shape: ModifShape::Numeric }),
        116 => Some(Modif { name: "intrigue_per_prestige_level", kinds: ModifKinds { bits: MODIF_CHARACTER }, shape: ModifShape::Numeric }),
        117 => Some(Modif { name: "intrigue_per_stress_level", kinds: ModifKinds { bits: MODIF_CHARACTER }, shape: ModifShape::Numeric }),
        118 => Some(Modif { name: "intrigue_scheme_power", kinds: ModifKinds { bits: MODIF_CHARACTER }, shape: ModifShape::Numeric }),
        119 => Some(Modif { name: "intrigue_scheme_resistance", kinds: ModifKinds { bits: MODIF_CHARACTER }, shape: ModifShape::Numeric }),
        120 => Some(Modif { name: "negate_intrigue_penalty_add", kinds: ModifKinds { bits: MODIF_CHARACTER }, shape: ModifShape::Numeric }),
        121 => Some(Modif { name: "learning", kinds: ModifKinds { bits: MODIF_CHARACTER }, shape: ModifShape::Numeric }),
        122 => Some(Modif { name: "learning_per_piety_level", kinds: ModifKinds { bits: MODIF_CHARACTER }, shape: ModifShape::Numeric }),
        123 => Some(Modif { name: "learning_per_prestige_level", kinds: ModifKinds { bits: MODIF_CHARACTER }, shape: ModifShape::Numeric }),
        124 => Some(Modif { name: "learning_per_stress_level", kinds: ModifKinds { bits: MODIF_CHARACTER }, shape: ModifShape::Numeric }),
        125 => Some(Modif { name: "learning_scheme_power", kinds: ModifKinds { bits: MODIF_CHARACTER }, shape: ModifShape::Numeric }),
        126 => Some(Modif { name: "learning_scheme_resistance", kinds: ModifKinds { bits: MODIF_CHARACTER }, shape: ModifShape::Numeric }),
        127 => Some(Modif { name: "negate_learning_penalty_add", kinds: ModifKinds { bits: MODIF_CHARACTER }, shape: ModifShape::Numeric }),
        128 => Some(Modif { name: "martial", kinds: ModifKinds { bits: MODIF_CHARACTER }, shape: ModifShape::Numeric }),
        129 => Some(Modif { name: "martial_per_piety_level", kinds: ModifKinds { bits: MODIF_CHARACTER }, shape: ModifShape::Numeric }),
        130 => Some(Modif { name: "martial_per_prestige_level", kinds: ModifKinds { bits: MODIF_CHARACTER }, shape: ModifShape::Numeric }),
        131 => Some(Modif { name: "martial_per_stress_level", kinds: ModifKinds { bits: MODIF_CHARACTER }, shape: ModifShape::Numeric }),
        132 => Some(Modif { name: "martial_scheme_power", kinds: ModifKinds { bits: MODIF_CHARACTER }, shape: ModifShape::Numeric }),
        133 => Some(Modif { name: "martial_scheme_resistance", kinds: ModifKinds { bits: MODIF_CHARACTER }, shape: ModifShape::Numeric }),
        134 => Some(Modif { name: "negate_martial_penalty_add", kinds: ModifKinds { bits: MODIF_CHARACTER }, shape: ModifShape::Numeric }),
        135 => Some(Modif { name: "prowess", kinds: ModifKinds { bits: MODIF_CHARACTER }, shape: ModifShape::Numeric }),
        136 => Some(Modif { name: "prowess_no_portrait", kinds: ModifKinds { bits: MODIF_CHARACTER }, shape: ModifShape::Numeric }),
        137 => Some(Modif { name: "prowess_per_piety_level", kinds: ModifKinds { bits: MODIF_CHARACTER }, shape: ModifShape::Numeric }),
        138 => Some(Modif { name: "prowess_per_prestige_level", kinds: ModifKinds { bits: MODIF_CHARACTER }, shape: ModifShape::Numeric }),
        139 => Some(Modif { name: "prowess_per_stress_level", kinds: ModifKinds { bits: MODIF_CHARACTER }, shape: ModifShape::Numeric }),
        140 => Some(Modif { name: "prowess_scheme_power", kinds: ModifKinds { bits: MODIF_CHARACTER }, shape: ModifShape::Numeric }),
        141 => Some(Modif { name: "prowess_scheme_resistance", kinds: ModifKinds { bits: MODIF_CHARACTER }, shape: ModifShape::Numeric }),
        142 => Some(Modif { name: "negate_prowess_penalty_add", kinds: ModifKinds { bits: MODIF_CHARACTER }, shape: ModifShape::Numeric }),
        143 => Some(Modif { name: "stewardship", kinds: ModifKinds { bits: MODIF_CHARACTER }, shape: ModifShape::Numeric }),
        144 => Some(Modif { name: "stewardship_no_portrait", kinds: ModifKinds { bits: MODIF_CHARACTER }, shape: ModifShape::Numeric }),
        145 => Some(Modif { name: "stewardship_per_piety_level", kinds: ModifKinds { bits: MODIF_CHARACTER }, shape: ModifShape::Numeric }),
        146 => Some(Modif { name: "stewardship_per_prestige_level", kinds: ModifKinds { bits: MODIF_CHARACTER }, shape: ModifShape::Numeric }),
        147 => Some(Modif { name: "stewardship_per_stress_level", kinds: ModifKinds { bits: MODIF_CHARACTER }, shape: ModifShape::Numeric }),
        148 => Some(Modif { name: "stewardship_scheme_power", kinds: ModifKinds { bits: MODIF_CHARACTER }, shape: ModifShape::Numeric }),
        149 => Some(Modif { name: "stewardship_scheme_resistance", kinds: ModifKinds { bits: MODIF_CHARACTER }, shape: ModifShape::Numeric }),
        150 => Some(Modif { name: "negate_stewardship_penalty_add", kinds: ModifKinds { bits: MODIF_CHARACTER }, shape: ModifShape::Numeric }),
        151 => Some(Modif { name: "diplomatic_range_mult", kinds: ModifKinds { bits: MODIF_CHARACTER }, shape: ModifShape::Numeric }),
        152 => Some(Modif { name: "domain_limit", kinds: ModifKinds { bits: MODIF_CHARACTER }, shape: ModifShape::Numeric }),
        153 => Some(Modif { name: "domain_tax_different_faith_mult", kinds: ModifKinds { bits: MODIF_CHARACTER }, shape: ModifShape::Numeric }),
        154 => Some(Modif { name: "domain_tax_different_faith_mult_even_if_baron", kinds: ModifKinds { bits: MODIF_CHARACTER }, shape: ModifShape::Numeric }),
        155 => Some(Modif { name: "domain_tax_mult", kinds: ModifKinds { bits: MODIF_CHARACTER }, shape: ModifShape::Numeric }),
        156 => Some(Modif { name: "domain_tax_mult_even_if_baron", kinds: ModifKinds { bits: MODIF_CHARACTER }, shape: ModifShape::Numeric }),
        157 => Some(Modif { name: "domain_tax_same_faith_mult", kinds: ModifKinds { bits: MODIF_CHARACTER }, shape: ModifShape::Numeric }),
        158 => Some(Modif { name: "domain_tax_same_faith_mult_even_if_baron", kinds: ModifKinds { bits: MODIF_CHARACTER }, shape: ModifShape::Numeric }),
        159 => Some(Modif { name: "dread_baseline_add", kinds: ModifKinds { bits: MODIF_CHARACTER }, shape: ModifShape::Numeric }),
        160 => Some(Modif { name: "dread_decay_add", kinds: ModifKinds { bits: MODIF_CHARACTER }, shape: ModifShape::Numeric }),
        161 => Some(Modif { name: "dread_decay_mult", kinds: ModifKinds { bits: MODIF_CHARACTER }, shape: ModifShape::Numeric }),
        162 => Some(Modif { name: "dread_gain_mult", kinds: ModifKinds { bits: MODIF_CHARACTER }, shape: ModifShape::Numeric }),
        163 => Some(Modif { name: "dread_loss_mult", kinds: ModifKinds { bits: MODIF_CHARACTER }, shape: ModifShape::Numeric }),
        164 => Some(Modif { name: "dread_per_tyranny_add", kinds: ModifKinds { bits: MODIF_CHARACTER }, shape: ModifShape::Numeric }),
        165 => Some(Modif { name: "dread_per_tyranny_mult", kinds: ModifKinds { bits: MODIF_CHARACTER }, shape: ModifShape::Numeric }),
        166 => Some(Modif { name: "monthly_dread", kinds: ModifKinds { bits: MODIF_CHARACTER }, shape: ModifShape::Numeric }),
        167 => Some(Modif { name: "embarkation_cost_mult", kinds: ModifKinds { bits: MODIF_CHARACTER }, shape: ModifShape::Numeric }),
        168 => Some(Modif { name: "enemy_hostile_scheme_success_chance_add", kinds: ModifKinds { bits: MODIF_CHARACTER }, shape: ModifShape::Numeric }),
        169 => Some(Modif { name: "enemy_personal_scheme_success_chance_add", kinds: ModifKinds { bits: MODIF_CHARACTER }, shape: ModifShape::Numeric }),
        170 => Some(Modif { name: "faith_conversion_piety_cost_add", kinds: ModifKinds { bits: MODIF_CHARACTER }, shape: ModifShape::Numeric }),
        171 => Some(Modif { name: "faith_conversion_piety_cost_mult", kinds: ModifKinds { bits: MODIF_CHARACTER }, shape: ModifShape::Numeric }),
        172 => Some(Modif { name: "faith_creation_piety_cost_add", kinds: ModifKinds { bits: MODIF_CHARACTER }, shape: ModifShape::Numeric }),
        173 => Some(Modif { name: "faith_creation_piety_cost_mult", kinds: ModifKinds { bits: MODIF_CHARACTER }, shape: ModifShape::Numeric }),
        174 => Some(Modif { name: "fertility", kinds: ModifKinds { bits: MODIF_CHARACTER }, shape: ModifShape::Numeric }),
        175 => Some(Modif { name: "negate_fertility_penalty_add", kinds: ModifKinds { bits: MODIF_CHARACTER }, shape: ModifShape::Numeric }),
        176 => Some(Modif { name: "genetic_trait_strengthen_chance", kinds: ModifKinds { bits: MODIF_CHARACTER }, shape: ModifShape::Numeric }),
        177 => Some(Modif { name: "inbreeding_chance", kinds: ModifKinds { bits: MODIF_CHARACTER }, shape: ModifShape::Numeric }),
        178 => Some(Modif { name: "health", kinds: ModifKinds { bits: MODIF_CHARACTER }, shape: ModifShape::Numeric }),
        179 => Some(Modif { name: "negate_health_penalty_add", kinds: ModifKinds { bits: MODIF_CHARACTER }, shape: ModifShape::Numeric }),
        180 => Some(Modif { name: "life_expectancy", kinds: ModifKinds { bits: MODIF_CHARACTER }, shape: ModifShape::Numeric }),
        181 => Some(Modif { name: "negative_inactive_inheritance_chance", kinds: ModifKinds { bits: MODIF_CHARACTER }, shape: ModifShape::Numeric }),
        182 => Some(Modif { name: "negative_random_genetic_chance", kinds: ModifKinds { bits: MODIF_CHARACTER }, shape: ModifShape::Numeric }),
        183 => Some(Modif { name: "positive_inactive_inheritance_chance", kinds: ModifKinds { bits: MODIF_CHARACTER }, shape: ModifShape::Numeric }),
        184 => Some(Modif { name: "positive_random_genetic_chance", kinds: ModifKinds { bits: MODIF_CHARACTER }, shape: ModifShape::Numeric }),
        185 => Some(Modif { name: "years_of_fertility", kinds: ModifKinds { bits: MODIF_CHARACTER }, shape: ModifShape::Numeric }),
        186 => Some(Modif { name: "holy_order_hire_cost_add", kinds: ModifKinds { bits: MODIF_CHARACTER }, shape: ModifShape::Numeric }),
        187 => Some(Modif { name: "holy_order_hire_cost_mult", kinds: ModifKinds { bits: MODIF_CHARACTER }, shape: ModifShape::Numeric }),
        188 => Some(Modif { name: "mercenary_hire_cost_add", kinds: ModifKinds { bits: MODIF_CHARACTER }, shape: ModifShape::Numeric }),
        189 => Some(Modif { name: "mercenary_hire_cost_mult", kinds: ModifKinds { bits: MODIF_CHARACTER }, shape: ModifShape::Numeric }),
        190 => Some(Modif { name: "same_culture_holy_order_hire_cost_add", kinds: ModifKinds { bits: MODIF_CHARACTER }, shape: ModifShape::Numeric }),
        191 => Some(Modif { name: "same_culture_holy_order_hire_cost_mult", kinds: ModifKinds { bits: MODIF_CHARACTER }, shape: ModifShape::Numeric }),
        192 => Some(Modif { name: "same_culture_mercenary_hire_cost_add", kinds: ModifKinds { bits: MODIF_CHARACTER }, shape: ModifShape::Numeric }),
        193 => Some(Modif { name: "same_culture_mercenary_hire_cost_mult", kinds: ModifKinds { bits: MODIF_CHARACTER }, shape: ModifShape::Numeric }),
        194 => Some(Modif { name: "hostile_county_attrition", kinds: ModifKinds { bits: MODIF_CHARACTER }, shape: ModifShape::Numeric }),
        195 => Some(Modif { name: "ignore_different_faith_opinion", kinds: ModifKinds { bits: MODIF_CHARACTER }, shape: ModifShape::Bool }),
        196 => Some(Modif { name: "ignore_negative_culture_opinion", kinds: ModifKinds { bits: MODIF_CHARACTER }, shape: ModifShape::Bool }),
        197 => Some(Modif { name: "ignore_negative_opinion_of_culture", kinds: ModifKinds { bits: MODIF_CHARACTER }, shape: ModifShape::Bool }),
        198 => Some(Modif { name: "ignore_opinion_of_different_faith", kinds: ModifKinds { bits: MODIF_CHARACTER }, shape: ModifShape::Bool }),
        199 => Some(Modif { name: "knight_effectiveness_mult", kinds: ModifKinds { bits: MODIF_CHARACTER }, shape: ModifShape::Numeric }),
        200 => Some(Modif { name: "knight_limit", kinds: ModifKinds { bits: MODIF_CHARACTER }, shape: ModifShape::Numeric }),
        201 => Some(Modif { name: "levy_reinforcement_rate_different_faith", kinds: ModifKinds { bits: MODIF_CHARACTER }, shape: ModifShape::Numeric }),
        202 => Some(Modif { name: "levy_reinforcement_rate_different_faith_even_if_baron", kinds: ModifKinds { bits: MODIF_CHARACTER }, shape: ModifShape::Numeric }),
        203 => Some(Modif { name: "levy_reinforcement_rate_even_if_baron", kinds: ModifKinds { bits: MODIF_CHARACTER }, shape: ModifShape::Numeric }),
        204 => Some(Modif { name: "levy_reinforcement_rate_same_faith", kinds: ModifKinds { bits: MODIF_CHARACTER }, shape: ModifShape::Numeric }),
        205 => Some(Modif { name: "levy_reinforcement_rate_same_faith_even_if_baron", kinds: ModifKinds { bits: MODIF_CHARACTER }, shape: ModifShape::Numeric }),
        206 => Some(Modif { name: "long_reign_bonus_mult", kinds: ModifKinds { bits: MODIF_CHARACTER }, shape: ModifShape::Numeric }),
        207 => Some(Modif { name: "max_loot_mult", kinds: ModifKinds { bits: MODIF_CHARACTER }, shape: ModifShape::Numeric }),
        208 => Some(Modif { name: "men_at_arms_cap", kinds: ModifKinds { bits: MODIF_CHARACTER }, shape: ModifShape::Numeric }),
        209 => Some(Modif { name: "men_at_arms_limit", kinds: ModifKinds { bits: MODIF_CHARACTER }, shape: ModifShape::Numeric }),
        210 => Some(Modif { name: "men_at_arms_maintenance", kinds: ModifKinds { bits: MODIF_CHARACTER }, shape: ModifShape::Numeric }),
        211 => Some(Modif { name: "men_at_arms_maintenance_per_dread_mult", kinds: ModifKinds { bits: MODIF_CHARACTER }, shape: ModifShape::Numeric }),
        212 => Some(Modif { name: "men_at_arms_recruitment_cost", kinds: ModifKinds { bits: MODIF_CHARACTER }, shape: ModifShape::Numeric }),
        213 => Some(Modif { name: "monthly_county_control_change_add_even_if_baron", kinds: ModifKinds { bits: MODIF_CHARACTER }, shape: ModifShape::Numeric }),
        214 => Some(Modif { name: "monthly_county_control_change_factor_even_if_baron", kinds: ModifKinds { bits: MODIF_CHARACTER }, shape: ModifShape::Numeric }),
        215 => Some(Modif { name: "", kinds: ModifKinds { bits: MODIF_CHARACTER }, shape: ModifShape::LifestyleXp }),
        216 => Some(Modif { name: "monthly_lifestyle_xp_gain_mult", kinds: ModifKinds { bits: MODIF_CHARACTER }, shape: ModifShape::Numeric }),
        217 => Some(Modif { name: "monthly_dynasty_prestige", kinds: ModifKinds { bits: MODIF_CHARACTER }, shape: ModifShape::Numeric }),
        218 => Some(Modif { name: "monthly_dynasty_prestige_mult", kinds: ModifKinds { bits: MODIF_CHARACTER }, shape: ModifShape::Numeric }),
        219 => Some(Modif { name: "monthly_income_mult", kinds: ModifKinds { bits: MODIF_CHARACTER }, shape: ModifShape::Numeric }),
        220 => Some(Modif { name: "monthly_income_per_stress_level_add", kinds: ModifKinds { bits: MODIF_CHARACTER }, shape: ModifShape::Numeric }),
        221 => Some(Modif { name: "monthly_income_per_stress_level_mult", kinds: ModifKinds { bits: MODIF_CHARACTER }, shape: ModifShape::Numeric }),
        222 => Some(Modif { name: "monthly_piety", kinds: ModifKinds { bits: MODIF_CHARACTER }, shape: ModifShape::Numeric }),
        223 => Some(Modif { name: "monthly_piety_from_buildings_mult", kinds: ModifKinds { bits: MODIF_CHARACTER }, shape: ModifShape::Numeric }),
        224 => Some(Modif { name: "monthly_piety_gain_mult", kinds: ModifKinds { bits: MODIF_CHARACTER }, shape: ModifShape::Numeric }),
        225 => Some(Modif { name: "monthly_piety_gain_per_dread_add", kinds: ModifKinds { bits: MODIF_CHARACTER }, shape: ModifShape::Numeric }),
        226 => Some(Modif { name: "monthly_piety_gain_per_dread_mult", kinds: ModifKinds { bits: MODIF_CHARACTER }, shape: ModifShape::Numeric }),
        227 => Some(Modif { name: "monthly_piety_gain_per_happy_powerful_vassal_add", kinds: ModifKinds { bits: MODIF_CHARACTER }, shape: ModifShape::Numeric }),
        228 => Some(Modif { name: "monthly_piety_gain_per_happy_powerful_vassal_mult", kinds: ModifKinds { bits: MODIF_CHARACTER }, shape: ModifShape::Numeric }),
        229 => Some(Modif { name: "monthly_piety_gain_per_knight_add", kinds: ModifKinds { bits: MODIF_CHARACTER }, shape: ModifShape::Numeric }),
        230 => Some(Modif { name: "monthly_piety_gain_per_knight_mult", kinds: ModifKinds { bits: MODIF_CHARACTER }, shape: ModifShape::Numeric }),
        231 => Some(Modif { name: "monthly_prestige", kinds: ModifKinds { bits: MODIF_CHARACTER }, shape: ModifShape::Numeric }),
        232 => Some(Modif { name: "monthly_prestige_from_buildings_mult", kinds: ModifKinds { bits: MODIF_CHARACTER }, shape: ModifShape::Numeric }),
        233 => Some(Modif { name: "monthly_prestige_gain_mult", kinds: ModifKinds { bits: MODIF_CHARACTER }, shape: ModifShape::Numeric }),
        234 => Some(Modif { name: "monthly_prestige_gain_per_dread_add", kinds: ModifKinds { bits: MODIF_CHARACTER }, shape: ModifShape::Numeric }),
        235 => Some(Modif { name: "monthly_prestige_gain_per_dread_mult", kinds: ModifKinds { bits: MODIF_CHARACTER }, shape: ModifShape::Numeric }),
        236 => Some(Modif { name: "monthly_prestige_gain_per_happy_powerful_vassal_add", kinds: ModifKinds { bits: MODIF_CHARACTER }, shape: ModifShape::Numeric }),
        237 => Some(Modif { name: "monthly_prestige_gain_per_happy_powerful_vassal_mult", kinds: ModifKinds { bits: MODIF_CHARACTER }, shape: ModifShape::Numeric }),
        238 => Some(Modif { name: "monthly_prestige_gain_per_knight_add", kinds: ModifKinds { bits: MODIF_CHARACTER }, shape: ModifShape::Numeric }),
        239 => Some(Modif { name: "monthly_prestige_gain_per_knight_mult", kinds: ModifKinds { bits: MODIF_CHARACTER }, shape: ModifShape::Numeric }),
        240 => Some(Modif { name: "monthly_tyranny", kinds: ModifKinds { bits: MODIF_CHARACTER }, shape: ModifShape::Numeric }),
        241 => Some(Modif { name: "monthly_war_income_add", kinds: ModifKinds { bits: MODIF_CHARACTER }, shape: ModifShape::Numeric }),
        242 => Some(Modif { name: "monthly_war_income_mult", kinds: ModifKinds { bits: MODIF_CHARACTER }, shape: ModifShape::Numeric }),
        243 => Some(Modif { name: "movement_speed", kinds: ModifKinds { bits: MODIF_CHARACTER }, shape: ModifShape::Numeric }),
        244 => Some(Modif { name: "naval_movement_speed_mult", kinds: ModifKinds { bits: MODIF_CHARACTER }, shape: ModifShape::Numeric }),
        245 => Some(Modif { name: "raid_speed", kinds: ModifKinds { bits: MODIF_CHARACTER }, shape: ModifShape::Numeric }),
        246 => Some(Modif { name: "winter_movement_speed", kinds: ModifKinds { bits: MODIF_CHARACTER }, shape: ModifShape::Numeric }),
        247 => Some(Modif { name: "no_disembark_penalty", kinds: ModifKinds { bits: MODIF_CHARACTER }, shape: ModifShape::Bool }),
        248 => Some(Modif { name: "no_prowess_loss_from_age", kinds: ModifKinds { bits: MODIF_CHARACTER }, shape: ModifShape::Bool }),
        249 => Some(Modif { name: "no_water_crossing_penalty", kinds: ModifKinds { bits: MODIF_CHARACTER }, shape: ModifShape::Bool }),
        250 => Some(Modif { name: "opinion_of_different_culture", kinds: ModifKinds { bits: MODIF_CHARACTER }, shape: ModifShape::Numeric }),
        251 => Some(Modif { name: "opinion_of_different_faith", kinds: ModifKinds { bits: MODIF_CHARACTER }, shape: ModifShape::Numeric }),
        252 => Some(Modif { name: "opinion_of_different_faith_liege", kinds: ModifKinds { bits: MODIF_CHARACTER }, shape: ModifShape::Numeric }),
        253 => Some(Modif { name: "opinion_of_female_rulers", kinds: ModifKinds { bits: MODIF_CHARACTER }, shape: ModifShape::Numeric }),
        254 => Some(Modif { name: "opinion_of_liege", kinds: ModifKinds { bits: MODIF_CHARACTER }, shape: ModifShape::Numeric }),
        255 => Some(Modif { name: "opinion_of_male_rulers", kinds: ModifKinds { bits: MODIF_CHARACTER }, shape: ModifShape::Numeric }),
        256 => Some(Modif { name: "opinion_of_parents", kinds: ModifKinds { bits: MODIF_CHARACTER }, shape: ModifShape::Numeric }),
        257 => Some(Modif { name: "opinion_of_same_culture", kinds: ModifKinds { bits: MODIF_CHARACTER }, shape: ModifShape::Numeric }),
        258 => Some(Modif { name: "opinion_of_same_faith", kinds: ModifKinds { bits: MODIF_CHARACTER }, shape: ModifShape::Numeric }),
        259 => Some(Modif { name: "opinion_of_vassal", kinds: ModifKinds { bits: MODIF_CHARACTER }, shape: ModifShape::Numeric }),
        260 => Some(Modif { name: "piety_level_impact_mult", kinds: ModifKinds { bits: MODIF_CHARACTER }, shape: ModifShape::Numeric }),
        261 => Some(Modif { name: "prestige_level_impact_mult", kinds: ModifKinds { bits: MODIF_CHARACTER }, shape: ModifShape::Numeric }),
        262 => Some(Modif { name: "random_skills_per_child", kinds: ModifKinds { bits: MODIF_CHARACTER }, shape: ModifShape::Numeric }),
        263 => Some(Modif { name: "revolting_siege_morale_loss_add", kinds: ModifKinds { bits: MODIF_CHARACTER }, shape: ModifShape::Numeric }),
        264 => Some(Modif { name: "revolting_siege_morale_loss_mult", kinds: ModifKinds { bits: MODIF_CHARACTER }, shape: ModifShape::Numeric }),
        265 => Some(Modif { name: "siege_morale_loss", kinds: ModifKinds { bits: MODIF_CHARACTER }, shape: ModifShape::Numeric }),
        266 => Some(Modif { name: "siege_phase_time", kinds: ModifKinds { bits: MODIF_CHARACTER }, shape: ModifShape::Numeric }),
        267 => Some(Modif { name: "short_reign_duration_mult", kinds: ModifKinds { bits: MODIF_CHARACTER }, shape: ModifShape::Numeric }),
        268 => Some(Modif { name: "stress_gain_mult", kinds: ModifKinds { bits: MODIF_CHARACTER }, shape: ModifShape::Numeric }),
        269 => Some(Modif { name: "stress_loss_mult", kinds: ModifKinds { bits: MODIF_CHARACTER }, shape: ModifShape::Numeric }),
        270 => Some(Modif { name: "supply_capacity_add", kinds: ModifKinds { bits: MODIF_CHARACTER }, shape: ModifShape::Numeric }),
        271 => Some(Modif { name: "supply_capacity_mult", kinds: ModifKinds { bits: MODIF_CHARACTER }, shape: ModifShape::Numeric }),
        272 => Some(Modif { name: "supply_duration", kinds: ModifKinds { bits: MODIF_CHARACTER }, shape: ModifShape::Numeric }),
        273 => Some(Modif { name: "title_creation_cost", kinds: ModifKinds { bits: MODIF_CHARACTER }, shape: ModifShape::Numeric }),
        274 => Some(Modif { name: "title_creation_cost_mult", kinds: ModifKinds { bits: MODIF_CHARACTER }, shape: ModifShape::Numeric }),
        275 => Some(Modif { name: "tolerance_advantage_mod", kinds: ModifKinds { bits: MODIF_CHARACTER }, shape: ModifShape::Numeric }),
        276 => Some(Modif { name: "tyranny_gain_mult", kinds: ModifKinds { bits: MODIF_CHARACTER }, shape: ModifShape::Numeric }),
        277 => Some(Modif { name: "tyranny_loss_mult", kinds: ModifKinds { bits: MODIF_CHARACTER }, shape: ModifShape::Numeric }),
        278 => Some(Modif { name: "vassal_limit", kinds: ModifKinds { bits: MODIF_CHARACTER }, shape: ModifShape::Numeric }),
        279 => Some(Modif { name: "vassal_tax_mult", kinds: ModifKinds { bits: MODIF_CHARACTER }, shape: ModifShape::Numeric }),
        280 => Some(Modif { name: "county_opinion_add", kinds: ModifKinds { bits: MODIF_CHARACTER | MODIF_COUNTY }, shape: ModifShape::Numeric }),
        281 => Some(Modif { name: "monthly_income", kinds: ModifKinds { bits: MODIF_CHARACTER | MODIF_PROVINCE }, shape: ModifShape::Numeric }),
        282 => Some(Modif { name: "counter_efficiency", kinds: ModifKinds { bits: MODIF_CHARACTER | MODIF_TERRAIN }, shape: ModifShape::Numeric }),
        283 => Some(Modif { name: "enemy_hard_casualty_modifier", kinds: ModifKinds { bits: MODIF_CHARACTER | MODIF_TERRAIN }, shape: ModifShape::Numeric }),
        284 => Some(Modif { name: "hard_casualty_modifier", kinds: ModifKinds { bits: MODIF_CHARACTER | MODIF_TERRAIN }, shape: ModifShape::Numeric }),
        285 => Some(Modif { name: "pursue_efficiency", kinds: ModifKinds { bits: MODIF_CHARACTER | MODIF_TERRAIN }, shape: ModifShape::Numeric }),
        286 => Some(Modif { name: "retreat_losses", kinds: ModifKinds { bits: MODIF_CHARACTER | MODIF_TERRAIN }, shape: ModifShape::Numeric }),
        287 => Some(Modif { name: "additional_fort_level", kinds: ModifKinds { bits: MODIF_CHARACTER | MODIF_COUNTY | MODIF_PROVINCE }, shape: ModifShape::Numeric }),
        288 => Some(Modif { name: "artifact_decay_reduction_mult", kinds: ModifKinds { bits: MODIF_CHARACTER | MODIF_COUNTY | MODIF_PROVINCE }, shape: ModifShape::Numeric }),
        289 => Some(Modif { name: "build_gold_cost", kinds: ModifKinds { bits: MODIF_CHARACTER | MODIF_COUNTY | MODIF_PROVINCE }, shape: ModifShape::Numeric }),
        290 => Some(Modif { name: "build_piety_cost", kinds: ModifKinds { bits: MODIF_CHARACTER | MODIF_COUNTY | MODIF_PROVINCE }, shape: ModifShape::Numeric }),
        291 => Some(Modif { name: "build_prestige_cost", kinds: ModifKinds { bits: MODIF_CHARACTER | MODIF_COUNTY | MODIF_PROVINCE }, shape: ModifShape::Numeric }),
        292 => Some(Modif { name: "build_speed", kinds: ModifKinds { bits: MODIF_CHARACTER | MODIF_COUNTY | MODIF_PROVINCE }, shape: ModifShape::Numeric }),
        293 => Some(Modif { name: "holding_build_gold_cost", kinds: ModifKinds { bits: MODIF_CHARACTER | MODIF_COUNTY | MODIF_PROVINCE }, shape: ModifShape::Numeric }),
        294 => Some(Modif { name: "holding_build_piety_cost", kinds: ModifKinds { bits: MODIF_CHARACTER | MODIF_COUNTY | MODIF_PROVINCE }, shape: ModifShape::Numeric }),
        295 => Some(Modif { name: "holding_build_prestige_cost", kinds: ModifKinds { bits: MODIF_CHARACTER | MODIF_COUNTY | MODIF_PROVINCE }, shape: ModifShape::Numeric }),
        296 => Some(Modif { name: "holding_build_speed", kinds: ModifKinds { bits: MODIF_CHARACTER | MODIF_COUNTY | MODIF_PROVINCE }, shape: ModifShape::Numeric }),
        297 => Some(Modif { name: "castle_holding_build_gold_cost", kinds: ModifKinds { bits: MODIF_CHARACTER | MODIF_COUNTY | MODIF_PROVINCE }, shape: ModifShape::Numeric }),
        298 => Some(Modif { name: "castle_holding_build_piety_cost", kinds: ModifKinds { bits: MODIF_CHARACTER | MODIF_COUNTY | MODIF_PROVINCE }, shape: ModifShape::Numeric }),
        299 => Some(Modif { name: "castle_holding_build_prestige_cost", kinds: ModifKinds { bits: MODIF_CHARACTER | MODIF_COUNTY | MODIF_PROVINCE }, shape: ModifShape::Numeric }),
        300 => Some(Modif { name: "castle_holding_build_speed", kinds: ModifKinds { bits: MODIF_CHARACTER | MODIF_COUNTY | MODIF_PROVINCE }, shape: ModifShape::Numeric }),
        301 => Some(Modif { name: "castle_holding_holding_build_gold_cost", kinds: ModifKinds { bits: MODIF_CHARACTER | MODIF_COUNTY | MODIF_PROVINCE }, shape: ModifShape::Numeric }),
        302 => Some(Modif { name: "castle_holding_holding_build_piety_cost", kinds: ModifKinds { bits: MODIF_CHARACTER | MODIF_COUNTY | MODIF_PROVINCE }, shape: ModifShape::Numeric }),
        303 => Some(Modif { name: "castle_holding_holding_build_prestige_cost", kinds: ModifKinds { bits: MODIF_CHARACTER | MODIF_COUNTY | MODIF_PROVINCE }, shape: ModifShape::Numeric }),
        304 => Some(Modif { name: "castle_holding_holding_build_speed", kinds: ModifKinds { bits: MODIF_CHARACTER | MODIF_COUNTY | MODIF_PROVINCE }, shape: ModifShape::Numeric }),
        305 => Some(Modif { name: "church_holding_build_gold_cost", kinds: ModifKinds { bits: MODIF_CHARACTER | MODIF_COUNTY | MODIF_PROVINCE }, shape: ModifShape::Numeric }),
        306 => Some(Modif { name: "church_holding_build_piety_cost", kinds: ModifKinds { bits: MODIF_CHARACTER | MODIF_COUNTY | MODIF_PROVINCE }, shape: ModifShape::Numeric }),
        307 => Some(Modif { name: "church_holding_build_prestige_cost", kinds: ModifKinds { bits: MODIF_CHARACTER | MODIF_COUNTY | MODIF_PROVINCE }, shape: ModifShape::Numeric }),
        308 => Some(Modif { name: "church_holding_build_speed", kinds: ModifKinds { bits: MODIF_CHARACTER | MODIF_COUNTY | MODIF_PROVINCE }, shape: ModifShape::Numeric }),
        309 => Some(Modif { name: "church_holding_holding_build_gold_cost", kinds: ModifKinds { bits: MODIF_CHARACTER | MODIF_COUNTY | MODIF_PROVINCE }, shape: ModifShape::Numeric }),
        310 => Some(Modif { name: "church_holding_holding_build_piety_cost", kinds: ModifKinds { bits: MODIF_CHARACTER | MODIF_COUNTY | MODIF_PROVINCE }, shape: ModifShape::Numeric }),
        311 => Some(Modif { name: "church_holding_holding_build_prestige_cost", kinds: ModifKinds { bits: MODIF_CHARACTER | MODIF_COUNTY | MODIF_PROVINCE }, shape: ModifShape::Numeric }),
        312 => Some(Modif { name: "church_holding_holding_build_speed", kinds: ModifKinds { bits: MODIF_CHARACTER | MODIF_COUNTY | MODIF_PROVINCE }, shape: ModifShape::Numeric }),
        313 => Some(Modif { name: "city_holding_build_gold_cost", kinds: ModifKinds { bits: MODIF_CHARACTER | MODIF_COUNTY | MODIF_PROVINCE }, shape: ModifShape::Numeric }),
        314 => Some(Modif { name: "city_holding_build_piety_cost", kinds: ModifKinds { bits: MODIF_CHARACTER | MODIF_COUNTY | MODIF_PROVINCE }, shape: ModifShape::Numeric }),
        315 => Some(Modif { name: "city_holding_build_prestige_cost", kinds: ModifKinds { bits: MODIF_CHARACTER | MODIF_COUNTY | MODIF_PROVINCE }, shape: ModifShape::Numeric }),
        316 => Some(Modif { name: "city_holding_build_speed", kinds: ModifKinds { bits: MODIF_CHARACTER | MODIF_COUNTY | MODIF_PROVINCE }, shape: ModifShape::Numeric }),
        317 => Some(Modif { name: "city_holding_holding_build_gold_cost", kinds: ModifKinds { bits: MODIF_CHARACTER | MODIF_COUNTY | MODIF_PROVINCE }, shape: ModifShape::Numeric }),
        318 => Some(Modif { name: "city_holding_holding_build_piety_cost", kinds: ModifKinds { bits: MODIF_CHARACTER | MODIF_COUNTY | MODIF_PROVINCE }, shape: ModifShape::Numeric }),
        319 => Some(Modif { name: "city_holding_holding_build_prestige_cost", kinds: ModifKinds { bits: MODIF_CHARACTER | MODIF_COUNTY | MODIF_PROVINCE }, shape: ModifShape::Numeric }),
        320 => Some(Modif { name: "city_holding_holding_build_speed", kinds: ModifKinds { bits: MODIF_CHARACTER | MODIF_COUNTY | MODIF_PROVINCE }, shape: ModifShape::Numeric }),
        321 => Some(Modif { name: "tribal_holding_build_gold_cost", kinds: ModifKinds { bits: MODIF_CHARACTER | MODIF_COUNTY | MODIF_PROVINCE }, shape: ModifShape::Numeric }),
        322 => Some(Modif { name: "tribal_holding_build_piety_cost", kinds: ModifKinds { bits: MODIF_CHARACTER | MODIF_COUNTY | MODIF_PROVINCE }, shape: ModifShape::Numeric }),
        323 => Some(Modif { name: "tribal_holding_build_prestige_cost", kinds: ModifKinds { bits: MODIF_CHARACTER | MODIF_COUNTY | MODIF_PROVINCE }, shape: ModifShape::Numeric }),
        324 => Some(Modif { name: "tribal_holding_build_speed", kinds: ModifKinds { bits: MODIF_CHARACTER | MODIF_COUNTY | MODIF_PROVINCE }, shape: ModifShape::Numeric }),
        325 => Some(Modif { name: "tribal_holding_holding_build_gold_cost", kinds: ModifKinds { bits: MODIF_CHARACTER | MODIF_COUNTY | MODIF_PROVINCE }, shape: ModifShape::Numeric }),
        326 => Some(Modif { name: "tribal_holding_holding_build_piety_cost", kinds: ModifKinds { bits: MODIF_CHARACTER | MODIF_COUNTY | MODIF_PROVINCE }, shape: ModifShape::Numeric }),
        327 => Some(Modif { name: "tribal_holding_holding_build_prestige_cost", kinds: ModifKinds { bits: MODIF_CHARACTER | MODIF_COUNTY | MODIF_PROVINCE }, shape: ModifShape::Numeric }),
        328 => Some(Modif { name: "tribal_holding_holding_build_speed", kinds: ModifKinds { bits: MODIF_CHARACTER | MODIF_COUNTY | MODIF_PROVINCE }, shape: ModifShape::Numeric }),
        329 => Some(Modif { name: "defender_holding_advantage", kinds: ModifKinds { bits: MODIF_CHARACTER | MODIF_COUNTY | MODIF_PROVINCE }, shape: ModifShape::Numeric }),
        330 => Some(Modif { name: "", kinds: ModifKinds { bits: MODIF_CHARACTER | MODIF_COUNTY | MODIF_PROVINCE }, shape: ModifShape::TerrainProvince }),
        331 => Some(Modif { name: "development_growth", kinds: ModifKinds { bits: MODIF_CHARACTER | MODIF_COUNTY | MODIF_PROVINCE }, shape: ModifShape::Numeric }),
        332 => Some(Modif { name: "development_growth_factor", kinds: ModifKinds { bits: MODIF_CHARACTER | MODIF_COUNTY | MODIF_PROVINCE }, shape: ModifShape::Numeric }),
        333 => Some(Modif { name: "fort_level", kinds: ModifKinds { bits: MODIF_CHARACTER | MODIF_COUNTY | MODIF_PROVINCE }, shape: ModifShape::Numeric }),
        334 => Some(Modif { name: "garrison_size", kinds: ModifKinds { bits: MODIF_CHARACTER | MODIF_COUNTY | MODIF_PROVINCE }, shape: ModifShape::Numeric }),
        335 => Some(Modif { name: "hostile_raid_time", kinds: ModifKinds { bits: MODIF_CHARACTER | MODIF_COUNTY | MODIF_PROVINCE }, shape: ModifShape::Numeric }),
        336 => Some(Modif { name: "levy_reinforcement_rate", kinds: ModifKinds { bits: MODIF_CHARACTER | MODIF_COUNTY | MODIF_PROVINCE }, shape: ModifShape::Numeric }),
        337 => Some(Modif { name: "levy_reinforcement_rate_friendly_territory", kinds: ModifKinds { bits: MODIF_CHARACTER | MODIF_COUNTY | MODIF_PROVINCE }, shape: ModifShape::Numeric }),
        338 => Some(Modif { name: "levy_size", kinds: ModifKinds { bits: MODIF_CHARACTER | MODIF_COUNTY | MODIF_PROVINCE }, shape: ModifShape::Numeric }),
        339 => Some(Modif { name: "monthly_county_control_change_add", kinds: ModifKinds { bits: MODIF_CHARACTER | MODIF_COUNTY | MODIF_PROVINCE }, shape: ModifShape::Numeric }),
        340 => Some(Modif { name: "monthly_county_control_change_factor", kinds: ModifKinds { bits: MODIF_CHARACTER | MODIF_COUNTY | MODIF_PROVINCE }, shape: ModifShape::Numeric }),
        341 => Some(Modif { name: "monthly_county_control_change_at_war_add", kinds: ModifKinds { bits: MODIF_CHARACTER | MODIF_COUNTY | MODIF_PROVINCE }, shape: ModifShape::Numeric }),
        342 => Some(Modif { name: "monthly_county_control_change_at_war_mult", kinds: ModifKinds { bits: MODIF_CHARACTER | MODIF_COUNTY | MODIF_PROVINCE }, shape: ModifShape::Numeric }),
        343 => Some(Modif { name: "supply_limit", kinds: ModifKinds { bits: MODIF_CHARACTER | MODIF_COUNTY | MODIF_PROVINCE }, shape: ModifShape::Numeric }),
        344 => Some(Modif { name: "supply_limit_mult", kinds: ModifKinds { bits: MODIF_CHARACTER | MODIF_COUNTY | MODIF_PROVINCE }, shape: ModifShape::Numeric }),
        345 => Some(Modif { name: "tax_mult", kinds: ModifKinds { bits: MODIF_CHARACTER | MODIF_COUNTY | MODIF_PROVINCE }, shape: ModifShape::Numeric }),
        346 => Some(Modif { name: "supply_limit_mult", kinds: ModifKinds { bits: MODIF_CHARACTER | MODIF_COUNTY | MODIF_PROVINCE }, shape: ModifShape::Numeric }),
        347 => Some(Modif { name: "world_innovation_camels_development_growth", kinds: ModifKinds { bits: MODIF_CHARACTER | MODIF_COUNTY | MODIF_PROVINCE }, shape: ModifShape::Numeric }),
        348 => Some(Modif { name: "world_innovation_camels_development_growth_factor", kinds: ModifKinds { bits: MODIF_CHARACTER | MODIF_COUNTY | MODIF_PROVINCE }, shape: ModifShape::Numeric }),
        349 => Some(Modif { name: "world_innovation_elephants_development_growth", kinds: ModifKinds { bits: MODIF_CHARACTER | MODIF_COUNTY | MODIF_PROVINCE }, shape: ModifShape::Numeric }),
        350 => Some(Modif { name: "world_innovation_elephants_development_growth_factor", kinds: ModifKinds { bits: MODIF_CHARACTER | MODIF_COUNTY | MODIF_PROVINCE }, shape: ModifShape::Numeric }),
        351 => Some(Modif { name: "world_steppe_development_growth", kinds: ModifKinds { bits: MODIF_CHARACTER | MODIF_COUNTY | MODIF_PROVINCE }, shape: ModifShape::Numeric }),
        352 => Some(Modif { name: "world_steppe_development_growth_factor", kinds: ModifKinds { bits: MODIF_CHARACTER | MODIF_COUNTY | MODIF_PROVINCE }, shape: ModifShape::Numeric }),
        353 => Some(Modif { name: "cultural_acceptance_gain_mult", kinds: ModifKinds { bits: MODIF_CULTURE }, shape: ModifShape::Numeric }),
        354 => Some(Modif { name: "culture_tradition_max_add", kinds: ModifKinds { bits: MODIF_CULTURE }, shape: ModifShape::Numeric }),
        355 => Some(Modif { name: "mercenary_count_mult", kinds: ModifKinds { bits: MODIF_CULTURE }, shape: ModifShape::Numeric }),
        356 => Some(Modif { name: "defender_winter_advantage", kinds: ModifKinds { bits: MODIF_PROVINCE }, shape: ModifShape::Numeric }),
        357 => Some(Modif { name: "hard_casualty_winter", kinds: ModifKinds { bits: MODIF_PROVINCE }, shape: ModifShape::Numeric }),
        358 => Some(Modif { name: "supply_loss_winter", kinds: ModifKinds { bits: MODIF_PROVINCE }, shape: ModifShape::Numeric }),
        359 => Some(Modif { name: "scheme_power", kinds: ModifKinds { bits: MODIF_SCHEME }, shape: ModifShape::Numeric }),
        360 => Some(Modif { name: "scheme_resistance", kinds: ModifKinds { bits: MODIF_SCHEME }, shape: ModifShape::Numeric }),
        361 => Some(Modif { name: "scheme_secrecy", kinds: ModifKinds { bits: MODIF_SCHEME }, shape: ModifShape::Numeric }),
        362 => Some(Modif { name: "scheme_success_chance", kinds: ModifKinds { bits: MODIF_SCHEME }, shape: ModifShape::Numeric }),
        _ => None,
    }
}

/// Whether every field called `name` is claimed.
pub open spec fn covers(marks: Seq<bool>, items: Seq<BlockItem>, name: Seq<char>) -> bool {
    forall|i: int| 0 <= i < marks.len() && #[trigger] items[i].is_named(name) ==> marks[i]
}

/// Whether `new` claims every node that `old` claims.
pub open spec fn grown(new: Seq<bool>, old: Seq<bool>) -> bool {
    new.len() == old.len() && forall|i: int| 0 <= i < old.len() && old[i] ==> #[trigger] new[i]
}

/// Whether the fields whose names derive from the definitions of a kind
/// are claimed: for each definition of the kind and each suffix, the field
/// called by the prefix, the definition's name and the suffix.
pub open spec fn derived_covered(
    data: &Everything,
    kind: Item,
    prefix: Seq<char>,
    suffixes: Seq<&'static str>,
    marks: Seq<bool>,
    items: Seq<BlockItem>,
) -> bool {
    forall|e: int, k: int|
        #![trigger data.db.entries()[e], suffixes[k]]
        0 <= e < data.db.entries().len() && data.db.entries()[e].kind == kind && 0 <= k < suffixes.len()
            ==> covers(marks, items, prefix + data.db.entries()[e].key@ + suffixes[k]@)
}

/// The effects that a terrain has on characters, as the ends of field
/// names.
pub open spec fn terrain_character_suffixes() -> Seq<&'static str> {
    seq!["_advantage", "_attrition_mult", "_cancel_negative_supply", "_max_combat_roll", "_min_combat_roll"]
}

/// The effects that a terrain has on provinces, as the ends of field
/// names.
pub open spec fn terrain_province_suffixes() -> Seq<&'static str> {
    seq![
        "_construction_gold_cost",
        "_construction_piety_cost",
        "_construction_prestige_cost",
        "_development_growth",
        "_development_growth_factor",
        "_holding_construction_gold_cost",
        "_holding_construction_piety_cost",
        "_holding_construction_prestige_cost",
        "_levy_size",
        "_supply_limit",
        "_supply_limit_mult",
        "_tax_mult",
    ]
}

/// Whether the fields of one row of the table are claimed, where the row
/// applies to modifiers of the kinds `kinds`.
pub open spec fn row_covered(m: Modif, kinds: ModifKinds, data: &Everything, marks: Seq<bool>, items: Seq<BlockItem>) -> bool {
    m.kinds.intersects(kinds) ==> match m.shape {
        ModifShape::TerrainCharacter => derived_covered(
            data,
            Item::Terrain,
            ""@,
            terrain_character_suffixes(),
            marks,
            items,
        ),
        ModifShape::FaithOpinion => derived_covered(data, Item::Faith, ""@, seq!["_opinion"], marks, items)
            && derived_covered(data, Item::Religion, ""@, seq!["_opinion"], marks, items),
        ModifShape::LifestyleXp => derived_covered(
            data,
            Item::Lifestyle,
            "monthly_"@,
            seq!["_xp_gain_mult"],
            marks,
            items,
        ),
        ModifShape::TerrainProvince => derived_covered(
            data,
            Item::Terrain,
            ""@,
            terrain_province_suffixes(),
            marks,
            items,
        ),
        _ => covers(marks, items, m.name@),
    }
}

/// Fields that are claimed stay claimed when more are claimed.
pub proof fn lemma_covered_grows(
    m: Modif,
    kinds: ModifKinds,
    data: &Everything,
    old: Seq<bool>,
    new: Seq<bool>,
    items: Seq<BlockItem>,
)
    requires
        grown(new, old),
        row_covered(m, kinds, data, old, items),
    ensures
        row_covered(m, kinds, data, new, items),
{
}

/// The marks after the fields were claimed whose names are `stem` and one
/// of the first `k` endings.
pub open spec fn endings_marks(
    marks: Seq<bool>,
    items: Seq<BlockItem>,
    stem: Seq<char>,
    suffixes: Seq<&'static str>,
    k: int,
) -> Seq<bool>
    decreases k,
{
    if k <= 0 || k > suffixes.len() {
        marks
    } else {
        claim(endings_marks(marks, items, stem, suffixes, k - 1), items, stem + suffixes[k - 1]@)
    }
}

/// What is reported of the fields whose names are `stem` and one of the
/// first `k` endings: each holds a number.
pub open spec fn endings_diags(
    block: &Block,
    data: &Everything,
    stem: Seq<char>,
    suffixes: Seq<&'static str>,
    k: int,
) -> Seq<DiagnosticView>
    decreases k,
{
    if k <= 0 || k > suffixes.len() {
        Seq::empty()
    } else {
        endings_diags(block, data, stem, suffixes, k - 1) + checked(
            block,
            stem + suffixes[k - 1]@,
            FieldKind::Numeric,
            data,
        )
    }
}

/// The marks after the fields were claimed whose names derive from the
/// first `e` definitions of the store: from those of the kind.
pub open spec fn derived_marks(
    marks: Seq<bool>,
    items: Seq<BlockItem>,
    data: &Everything,
    kind: Item,
    prefix: Seq<char>,
    suffixes: Seq<&'static str>,
    e: int,
) -> Seq<bool>
    decreases e,
{
    if e <= 0 || e > data.db.entries().len() {
        marks
    } else {
        let before = derived_marks(marks, items, data, kind, prefix, suffixes, e - 1);
        let entry = data.db.entries()[e - 1];
        if entry.kind == kind {
            endings_marks(before, items, prefix + entry.key@, suffixes, suffixes.len() as int)
        } else {
            before
        }
    }
}

/// What is reported of the fields whose names derive from the first `e`
/// definitions of the store.
pub open spec fn derived_diags(
    block: &Block,
    data: &Everything,
    kind: Item,
    prefix: Seq<char>,
    suffixes: Seq<&'static str>,
    e: int,
) -> Seq<DiagnosticView>
    decreases e,
{
    if e <= 0 || e > data.db.entries().len() {
        Seq::empty()
    } else {
        let before = derived_diags(block, data, kind, prefix, suffixes, e - 1);
        let entry = data.db.entries()[e - 1];
        if entry.kind == kind {
            before + endings_diags(block, data, prefix + entry.key@, suffixes, suffixes.len() as int)
        } else {
            before
        }
    }
}

/// Claims, as numeric fields, the fields whose names derive from the
/// definitions of a kind.
pub fn claim_derived(
    vd: &mut Validator,
    data: &Everything,
    kind: Item,
    prefix: &str,
    suffixes: &Vec<&'static str>,
    sink: &mut Sink,
)
    requires
        old(vd).wf(),
        old(vd).data() == data,
    ensures
        final(vd).wf(),
        final(vd).block() == old(vd).block(),
        final(vd).data() == old(vd).data(),
        grown(final(vd).marks(), old(vd).marks()),
        derived_covered(data, kind, prefix@, suffixes@, final(vd).marks(), old(vd).block().items@),
        final(vd).marks() == derived_marks(
            old(vd).marks(),
            old(vd).block().items@,
            data,
            kind,
            prefix@,
            suffixes@,
            data.db.entries().len() as int,
        ),
        final(sink)@ == old(sink)@ + derived_diags(
            old(vd).block(),
            data,
            kind,
            prefix@,
            suffixes@,
            data.db.entries().len() as int,
        ),
{
    let ghost items = vd.block().items@;
    let ghost block = vd.block();
    let ghost marks0 = vd.marks();
    assert(sink@ + Seq::<DiagnosticView>::empty() =~= sink@);
    let mut e: usize = 0;
    while e < data.db.len()
        invariant
            e <= data.db.entries().len(),
            vd.wf(),
            vd.block() == old(vd).block(),
            vd.data() == old(vd).data(),
            old(vd).data() == data,
            items == vd.block().items@,
            block == vd.block(),
            marks0 == old(vd).marks(),
            grown(vd.marks(), old(vd).marks()),
            vd.marks() == derived_marks(marks0, items, data, kind, prefix@, suffixes@, e as int),
            sink@ == old(sink)@ + derived_diags(block, data, kind, prefix@, suffixes@, e as int),
            forall|a: int, k: int|
                #![trigger data.db.entries()[a], suffixes@[k]]
                0 <= a < e && data.db.entries()[a].kind == kind && 0 <= k < suffixes@.len() ==> covers(
                    vd.marks(),
                    items,
                    prefix@ + data.db.entries()[a].key@ + suffixes@[k]@,
                ),
        decreases data.db.entries().len() - e,
    {
        let entry = data.db.entry(e);
        if entry.kind.ordinal() == kind.ordinal() {
            proof {
                lemma_ordinal_injective(entry.kind, kind);
            }
            let ghost marks1 = vd.marks();
            let ghost s1 = sink@;
            let ghost stem = prefix@ + entry.key@;
            assert(sink@ + Seq::<DiagnosticView>::empty() =~= sink@);
            let mut k: usize = 0;
            while k < suffixes.len()
                invariant
                    k <= suffixes@.len(),
                    e < data.db.entries().len(),
                    *entry == data.db.entries()[e as int],
                    vd.wf(),
                    vd.block() == old(vd).block(),
                    vd.data() == old(vd).data(),
                    old(vd).data() == data,
                    items == vd.block().items@,
                    block == vd.block(),
                    stem == prefix@ + entry.key@,
                    grown(vd.marks(), old(vd).marks()),
                    vd.marks() == endings_marks(marks1, items, stem, suffixes@, k as int),
                    sink@ == s1 + endings_diags(block, data, stem, suffixes@, k as int),
                    forall|a: int, j: int|
                        #![trigger data.db.entries()[a], suffixes@[j]]
                        0 <= a < e && data.db.entries()[a].kind == kind && 0 <= j < suffixes@.len() ==> covers(
                            vd.marks(),
                            items,
                            prefix@ + data.db.entries()[a].key@ + suffixes@[j]@,
                        ),
                    forall|j: int|
                        0 <= j < k ==> covers(vd.marks(), items, prefix@ + entry.key@ + (#[trigger] suffixes@[j])@),
                decreases suffixes@.len() - k,
            {
                let mut name = String::from_str(prefix);
                name.append(entry.key.as_str());
                name.append(suffixes[k]);
                let _ = vd.field_numeric(name.as_str(), sink);
                assert(sink@ =~= s1 + endings_diags(block, data, stem, suffixes@, k + 1));
                k += 1;
            }
            assert(sink@ =~= old(sink)@ + derived_diags(block, data, kind, prefix@, suffixes@, e + 1));
        }
        e += 1;
    }
}

/// The effects that a terrain has on characters, as the ends of field
/// names.
fn terrain_character_suffix_list() -> (r: Vec<&'static str>)
    ensures
        r@ == terrain_character_suffixes(),
{
    let r = vec!["_advantage", "_attrition_mult", "_cancel_negative_supply", "_max_combat_roll", "_min_combat_roll"];
    assert(r@ =~= terrain_character_suffixes());
    r
}

/// The effects that a terrain has on provinces, as the ends of field
/// names.
fn terrain_province_suffix_list() -> (r: Vec<&'static str>)
    ensures
        r@ == terrain_province_suffixes(),
{
    let r = vec![
        "_construction_gold_cost",
        "_construction_piety_cost",
        "_construction_prestige_cost",
        "_development_growth",
        "_development_growth_factor",
        "_holding_construction_gold_cost",
        "_holding_construction_piety_cost",
        "_holding_construction_prestige_cost",
        "_levy_size",
        "_supply_limit",
        "_supply_limit_mult",
        "_tax_mult",
    ];
    assert(r@ =~= terrain_province_suffixes());
    r
}

/// The context in which the numeric expressions of a modifier are
/// validated: each by itself, in no scope.
pub open spec fn no_scope() -> ContextView {
    ContextView::unrooted(Scopes { bits: SCOPE_NONE })
}

/// The marks after the fields of one row of the table were claimed.
pub open spec fn row_marks(m: Modif, data: &Everything, marks: Seq<bool>, items: Seq<BlockItem>) -> Seq<bool> {
    let all = data.db.entries().len() as int;
    match m.shape {
        ModifShape::TerrainCharacter => derived_marks(
            marks,
            items,
            data,
            Item::Terrain,
            ""@,
            terrain_character_suffixes(),
            all,
        ),
        ModifShape::FaithOpinion => derived_marks(
            derived_marks(marks, items, data, Item::Faith, ""@, seq!["_opinion"], all),
            items,
            data,
            Item::Religion,
            ""@,
            seq!["_opinion"],
            all,
        ),
        ModifShape::LifestyleXp => derived_marks(
            marks,
            items,
            data,
            Item::Lifestyle,
            "monthly_"@,
            seq!["_xp_gain_mult"],
            all,
        ),
        ModifShape::TerrainProvince => derived_marks(
            marks,
            items,
            data,
            Item::Terrain,
            ""@,
            terrain_province_suffixes(),
            all,
        ),
        _ => claim(marks, items, m.name@),
    }
}

/// What the validation of the fields of one row of the table comes to: a
/// field holds a number or `yes` or `no`, or a numeric expression, which
/// is validated by itself in no scope; of a family of fields, each holds
/// a number.
pub open spec fn row_out(m: Modif, block: &Block, data: &Everything, st: State) -> Outcome {
    let all = data.db.entries().len() as int;
    match m.shape {
        ModifShape::Numeric => only(st, checked(block, m.name@, FieldKind::Numeric, data)),
        ModifShape::Bool => only(st, checked(block, m.name@, FieldKind::Bool, data)),
        ModifShape::ScriptValue => script_value_field_out(block, m.name@, data, st.with(no_scope())),
        ModifShape::TerrainCharacter => only(
            st,
            derived_diags(block, data, Item::Terrain, ""@, terrain_character_suffixes(), all),
        ),
        ModifShape::FaithOpinion => only(
            st,
            derived_diags(block, data, Item::Faith, ""@, seq!["_opinion"], all) + derived_diags(
                block,
                data,
                Item::Religion,
                ""@,
                seq!["_opinion"],
                all,
            ),
        ),
        ModifShape::LifestyleXp => only(
            st,
            derived_diags(block, data, Item::Lifestyle, "monthly_"@, seq!["_xp_gain_mult"], all),
        ),
        ModifShape::TerrainProvince => only(
            st,
            derived_diags(block, data, Item::Terrain, ""@, terrain_province_suffixes(), all),
        ),
    }
}

/// Whether row `j` of the table applies to modifiers of the kinds.
pub open spec fn row_applies(j: int, kinds: ModifKinds) -> bool {
    0 <= j < MODIF_COUNT && spec_modif(j as usize) is Some && spec_modif(j as usize)->0.kinds.intersects(kinds)
}

/// The marks after the fields of the first `n` rows of the table were
/// claimed, of the rows that apply to modifiers of the kinds.
pub open spec fn modifs_marks(
    kinds: ModifKinds,
    data: &Everything,
    marks: Seq<bool>,
    items: Seq<BlockItem>,
    n: int,
) -> Seq<bool>
    decreases n,
{
    if n <= 0 || n > MODIF_COUNT {
        marks
    } else {
        let before = modifs_marks(kinds, data, marks, items, n - 1);
        if row_applies(n - 1, kinds) {
            row_marks(spec_modif((n - 1) as usize)->0, data, before, items)
        } else {
            before
        }
    }
}

/// What the validation of the fields of the first `n` rows of the table
/// comes to, of the rows that apply to modifiers of the kinds, in the
/// order of the table.
pub open spec fn modifs_walk(kinds: ModifKinds, block: &Block, data: &Everything, st: State, n: int) -> Outcome
    decreases n,
{
    if n <= 0 || n > MODIF_COUNT {
        nothing(st)
    } else {
        let before = modifs_walk(kinds, block, data, st, n - 1);
        if row_applies(n - 1, kinds) {
            after(before, row_out(spec_modif((n - 1) as usize)->0, block, data, before.st.with(no_scope())))
        } else {
            before
        }
    }
}

/// Claims and checks the fields of one row of the table.
fn claim_row(
    m: Modif,
    kinds: ModifKinds,
    data: &Everything,
    vd: &mut Validator,
    caches: &mut Caches,
    sink: &mut Sink,
)
    requires
        old(vd).wf(),
        old(vd).data() == data,
        fits(old(caches), data),
        m.kinds.intersects(kinds),
    ensures
        final(vd).wf(),
        final(vd).block() == old(vd).block(),
        final(vd).data() == old(vd).data(),
        grown(final(vd).marks(), old(vd).marks()),
        fits(final(caches), data),
        final(caches).holds_all_of(old(caches)),
        extends(final(sink)@, old(sink)@),
        row_covered(m, kinds, data, final(vd).marks(), old(vd).block().items@),
        final(vd).marks() == row_marks(m, data, old(vd).marks(), old(vd).block().items@),
        reports(
            row_out(m, old(vd).block(), data, state(no_scope(), old(caches))),
            final(caches),
            final(sink)@,
            old(sink)@,
        ),
{
    let ghost block = vd.block();
    match m.shape {
        ModifShape::Numeric => {
            let _ = vd.field_numeric(m.name, sink);
        },
        ModifShape::Bool => {
            let _ = vd.field_bool(m.name, sink);
        },
        ModifShape::ScriptValue => {
            let source = Token::from_loc(vd.get_block().loc.clone());
            let mut sc = ScopeContext::new_unrooted(Scopes { bits: SCOPE_NONE }, source);
            field_script_value(vd, m.name, data, &mut sc, caches, sink);
        },
        ModifShape::TerrainCharacter => {
            let suffixes = terrain_character_suffix_list();
            claim_derived(vd, data, Item::Terrain, "", &suffixes, sink);
        },
        ModifShape::FaithOpinion => {
            let suffixes: Vec<&'static str> = vec!["_opinion"];
            assert(suffixes@ =~= seq!["_opinion"]);
            claim_derived(vd, data, Item::Faith, "", &suffixes, sink);
            claim_derived(vd, data, Item::Religion, "", &suffixes, sink);
            assert(sink@ =~= old(sink)@ + row_out(m, block, data, state(no_scope(), old(caches))).diags);
        },
        ModifShape::LifestyleXp => {
            let suffixes: Vec<&'static str> = vec!["_xp_gain_mult"];
            assert(suffixes@ =~= seq!["_xp_gain_mult"]);
            claim_derived(vd, data, Item::Lifestyle, "monthly_", &suffixes, sink);
        },
        ModifShape::TerrainProvince => {
            let suffixes = terrain_province_suffix_list();
            claim_derived(vd, data, Item::Terrain, "", &suffixes, sink);
        },
    }
}

/// Claims and checks the fields of a modifier of the kinds `kinds`: for
/// each row of the table that applies to one of the kinds, the fields of
/// the row, in the order of the table.
pub fn validate_modifs(
    _block: &Block,
    data: &Everything,
    kinds: ModifKinds,
    vd: &mut Validator,
    caches: &mut Caches,
    sink: &mut Sink,
)
    requires
        old(vd).wf(),
        old(vd).data() == data,
        fits(old(caches), data),
    ensures
        final(vd).wf(),
        final(vd).block() == old(vd).block(),
        final(vd).data() == old(vd).data(),
        grown(final(vd).marks(), old(vd).marks()),
        fits(final(caches), data),
        final(caches).holds_all_of(old(caches)),
        extends(final(sink)@, old(sink)@),
        forall|j: usize|
            j < MODIF_COUNT ==> row_covered(
                (#[trigger] spec_modif(j))->0,
                kinds,
                data,
                final(vd).marks(),
                old(vd).block().items@,
            ),
        final(vd).marks() == modifs_marks(
            kinds,
            data,
            old(vd).marks(),
            old(vd).block().items@,
            MODIF_COUNT as int,
        ),
        reports(
            modifs_walk(kinds, old(vd).block(), data, state(no_scope(), old(caches)), MODIF_COUNT as int),
            final(caches),
            final(sink)@,
            old(sink)@,
        ),
{
    let ghost items = vd.block().items@;
    let ghost block = vd.block();
    let ghost st0 = state(no_scope(), old(caches));
    assert(sink@ + Seq::<DiagnosticView>::empty() =~= sink@);
    let mut i: usize = 0;
    while i < MODIF_COUNT
        invariant
            i <= MODIF_COUNT,
            vd.wf(),
            vd.block() == old(vd).block(),
            vd.data() == old(vd).data(),
            old(vd).data() == data,
            items == old(vd).block().items@,
            block == old(vd).block(),
            grown(vd.marks(), old(vd).marks()),
            fits(caches, data),
            caches.holds_all_of(old(caches)),
            extends(sink@, old(sink)@),
            forall|j: usize| j < i ==> row_covered((#[trigger] spec_modif(j))->0, kinds, data, vd.marks(), items),
            vd.marks() == modifs_marks(kinds, data, old(vd).marks(), items, i as int),
            st0 == state(no_scope(), old(caches)),
            reports(modifs_walk(kinds, block, data, st0, i as int), caches, sink@, old(sink)@),
        decreases MODIF_COUNT - i,
    {
        let ghost before = vd.marks();
        let ghost (k_mid, s_mid) = (*caches, sink@);
        if let Some(m) = modif(i) {
            if m.kinds.intersects(kinds) {
                claim_row(m, kinds, data, vd, caches, sink);
                proof {
                    let before_row = modifs_walk(kinds, block, data, st0, i as int);
                    assert(before_row.st.with(no_scope()) == state(no_scope(), &k_mid));
                    lemma_reports_after(
                        before_row,
                        row_out(m, block, data, before_row.st.with(no_scope())),
                        caches,
                        old(sink)@,
                        s_mid,
                        sink@,
                    );
                }
            }
        }
        proof {
            assert forall|j: usize| j < i + 1 implies row_covered(
                (#[trigger] spec_modif(j))->0,
                kinds,
                data,
                vd.marks(),
                items,
            ) by {
                if j < i {
                    lemma_covered_grows(spec_modif(j)->0, kinds, data, before, vd.marks(), items);
                }
            }
        }
        i += 1;
    }
}

} // verus!
