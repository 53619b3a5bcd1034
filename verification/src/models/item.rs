//! The `Item` resource: the record, its identifier newtype, and the three
//! closed enums with their exact wire-string mappings.

use vstd::prelude::*;

use crate::custom_serde::empty_string_option;
use crate::custom_serde::ok_or_default::{spec_u32_or_default, u32_or_default};
use crate::json::{spec_get, spec_view_obj, JsonValue, SpecJson};
use crate::models::{
    get_int_bool, get_str_bool, get_string, get_u32, spec_get_int_bool, spec_get_str,
    spec_get_str_bool, spec_get_u32, FieldError, SmmoModel,
};
use crate::strings::str_eq;

verus! {

/// An item identifier; exists purely to keep id spaces apart.
#[derive(Debug, PartialEq, Eq, Structural, Hash, Clone, Copy)]
pub struct ItemId(pub u32);

impl ItemId {
    /// The wrapped numeric id.
    pub fn inner(self) -> (r: u32)
        ensures
            r == self.0,
    {
        self.0
    }
}

impl PartialOrd for ItemId {
    /// Ordering forwards to the wrapped integer.
    fn partial_cmp(&self, other: &ItemId) -> (r: Option<core::cmp::Ordering>) {
        if self.0 < other.0 {
            Some(core::cmp::Ordering::Less)
        } else if self.0 == other.0 {
            Some(core::cmp::Ordering::Equal)
        } else {
            Some(core::cmp::Ordering::Greater)
        }
    }
}

impl vstd::std_specs::cmp::PartialOrdSpecImpl for ItemId {
    open spec fn obeys_partial_cmp_spec() -> bool {
        true
    }

    open spec fn partial_cmp_spec(&self, other: &ItemId) -> Option<core::cmp::Ordering> {
        if self.0 < other.0 {
            Some(core::cmp::Ordering::Less)
        } else if self.0 == other.0 {
            Some(core::cmp::Ordering::Equal)
        } else {
            Some(core::cmp::Ordering::Greater)
        }
    }
}

/// The closed set of item categories, with the exact wire strings.
#[derive(Debug, PartialEq, Eq, Structural, Hash, Clone, Copy)]
pub enum ItemType {
    Weapon,
    Helmet,
    Amulet,
    Armour,
    Shield,
    Greaves,
    Boots,
    Special,
    Pet,
    WoodAxe,
    Pickaxe,
    FishingRod,
    Shovel,
    Material,
    Food,
    Other,
    Collectable,
    Avatar,
    Sprite,
    ItemSprite,
    Grenade,
    Book,
    Background,
    Diamonds,
    EventItem,
}

/// The category a wire string names, case-sensitively.
pub open spec fn spec_item_type_from_wire(s: Seq<char>) -> Option<ItemType> {
    if s == "Weapon"@ {
        Some(ItemType::Weapon)
    } else if s == "Helmet"@ {
        Some(ItemType::Helmet)
    } else if s == "Amulet"@ {
        Some(ItemType::Amulet)
    } else if s == "Armour"@ {
        Some(ItemType::Armour)
    } else if s == "Shield"@ {
        Some(ItemType::Shield)
    } else if s == "Greaves"@ {
        Some(ItemType::Greaves)
    } else if s == "Boots"@ {
        Some(ItemType::Boots)
    } else if s == "Special"@ {
        Some(ItemType::Special)
    } else if s == "Pet"@ {
        Some(ItemType::Pet)
    } else if s == "Wood Axe"@ {
        Some(ItemType::WoodAxe)
    } else if s == "Pickaxe"@ {
        Some(ItemType::Pickaxe)
    } else if s == "Fishing Rod"@ {
        Some(ItemType::FishingRod)
    } else if s == "Shovel"@ {
        Some(ItemType::Shovel)
    } else if s == "Material"@ {
        Some(ItemType::Material)
    } else if s == "Food"@ {
        Some(ItemType::Food)
    } else if s == "Other"@ {
        Some(ItemType::Other)
    } else if s == "Collectable"@ {
        Some(ItemType::Collectable)
    } else if s == "Avatar"@ {
        Some(ItemType::Avatar)
    } else if s == "Sprite"@ {
        Some(ItemType::Sprite)
    } else if s == "Item Sprite"@ {
        Some(ItemType::ItemSprite)
    } else if s == "Grenade"@ {
        Some(ItemType::Grenade)
    } else if s == "Book"@ {
        Some(ItemType::Book)
    } else if s == "Background"@ {
        Some(ItemType::Background)
    } else if s == "Diamonds"@ {
        Some(ItemType::Diamonds)
    } else if s == "Event Item"@ {
        Some(ItemType::EventItem)
    } else {
        None
    }
}

/// The wire string of a category.
pub open spec fn spec_item_type_wire(t: ItemType) -> Seq<char> {
    match t {
        ItemType::Weapon => "Weapon"@,
        ItemType::Helmet => "Helmet"@,
        ItemType::Amulet => "Amulet"@,
        ItemType::Armour => "Armour"@,
        ItemType::Shield => "Shield"@,
        ItemType::Greaves => "Greaves"@,
        ItemType::Boots => "Boots"@,
        ItemType::Special => "Special"@,
        ItemType::Pet => "Pet"@,
        ItemType::WoodAxe => "Wood Axe"@,
        ItemType::Pickaxe => "Pickaxe"@,
        ItemType::FishingRod => "Fishing Rod"@,
        ItemType::Shovel => "Shovel"@,
        ItemType::Material => "Material"@,
        ItemType::Food => "Food"@,
        ItemType::Other => "Other"@,
        ItemType::Collectable => "Collectable"@,
        ItemType::Avatar => "Avatar"@,
        ItemType::Sprite => "Sprite"@,
        ItemType::ItemSprite => "Item Sprite"@,
        ItemType::Grenade => "Grenade"@,
        ItemType::Book => "Book"@,
        ItemType::Background => "Background"@,
        ItemType::Diamonds => "Diamonds"@,
        ItemType::EventItem => "Event Item"@,
    }
}

/// The display name of a category: the wire string without spaces.
pub open spec fn spec_item_type_display(t: ItemType) -> Seq<char> {
    match t {
        ItemType::Weapon => "Weapon"@,
        ItemType::Helmet => "Helmet"@,
        ItemType::Amulet => "Amulet"@,
        ItemType::Armour => "Armour"@,
        ItemType::Shield => "Shield"@,
        ItemType::Greaves => "Greaves"@,
        ItemType::Boots => "Boots"@,
        ItemType::Special => "Special"@,
        ItemType::Pet => "Pet"@,
        ItemType::WoodAxe => "WoodAxe"@,
        ItemType::Pickaxe => "Pickaxe"@,
        ItemType::FishingRod => "FishingRod"@,
        ItemType::Shovel => "Shovel"@,
        ItemType::Material => "Material"@,
        ItemType::Food => "Food"@,
        ItemType::Other => "Other"@,
        ItemType::Collectable => "Collectable"@,
        ItemType::Avatar => "Avatar"@,
        ItemType::Sprite => "Sprite"@,
        ItemType::ItemSprite => "ItemSprite"@,
        ItemType::Grenade => "Grenade"@,
        ItemType::Book => "Book"@,
        ItemType::Background => "Background"@,
        ItemType::Diamonds => "Diamonds"@,
        ItemType::EventItem => "EventItem"@,
    }
}

impl ItemType {
    /// Decodes the wire string of a category, case must match exactly.
    pub fn from_wire(s: &str) -> (r: Option<ItemType>)
        ensures
            r == spec_item_type_from_wire(s@),
    {
        if str_eq(s, "Weapon") {
            Some(ItemType::Weapon)
        } else if str_eq(s, "Helmet") {
            Some(ItemType::Helmet)
        } else if str_eq(s, "Amulet") {
            Some(ItemType::Amulet)
        } else if str_eq(s, "Armour") {
            Some(ItemType::Armour)
        } else if str_eq(s, "Shield") {
            Some(ItemType::Shield)
        } else if str_eq(s, "Greaves") {
            Some(ItemType::Greaves)
        } else if str_eq(s, "Boots") {
            Some(ItemType::Boots)
        } else if str_eq(s, "Special") {
            Some(ItemType::Special)
        } else if str_eq(s, "Pet") {
            Some(ItemType::Pet)
        } else if str_eq(s, "Wood Axe") {
            Some(ItemType::WoodAxe)
        } else if str_eq(s, "Pickaxe") {
            Some(ItemType::Pickaxe)
        } else if str_eq(s, "Fishing Rod") {
            Some(ItemType::FishingRod)
        } else if str_eq(s, "Shovel") {
            Some(ItemType::Shovel)
        } else if str_eq(s, "Material") {
            Some(ItemType::Material)
        } else if str_eq(s, "Food") {
            Some(ItemType::Food)
        } else if str_eq(s, "Other") {
            Some(ItemType::Other)
        } else if str_eq(s, "Collectable") {
            Some(ItemType::Collectable)
        } else if str_eq(s, "Avatar") {
            Some(ItemType::Avatar)
        } else if str_eq(s, "Sprite") {
            Some(ItemType::Sprite)
        } else if str_eq(s, "Item Sprite") {
            Some(ItemType::ItemSprite)
        } else if str_eq(s, "Grenade") {
            Some(ItemType::Grenade)
        } else if str_eq(s, "Book") {
            Some(ItemType::Book)
        } else if str_eq(s, "Background") {
            Some(ItemType::Background)
        } else if str_eq(s, "Diamonds") {
            Some(ItemType::Diamonds)
        } else if str_eq(s, "Event Item") {
            Some(ItemType::EventItem)
        } else {
            None
        }
    }

    /// The wire string of this category, as re-encoding emits it.
    pub fn wire_name(&self) -> (r: &'static str)
        ensures
            r@ == spec_item_type_wire(*self),
    {
        match self {
            ItemType::Weapon => "Weapon",
            ItemType::Helmet => "Helmet",
            ItemType::Amulet => "Amulet",
            ItemType::Armour => "Armour",
            ItemType::Shield => "Shield",
            ItemType::Greaves => "Greaves",
            ItemType::Boots => "Boots",
            ItemType::Special => "Special",
            ItemType::Pet => "Pet",
            ItemType::WoodAxe => "Wood Axe",
            ItemType::Pickaxe => "Pickaxe",
            ItemType::FishingRod => "Fishing Rod",
            ItemType::Shovel => "Shovel",
            ItemType::Material => "Material",
            ItemType::Food => "Food",
            ItemType::Other => "Other",
            ItemType::Collectable => "Collectable",
            ItemType::Avatar => "Avatar",
            ItemType::Sprite => "Sprite",
            ItemType::ItemSprite => "Item Sprite",
            ItemType::Grenade => "Grenade",
            ItemType::Book => "Book",
            ItemType::Background => "Background",
            ItemType::Diamonds => "Diamonds",
            ItemType::EventItem => "Event Item",
        }
    }

    /// The display name of this category: the wire name without spaces.
    pub fn display_name(&self) -> (r: &'static str)
        ensures
            r@ == spec_item_type_display(*self),
    {
        match self {
            ItemType::Weapon => "Weapon",
            ItemType::Helmet => "Helmet",
            ItemType::Amulet => "Amulet",
            ItemType::Armour => "Armour",
            ItemType::Shield => "Shield",
            ItemType::Greaves => "Greaves",
            ItemType::Boots => "Boots",
            ItemType::Special => "Special",
            ItemType::Pet => "Pet",
            ItemType::WoodAxe => "WoodAxe",
            ItemType::Pickaxe => "Pickaxe",
            ItemType::FishingRod => "FishingRod",
            ItemType::Shovel => "Shovel",
            ItemType::Material => "Material",
            ItemType::Food => "Food",
            ItemType::Other => "Other",
            ItemType::Collectable => "Collectable",
            ItemType::Avatar => "Avatar",
            ItemType::Sprite => "Sprite",
            ItemType::ItemSprite => "ItemSprite",
            ItemType::Grenade => "Grenade",
            ItemType::Book => "Book",
            ItemType::Background => "Background",
            ItemType::Diamonds => "Diamonds",
            ItemType::EventItem => "EventItem",
        }
    }
}

/// Decoding a category's own wire string gives that category back.
pub proof fn lemma_item_type_wire_round_trip(t: ItemType)
    ensures
        spec_item_type_from_wire(spec_item_type_wire(t)) == Some(t),
{
    reveal_strlit("Weapon");
    reveal_strlit("Helmet");
    reveal_strlit("Amulet");
    reveal_strlit("Armour");
    reveal_strlit("Shield");
    reveal_strlit("Greaves");
    reveal_strlit("Boots");
    reveal_strlit("Special");
    reveal_strlit("Pet");
    reveal_strlit("Wood Axe");
    reveal_strlit("Pickaxe");
    reveal_strlit("Fishing Rod");
    reveal_strlit("Shovel");
    reveal_strlit("Material");
    reveal_strlit("Food");
    reveal_strlit("Other");
    reveal_strlit("Collectable");
    reveal_strlit("Avatar");
    reveal_strlit("Sprite");
    reveal_strlit("Item Sprite");
    reveal_strlit("Grenade");
    reveal_strlit("Book");
    reveal_strlit("Background");
    reveal_strlit("Diamonds");
    reveal_strlit("Event Item");
    assert(("Weapon"@) =~= seq!['W', 'e', 'a', 'p', 'o', 'n']);
    assert(("Helmet"@) =~= seq!['H', 'e', 'l', 'm', 'e', 't']);
    assert(("Amulet"@) =~= seq!['A', 'm', 'u', 'l', 'e', 't']);
    assert(("Armour"@) =~= seq!['A', 'r', 'm', 'o', 'u', 'r']);
    assert(("Shield"@) =~= seq!['S', 'h', 'i', 'e', 'l', 'd']);
    assert(("Greaves"@) =~= seq!['G', 'r', 'e', 'a', 'v', 'e', 's']);
    assert(("Boots"@) =~= seq!['B', 'o', 'o', 't', 's']);
    assert(("Special"@) =~= seq!['S', 'p', 'e', 'c', 'i', 'a', 'l']);
    assert(("Pet"@) =~= seq!['P', 'e', 't']);
    assert(("Wood Axe"@) =~= seq!['W', 'o', 'o', 'd', ' ', 'A', 'x', 'e']);
    assert(("Pickaxe"@) =~= seq!['P', 'i', 'c', 'k', 'a', 'x', 'e']);
    assert(("Fishing Rod"@) =~= seq!['F', 'i', 's', 'h', 'i', 'n', 'g', ' ', 'R', 'o', 'd']);
    assert(("Shovel"@) =~= seq!['S', 'h', 'o', 'v', 'e', 'l']);
    assert(("Material"@) =~= seq!['M', 'a', 't', 'e', 'r', 'i', 'a', 'l']);
    assert(("Food"@) =~= seq!['F', 'o', 'o', 'd']);
    assert(("Other"@) =~= seq!['O', 't', 'h', 'e', 'r']);
    assert(("Collectable"@) =~= seq!['C', 'o', 'l', 'l', 'e', 'c', 't', 'a', 'b', 'l', 'e']);
    assert(("Avatar"@) =~= seq!['A', 'v', 'a', 't', 'a', 'r']);
    assert(("Sprite"@) =~= seq!['S', 'p', 'r', 'i', 't', 'e']);
    assert(("Item Sprite"@) =~= seq!['I', 't', 'e', 'm', ' ', 'S', 'p', 'r', 'i', 't', 'e']);
    assert(("Grenade"@) =~= seq!['G', 'r', 'e', 'n', 'a', 'd', 'e']);
    assert(("Book"@) =~= seq!['B', 'o', 'o', 'k']);
    assert(("Background"@) =~= seq!['B', 'a', 'c', 'k', 'g', 'r', 'o', 'u', 'n', 'd']);
    assert(("Diamonds"@) =~= seq!['D', 'i', 'a', 'm', 'o', 'n', 'd', 's']);
    assert(("Event Item"@) =~= seq!['E', 'v', 'e', 'n', 't', ' ', 'I', 't', 'e', 'm']);
    match t {
        ItemType::Weapon => assert(spec_item_type_from_wire("Weapon"@) == Some(t)),
        ItemType::Helmet => assert(spec_item_type_from_wire("Helmet"@) == Some(t)),
        ItemType::Amulet => assert(spec_item_type_from_wire("Amulet"@) == Some(t)),
        ItemType::Armour => assert(spec_item_type_from_wire("Armour"@) == Some(t)),
        ItemType::Shield => assert(spec_item_type_from_wire("Shield"@) == Some(t)),
        ItemType::Greaves => assert(spec_item_type_from_wire("Greaves"@) == Some(t)),
        ItemType::Boots => assert(spec_item_type_from_wire("Boots"@) == Some(t)),
        ItemType::Special => assert(spec_item_type_from_wire("Special"@) == Some(t)),
        ItemType::Pet => assert(spec_item_type_from_wire("Pet"@) == Some(t)),
        ItemType::WoodAxe => assert(spec_item_type_from_wire("Wood Axe"@) == Some(t)),
        ItemType::Pickaxe => assert(spec_item_type_from_wire("Pickaxe"@) == Some(t)),
        ItemType::FishingRod => assert(spec_item_type_from_wire("Fishing Rod"@) == Some(t)),
        ItemType::Shovel => assert(spec_item_type_from_wire("Shovel"@) == Some(t)),
        ItemType::Material => assert(spec_item_type_from_wire("Material"@) == Some(t)),
        ItemType::Food => assert(spec_item_type_from_wire("Food"@) == Some(t)),
        ItemType::Other => assert(spec_item_type_from_wire("Other"@) == Some(t)),
        ItemType::Collectable => assert(spec_item_type_from_wire("Collectable"@) == Some(t)),
        ItemType::Avatar => assert(spec_item_type_from_wire("Avatar"@) == Some(t)),
        ItemType::Sprite => assert(spec_item_type_from_wire("Sprite"@) == Some(t)),
        ItemType::ItemSprite => assert(spec_item_type_from_wire("Item Sprite"@) == Some(t)),
        ItemType::Grenade => assert(spec_item_type_from_wire("Grenade"@) == Some(t)),
        ItemType::Book => assert(spec_item_type_from_wire("Book"@) == Some(t)),
        ItemType::Background => assert(spec_item_type_from_wire("Background"@) == Some(t)),
        ItemType::Diamonds => assert(spec_item_type_from_wire("Diamonds"@) == Some(t)),
        ItemType::EventItem => assert(spec_item_type_from_wire("Event Item"@) == Some(t)),
    }
}

/// The closed, ordered set of rarities, with the two historically
/// misspelled wire aliases.
#[derive(Debug, PartialEq, Eq, Structural, Hash, Clone, Copy)]
pub enum ItemRarity {
    Common,
    Uncommon,
    Rare,
    Epic,
    Elite,
    Legendary,
    Exotic,
    Celestial,
}

/// The rarity a wire string names: each canonical spelling, and the two
/// historical misspellings the upstream API once emitted.
pub open spec fn spec_item_rarity_from_wire(s: Seq<char>) -> Option<ItemRarity> {
    if s == "Common"@ {
        Some(ItemRarity::Common)
    } else if s == "Uncommon"@ {
        Some(ItemRarity::Uncommon)
    } else if s == "Rare"@ {
        Some(ItemRarity::Rare)
    } else if s == "Epic"@ {
        Some(ItemRarity::Epic)
    } else if s == "Elite"@ || s == "Elilte"@ {
        Some(ItemRarity::Elite)
    } else if s == "Legendary"@ || s == "Lengendary"@ {
        Some(ItemRarity::Legendary)
    } else if s == "Exotic"@ {
        Some(ItemRarity::Exotic)
    } else if s == "Celestial"@ {
        Some(ItemRarity::Celestial)
    } else {
        None
    }
}

/// The canonical wire string of a rarity.
pub open spec fn spec_item_rarity_wire(r: ItemRarity) -> Seq<char> {
    match r {
        ItemRarity::Common => "Common"@,
        ItemRarity::Uncommon => "Uncommon"@,
        ItemRarity::Rare => "Rare"@,
        ItemRarity::Epic => "Epic"@,
        ItemRarity::Elite => "Elite"@,
        ItemRarity::Legendary => "Legendary"@,
        ItemRarity::Exotic => "Exotic"@,
        ItemRarity::Celestial => "Celestial"@,
    }
}

impl ItemRarity {
    /// Decodes the wire string of a rarity, accepting both the canonical
    /// spelling and the historical misspellings.
    pub fn from_wire(s: &str) -> (r: Option<ItemRarity>)
        ensures
            r == spec_item_rarity_from_wire(s@),
    {
        if str_eq(s, "Common") {
            Some(ItemRarity::Common)
        } else if str_eq(s, "Uncommon") {
            Some(ItemRarity::Uncommon)
        } else if str_eq(s, "Rare") {
            Some(ItemRarity::Rare)
        } else if str_eq(s, "Epic") {
            Some(ItemRarity::Epic)
        } else if str_eq(s, "Elite") || str_eq(s, "Elilte") {
            Some(ItemRarity::Elite)
        } else if str_eq(s, "Legendary") || str_eq(s, "Lengendary") {
            Some(ItemRarity::Legendary)
        } else if str_eq(s, "Exotic") {
            Some(ItemRarity::Exotic)
        } else if str_eq(s, "Celestial") {
            Some(ItemRarity::Celestial)
        } else {
            None
        }
    }

    /// The canonical wire string of this rarity.
    pub fn wire_name(&self) -> (r: &'static str)
        ensures
            r@ == spec_item_rarity_wire(*self),
    {
        match self {
            ItemRarity::Common => "Common",
            ItemRarity::Uncommon => "Uncommon",
            ItemRarity::Rare => "Rare",
            ItemRarity::Epic => "Epic",
            ItemRarity::Elite => "Elite",
            ItemRarity::Legendary => "Legendary",
            ItemRarity::Exotic => "Exotic",
            ItemRarity::Celestial => "Celestial",
        }
    }

    /// The display colour of this rarity, as a 24-bit `0xRRGGBB` value.
    pub fn colour_hex(&self) -> (r: u32)
        ensures
            r == spec_colour_hex(*self),
    {
        match self {
            ItemRarity::Common => 0x34495E,
            ItemRarity::Uncommon => 0x2980B9,
            ItemRarity::Rare => 0xE67E22,
            ItemRarity::Epic => 0x8E44AD,
            ItemRarity::Elite => 0xC0392B,
            ItemRarity::Legendary => 0xF1C40F,
            ItemRarity::Exotic => 0x27AE60,
            ItemRarity::Celestial => 0x00F6FF,
        }
    }

    /// The display colour of this rarity, as red, green and blue channels.
    pub fn colour_rgb(&self) -> (rgb: (u8, u8, u8))
        ensures
            rgb.0 == spec_colour_rgb(*self).0,
            rgb.1 == spec_colour_rgb(*self).1,
            rgb.2 == spec_colour_rgb(*self).2,
    {
        let hex = self.colour_hex();
        let r = ((hex >> 16) & 255) as u8;
        let g = ((hex >> 8) & 255) as u8;
        let b = (hex & 255) as u8;
        (r, g, b)
    }
}

/// The display colour of a rarity, as a 24-bit `0xRRGGBB` value.
pub open spec fn spec_colour_hex(r: ItemRarity) -> u32 {
    match r {
        ItemRarity::Common => 0x34495E,
        ItemRarity::Uncommon => 0x2980B9,
        ItemRarity::Rare => 0xE67E22,
        ItemRarity::Epic => 0x8E44AD,
        ItemRarity::Elite => 0xC0392B,
        ItemRarity::Legendary => 0xF1C40F,
        ItemRarity::Exotic => 0x27AE60,
        ItemRarity::Celestial => 0x00F6FF,
    }
}

/// The display colour of a rarity, split into its three channels.
pub open spec fn spec_colour_rgb(r: ItemRarity) -> (u8, u8, u8) {
    (
        ((spec_colour_hex(r) >> 16) & 255) as u8,
        ((spec_colour_hex(r) >> 8) & 255) as u8,
        (spec_colour_hex(r) & 255) as u8,
    )
}

/// Decoding a rarity's canonical wire string gives that rarity back.
pub proof fn lemma_item_rarity_wire_round_trip(r: ItemRarity)
    ensures
        spec_item_rarity_from_wire(spec_item_rarity_wire(r)) == Some(r),
{
    reveal_strlit("Common");
    reveal_strlit("Uncommon");
    reveal_strlit("Rare");
    reveal_strlit("Epic");
    reveal_strlit("Elite");
    reveal_strlit("Elilte");
    reveal_strlit("Legendary");
    reveal_strlit("Lengendary");
    reveal_strlit("Exotic");
    reveal_strlit("Celestial");
    assert(("Common"@) =~= seq!['C', 'o', 'm', 'm', 'o', 'n']);
    assert(("Uncommon"@) =~= seq!['U', 'n', 'c', 'o', 'm', 'm', 'o', 'n']);
    assert(("Rare"@) =~= seq!['R', 'a', 'r', 'e']);
    assert(("Epic"@) =~= seq!['E', 'p', 'i', 'c']);
    assert(("Elite"@) =~= seq!['E', 'l', 'i', 't', 'e']);
    assert(("Elilte"@) =~= seq!['E', 'l', 'i', 'l', 't', 'e']);
    assert(("Legendary"@) =~= seq!['L', 'e', 'g', 'e', 'n', 'd', 'a', 'r', 'y']);
    assert(("Lengendary"@) =~= seq!['L', 'e', 'n', 'g', 'e', 'n', 'd', 'a', 'r', 'y']);
    assert(("Exotic"@) =~= seq!['E', 'x', 'o', 't', 'i', 'c']);
    assert(("Celestial"@) =~= seq!['C', 'e', 'l', 'e', 's', 't', 'i', 'a', 'l']);
    match r {
        ItemRarity::Common => assert(spec_item_rarity_from_wire("Common"@) == Some(r)),
        ItemRarity::Uncommon => assert(spec_item_rarity_from_wire("Uncommon"@) == Some(r)),
        ItemRarity::Rare => assert(spec_item_rarity_from_wire("Rare"@) == Some(r)),
        ItemRarity::Epic => assert(spec_item_rarity_from_wire("Epic"@) == Some(r)),
        ItemRarity::Elite => assert(spec_item_rarity_from_wire("Elite"@) == Some(r)),
        ItemRarity::Legendary => assert(spec_item_rarity_from_wire("Legendary"@) == Some(r)),
        ItemRarity::Exotic => assert(spec_item_rarity_from_wire("Exotic"@) == Some(r)),
        ItemRarity::Celestial => assert(spec_item_rarity_from_wire("Celestial"@) == Some(r)),
    }
}

/// The position of a rarity in the order from `Common` up to `Celestial`.
pub open spec fn spec_rarity_rank(r: ItemRarity) -> int {
    match r {
        ItemRarity::Common => 0,
        ItemRarity::Uncommon => 1,
        ItemRarity::Rare => 2,
        ItemRarity::Epic => 3,
        ItemRarity::Elite => 4,
        ItemRarity::Legendary => 5,
        ItemRarity::Exotic => 6,
        ItemRarity::Celestial => 7,
    }
}

impl ItemRarity {
    /// The position of this rarity in the order from `Common` up to
    /// `Celestial`.
    pub fn rank(&self) -> (r: u8)
        ensures
            r as int == spec_rarity_rank(*self),
    {
        match self {
            ItemRarity::Common => 0,
            ItemRarity::Uncommon => 1,
            ItemRarity::Rare => 2,
            ItemRarity::Epic => 3,
            ItemRarity::Elite => 4,
            ItemRarity::Legendary => 5,
            ItemRarity::Exotic => 6,
            ItemRarity::Celestial => 7,
        }
    }
}

impl PartialOrd for ItemRarity {
    /// The order from `Common` up to `Celestial`.
    fn partial_cmp(&self, other: &ItemRarity) -> (r: Option<core::cmp::Ordering>) {
        let a = self.rank();
        let b = other.rank();
        if a < b {
            Some(core::cmp::Ordering::Less)
        } else if a == b {
            Some(core::cmp::Ordering::Equal)
        } else {
            Some(core::cmp::Ordering::Greater)
        }
    }
}

impl vstd::std_specs::cmp::PartialOrdSpecImpl for ItemRarity {
    open spec fn obeys_partial_cmp_spec() -> bool {
        true
    }

    open spec fn partial_cmp_spec(&self, other: &ItemRarity) -> Option<core::cmp::Ordering> {
        if spec_rarity_rank(*self) < spec_rarity_rank(*other) {
            Some(core::cmp::Ordering::Less)
        } else if spec_rarity_rank(*self) == spec_rarity_rank(*other) {
            Some(core::cmp::Ordering::Equal)
        } else {
            Some(core::cmp::Ordering::Greater)
        }
    }
}

/// The closed set of item stats, with lowercase wire strings.
#[derive(Debug, PartialEq, Eq, Structural, Hash, Clone, Copy)]
pub enum ItemStat {
    Str,
    Def,
    Dex,
    Crit,
    Hp,
}

/// The stat a wire string names.
pub open spec fn spec_item_stat_from_wire(s: Seq<char>) -> Option<ItemStat> {
    if s == "str"@ {
        Some(ItemStat::Str)
    } else if s == "def"@ {
        Some(ItemStat::Def)
    } else if s == "dex"@ {
        Some(ItemStat::Dex)
    } else if s == "crit"@ {
        Some(ItemStat::Crit)
    } else if s == "hp"@ {
        Some(ItemStat::Hp)
    } else {
        None
    }
}

/// The wire string of a stat.
pub open spec fn spec_item_stat_wire(t: ItemStat) -> Seq<char> {
    match t {
        ItemStat::Str => "str"@,
        ItemStat::Def => "def"@,
        ItemStat::Dex => "dex"@,
        ItemStat::Crit => "crit"@,
        ItemStat::Hp => "hp"@,
    }
}

impl ItemStat {
    /// Decodes the lowercase wire string of a stat.
    pub fn from_wire(s: &str) -> (r: Option<ItemStat>)
        ensures
            r == spec_item_stat_from_wire(s@),
    {
        if str_eq(s, "str") {
            Some(ItemStat::Str)
        } else if str_eq(s, "def") {
            Some(ItemStat::Def)
        } else if str_eq(s, "dex") {
            Some(ItemStat::Dex)
        } else if str_eq(s, "crit") {
            Some(ItemStat::Crit)
        } else if str_eq(s, "hp") {
            Some(ItemStat::Hp)
        } else {
            None
        }
    }

    /// The wire string of this stat.
    pub fn wire_name(&self) -> (r: &'static str)
        ensures
            r@ == spec_item_stat_wire(*self),
    {
        match self {
            ItemStat::Str => "str",
            ItemStat::Def => "def",
            ItemStat::Dex => "dex",
            ItemStat::Crit => "crit",
            ItemStat::Hp => "hp",
        }
    }
}

/// Decoding a stat's own wire string gives that stat back.
pub proof fn lemma_item_stat_wire_round_trip(t: ItemStat)
    ensures
        spec_item_stat_from_wire(spec_item_stat_wire(t)) == Some(t),
{
    reveal_strlit("str");
    reveal_strlit("def");
    reveal_strlit("dex");
    reveal_strlit("crit");
    reveal_strlit("hp");
    assert(("str"@) =~= seq!['s', 't', 'r']);
    assert(("def"@) =~= seq!['d', 'e', 'f']);
    assert(("dex"@) =~= seq!['d', 'e', 'x']);
    assert(("crit"@) =~= seq!['c', 'r', 'i', 't']);
    assert(("hp"@) =~= seq!['h', 'p']);
    match t {
        ItemStat::Str => assert(spec_item_stat_from_wire("str"@) == Some(t)),
        ItemStat::Def => assert(spec_item_stat_from_wire("def"@) == Some(t)),
        ItemStat::Dex => assert(spec_item_stat_from_wire("dex"@) == Some(t)),
        ItemStat::Crit => assert(spec_item_stat_from_wire("crit"@) == Some(t)),
        ItemStat::Hp => assert(spec_item_stat_from_wire("hp"@) == Some(t)),
    }
}

/// What an optional stat slot decodes to leniently: a recognised stat
/// string, and "no stat" for everything else, `null` included.
pub open spec fn spec_stat_or_default(j: SpecJson) -> Option<ItemStat> {
    match j {
        SpecJson::Str(s) => spec_item_stat_from_wire(s),
        _ => None,
    }
}

/// Decodes an optional stat slot, falling back to "no stat" on any
/// malformed value rather than failing the record.
pub fn stat_or_default(v: &JsonValue) -> (r: Option<ItemStat>)
    ensures
        r == spec_stat_or_default(v@),
{
    match v {
        JsonValue::Str(s) => ItemStat::from_wire(s.as_str()),
        _ => None,
    }
}


/// The mathematical view of an [`Item`].
#[verifier::ext_equal]
pub struct ItemView {
    pub id: ItemId,
    pub name: Seq<char>,
    pub item_type: ItemType,
    pub description: Option<Seq<char>>,
    pub equipable: bool,
    pub level: u32,
    pub rarity: ItemRarity,
    pub value: u32,
    pub stat1: Option<ItemStat>,
    pub stat1modifier: u32,
    pub stat2: Option<ItemStat>,
    pub stat2modifier: u32,
    pub stat3: Option<ItemStat>,
    pub stat3modifier: u32,
    pub custom_item: bool,
    pub tradable: bool,
    pub locked: bool,
}

/// An item of the game: the record the item-info endpoint returns.
#[derive(Debug, Clone)]
pub struct Item {
    pub id: ItemId,
    pub name: String,
    pub item_type: ItemType,
    pub description: Option<String>,
    pub equipable: bool,
    pub level: u32,
    pub rarity: ItemRarity,
    pub value: u32,
    pub stat1: Option<ItemStat>,
    pub stat1modifier: u32,
    pub stat2: Option<ItemStat>,
    pub stat2modifier: u32,
    pub stat3: Option<ItemStat>,
    pub stat3modifier: u32,
    pub custom_item: bool,
    pub tradable: bool,
    pub locked: bool,
}

impl View for Item {
    type V = ItemView;

    open spec fn view(&self) -> ItemView {
        ItemView {
            id: self.id,
            name: self.name@,
            item_type: self.item_type,
            description: match self.description {
                Some(d) => Some(d@),
                None => None,
            },
            equipable: self.equipable,
            level: self.level,
            rarity: self.rarity,
            value: self.value,
            stat1: self.stat1,
            stat1modifier: self.stat1modifier,
            stat2: self.stat2,
            stat2modifier: self.stat2modifier,
            stat3: self.stat3,
            stat3modifier: self.stat3modifier,
            custom_item: self.custom_item,
            tradable: self.tradable,
            locked: self.locked,
        }
    }
}

/// Structural equality of two optional stat slots.
fn stat_slot_eq(a: &Option<ItemStat>, b: &Option<ItemStat>) -> (r: bool)
    ensures
        r == (a == b),
{
    match (a, b) {
        (Some(x), Some(y)) => x == y,
        (None, None) => true,
        _ => false,
    }
}

impl PartialEq for Item {
    /// Structural equality, field by field.
    fn eq(&self, other: &Item) -> (r: bool) {
        let descriptions_equal = match (&self.description, &other.description) {
            (Some(a), Some(b)) => crate::strings::str_eq(a.as_str(), b.as_str()),
            (None, None) => true,
            _ => false,
        };
        let r = self.id == other.id && self.name == other.name && self.item_type
            == other.item_type && descriptions_equal && self.equipable == other.equipable
            && self.level == other.level && self.rarity == other.rarity && self.value
            == other.value && stat_slot_eq(&self.stat1, &other.stat1) && self.stat1modifier
            == other.stat1modifier && stat_slot_eq(&self.stat2, &other.stat2)
            && self.stat2modifier == other.stat2modifier && stat_slot_eq(&self.stat3, &other.stat3)
            && self.stat3modifier == other.stat3modifier && self.custom_item == other.custom_item
            && self.tradable == other.tradable && self.locked == other.locked;
        proof {
            if r {
                assert(self@ =~= other@);
            }
            if self@ == other@ {
                assert(self.name@ == other.name@);
                assert(self@.description == other@.description);
                assert(r);
            }
        }
        r
    }
}

impl vstd::std_specs::cmp::PartialEqSpecImpl for Item {
    open spec fn obeys_eq_spec() -> bool {
        true
    }

    /// Two items are equal exactly when their views agree.
    open spec fn eq_spec(&self, other: &Item) -> bool {
        self@ == other@
    }
}

impl PartialOrd for Item {
    /// The total order used for sorting: by id alone.
    fn partial_cmp(&self, other: &Item) -> (r: Option<core::cmp::Ordering>) {
        self.id.partial_cmp(&other.id)
    }
}

impl vstd::std_specs::cmp::PartialOrdSpecImpl for Item {
    open spec fn obeys_partial_cmp_spec() -> bool {
        true
    }

    open spec fn partial_cmp_spec(&self, other: &Item) -> Option<core::cmp::Ordering> {
        vstd::std_specs::cmp::PartialOrdSpec::partial_cmp_spec(&self.id, &other.id)
    }
}

/// What an `Item` decodes to from a JSON document, if anything: every
/// required field present and well-shaped, the optional stat slots and
/// their modifiers lenient, the description absent when empty.
pub open spec fn spec_decode_item(j: SpecJson) -> Option<ItemView> {
    if ({
        &&& spec_get_u32(j, "id"@) is Some
        &&& spec_get_str(j, "name"@) is Some
        &&& match spec_get_str(j, "type"@) {
            Some(s) => spec_item_type_from_wire(s) is Some,
            None => false,
        }
        &&& spec_get_str(j, "description"@) is Some
        &&& spec_get_str_bool(j, "equipable"@) is Some
        &&& spec_get_u32(j, "level"@) is Some
        &&& match spec_get_str(j, "rarity"@) {
            Some(s) => spec_item_rarity_from_wire(s) is Some,
            None => false,
        }
        &&& spec_get_u32(j, "value"@) is Some
        &&& spec_get(j, "stat1"@) is Some
        &&& spec_get(j, "stat1modifier"@) is Some
        &&& spec_get(j, "stat2"@) is Some
        &&& spec_get(j, "stat2modifier"@) is Some
        &&& spec_get(j, "stat3"@) is Some
        &&& spec_get(j, "stat3modifier"@) is Some
        &&& spec_get_int_bool(j, "custom_item"@) is Some
        &&& spec_get_int_bool(j, "tradable"@) is Some
        &&& spec_get_int_bool(j, "locked"@) is Some
    }) {
        Some(
            ItemView {
                id: ItemId(spec_get_u32(j, "id"@)->0),
                name: spec_get_str(j, "name"@)->0,
                item_type: spec_item_type_from_wire(spec_get_str(j, "type"@)->0)->0,
                description: if spec_get_str(j, "description"@)->0.len() == 0 {
                    None
                } else {
                    Some(spec_get_str(j, "description"@)->0)
                },
                equipable: spec_get_str_bool(j, "equipable"@)->0,
                level: spec_get_u32(j, "level"@)->0,
                rarity: spec_item_rarity_from_wire(spec_get_str(j, "rarity"@)->0)->0,
                value: spec_get_u32(j, "value"@)->0,
                stat1: spec_stat_or_default(spec_get(j, "stat1"@)->0),
                stat1modifier: spec_u32_or_default(spec_get(j, "stat1modifier"@)->0),
                stat2: spec_stat_or_default(spec_get(j, "stat2"@)->0),
                stat2modifier: spec_u32_or_default(spec_get(j, "stat2modifier"@)->0),
                stat3: spec_stat_or_default(spec_get(j, "stat3"@)->0),
                stat3modifier: spec_u32_or_default(spec_get(j, "stat3modifier"@)->0),
                custom_item: spec_get_int_bool(j, "custom_item"@)->0,
                tradable: spec_get_int_bool(j, "tradable"@)->0,
                locked: spec_get_int_bool(j, "locked"@)->0,
            },
        )
    } else {
        None
    }
}

/// Reads an optional stat slot: the field must be present, its value is
/// decoded leniently.
fn get_stat_slot(v: &JsonValue, key: &'static str) -> (r: Result<Option<ItemStat>, FieldError>)
    ensures
        match r {
            Ok(o) => crate::json::spec_get(v@, key@) is Some && o == spec_stat_or_default(
                crate::json::spec_get(v@, key@)->0,
            ),
            Err(e) => crate::json::spec_get(v@, key@) is None,
        },
{
    match v.get(key) {
        Some(f) => Ok(stat_or_default(f)),
        None => Err(FieldError::Missing { field: key }),
    }
}

/// Reads a lenient modifier slot: the field must be present, its value is
/// decoded leniently.
fn get_modifier_slot(v: &JsonValue, key: &'static str) -> (r: Result<u32, FieldError>)
    ensures
        match r {
            Ok(n) => crate::json::spec_get(v@, key@) is Some && n == spec_u32_or_default(
                crate::json::spec_get(v@, key@)->0,
            ),
            Err(e) => crate::json::spec_get(v@, key@) is None,
        },
{
    match v.get(key) {
        Some(f) => Ok(u32_or_default(f)),
        None => Err(FieldError::Missing { field: key }),
    }
}

impl Item {
    /// Decodes an `Item` from a parsed JSON document: exactly the records
    /// of [`spec_decode_item`].
    pub fn decode_json(v: &JsonValue) -> (r: Result<Item, FieldError>)
        ensures
            match r {
                Ok(it) => spec_decode_item(v@) == Some(it@),
                Err(e) => spec_decode_item(v@) is None,
            },
    {
        let id = match get_u32(v, "id") {
            Ok(n) => n,
            Err(e) => {
                return Err(e);
            },
        };
        let name = match get_string(v, "name") {
            Ok(s) => s,
            Err(e) => {
                return Err(e);
            },
        };
        let type_str = match get_string(v, "type") {
            Ok(s) => s,
            Err(e) => {
                return Err(e);
            },
        };
        let item_type = match ItemType::from_wire(type_str.as_str()) {
            Some(t) => t,
            None => {
                return Err(FieldError::Invalid { field: "type" });
            },
        };
        let description_str = match get_string(v, "description") {
            Ok(s) => s,
            Err(e) => {
                return Err(e);
            },
        };
        let description = empty_string_option::deserialize(description_str.as_str());
        let equipable = match get_str_bool(v, "equipable") {
            Ok(b) => b,
            Err(e) => {
                return Err(e);
            },
        };
        let level = match get_u32(v, "level") {
            Ok(n) => n,
            Err(e) => {
                return Err(e);
            },
        };
        let rarity_str = match get_string(v, "rarity") {
            Ok(s) => s,
            Err(e) => {
                return Err(e);
            },
        };
        let rarity = match ItemRarity::from_wire(rarity_str.as_str()) {
            Some(t) => t,
            None => {
                return Err(FieldError::Invalid { field: "rarity" });
            },
        };
        let value = match get_u32(v, "value") {
            Ok(n) => n,
            Err(e) => {
                return Err(e);
            },
        };
        let stat1 = match get_stat_slot(v, "stat1") {
            Ok(o) => o,
            Err(e) => {
                return Err(e);
            },
        };
        let stat1modifier = match get_modifier_slot(v, "stat1modifier") {
            Ok(n) => n,
            Err(e) => {
                return Err(e);
            },
        };
        let stat2 = match get_stat_slot(v, "stat2") {
            Ok(o) => o,
            Err(e) => {
                return Err(e);
            },
        };
        let stat2modifier = match get_modifier_slot(v, "stat2modifier") {
            Ok(n) => n,
            Err(e) => {
                return Err(e);
            },
        };
        let stat3 = match get_stat_slot(v, "stat3") {
            Ok(o) => o,
            Err(e) => {
                return Err(e);
            },
        };
        let stat3modifier = match get_modifier_slot(v, "stat3modifier") {
            Ok(n) => n,
            Err(e) => {
                return Err(e);
            },
        };
        let custom_item = match get_int_bool(v, "custom_item") {
            Ok(b) => b,
            Err(e) => {
                return Err(e);
            },
        };
        let tradable = match get_int_bool(v, "tradable") {
            Ok(b) => b,
            Err(e) => {
                return Err(e);
            },
        };
        let locked = match get_int_bool(v, "locked") {
            Ok(b) => b,
            Err(e) => {
                return Err(e);
            },
        };
        let it = Item {
            id: ItemId(id),
            name,
            item_type,
            description,
            equipable,
            level,
            rarity,
            value,
            stat1,
            stat1modifier,
            stat2,
            stat2modifier,
            stat3,
            stat3modifier,
            custom_item,
            tradable,
            locked,
        };
        proof {
            assert(spec_decode_item(v@) is Some);
            assert(it@ =~= spec_decode_item(v@)->0);
        }
        Ok(it)
    }
}


/// The JSON document that re-encoding an item produces: the canonical wire
/// strings, a bare `""` for an absent description, `"0"`/`"1"` for the
/// stringified booleans and `0`/`1` for the integer booleans.
pub open spec fn spec_encode_item(iv: ItemView) -> SpecJson {
    SpecJson::Obj(
        seq![
            ("id"@, SpecJson::Int(iv.id.0 as int)),
            ("name"@, SpecJson::Str(iv.name)),
            ("type"@, SpecJson::Str(spec_item_type_wire(iv.item_type))),
            (
                "description"@,
                SpecJson::Str(
                    match iv.description {
                        Some(d) => d,
                        None => Seq::empty(),
                    },
                ),
            ),
            (
                "equipable"@,
                SpecJson::Str(
                    if iv.equipable {
                        "1"@
                    } else {
                        "0"@
                    },
                ),
            ),
            ("level"@, SpecJson::Int(iv.level as int)),
            ("rarity"@, SpecJson::Str(spec_item_rarity_wire(iv.rarity))),
            ("value"@, SpecJson::Int(iv.value as int)),
            (
                "stat1"@,
                match iv.stat1 {
                    Some(st) => SpecJson::Str(spec_item_stat_wire(st)),
                    None => SpecJson::Null,
                },
            ),
            ("stat1modifier"@, SpecJson::Int(iv.stat1modifier as int)),
            (
                "stat2"@,
                match iv.stat2 {
                    Some(st) => SpecJson::Str(spec_item_stat_wire(st)),
                    None => SpecJson::Null,
                },
            ),
            ("stat2modifier"@, SpecJson::Int(iv.stat2modifier as int)),
            (
                "stat3"@,
                match iv.stat3 {
                    Some(st) => SpecJson::Str(spec_item_stat_wire(st)),
                    None => SpecJson::Null,
                },
            ),
            ("stat3modifier"@, SpecJson::Int(iv.stat3modifier as int)),
            (
                "custom_item"@,
                SpecJson::Int(
                    if iv.custom_item {
                        1
                    } else {
                        0
                    },
                ),
            ),
            (
                "tradable"@,
                SpecJson::Int(
                    if iv.tradable {
                        1
                    } else {
                        0
                    },
                ),
            ),
            (
                "locked"@,
                SpecJson::Int(
                    if iv.locked {
                        1
                    } else {
                        0
                    },
                ),
            ),
        ],
    )
}

/// Encodes an optional stat slot.
fn encode_stat_slot(o: &Option<ItemStat>) -> (r: JsonValue)
    ensures
        r@ == match *o {
            Some(st) => SpecJson::Str(spec_item_stat_wire(st)),
            None => SpecJson::Null,
        },
{
    match o {
        Some(st) => JsonValue::Str(String::from_str(st.wire_name())),
        None => JsonValue::Null,
    }
}

impl Item {
    /// Re-encodes the item as a JSON document: exactly
    /// [`spec_encode_item`] of its view.
    #[verifier::rlimit(60)]
    pub fn to_json(&self) -> (r: JsonValue)
        ensures
            r@ == spec_encode_item(self@),
    {
        let mut members: Vec<(String, JsonValue)> = Vec::new();
        members.push((String::from_str("id"), JsonValue::Int(self.id.inner() as i128)));
        members.push((String::from_str("name"), JsonValue::Str(self.name.clone())));
        members.push(
            (String::from_str("type"), JsonValue::Str(String::from_str(self.item_type.wire_name()))),
        );
        let description = match &self.description {
            Some(d) => d.clone(),
            None => String::new(),
        };
        members.push((String::from_str("description"), JsonValue::Str(description)));
        let equipable = if self.equipable {
            "1"
        } else {
            "0"
        };
        members.push((String::from_str("equipable"), JsonValue::Str(String::from_str(equipable))));
        members.push((String::from_str("level"), JsonValue::Int(self.level as i128)));
        members.push(
            (String::from_str("rarity"), JsonValue::Str(String::from_str(self.rarity.wire_name()))),
        );
        members.push((String::from_str("value"), JsonValue::Int(self.value as i128)));
        members.push((String::from_str("stat1"), encode_stat_slot(&self.stat1)));
        members.push(
            (String::from_str("stat1modifier"), JsonValue::Int(self.stat1modifier as i128)),
        );
        members.push((String::from_str("stat2"), encode_stat_slot(&self.stat2)));
        members.push(
            (String::from_str("stat2modifier"), JsonValue::Int(self.stat2modifier as i128)),
        );
        members.push((String::from_str("stat3"), encode_stat_slot(&self.stat3)));
        members.push(
            (String::from_str("stat3modifier"), JsonValue::Int(self.stat3modifier as i128)),
        );
        members.push(
            (
                String::from_str("custom_item"),
                JsonValue::Int(
                    if self.custom_item {
                        1
                    } else {
                        0
                    },
                ),
            ),
        );
        members.push(
            (
                String::from_str("tradable"),
                JsonValue::Int(
                    if self.tradable {
                        1
                    } else {
                        0
                    },
                ),
            ),
        );
        members.push(
            (
                String::from_str("locked"),
                JsonValue::Int(
                    if self.locked {
                        1
                    } else {
                        0
                    },
                ),
            ),
        );
        proof {
            crate::json::lemma_view_obj(members, members@.len() as int);
            assert(members@.len() == 17);
        }
        let ghost target = spec_encode_item(self@);
        let r = JsonValue::Obj(members);
        proof {
            assert(spec_view_obj(members, 17) =~~= target->Obj_0);
            assert(r@ =~~= target);
        }
        r
    }
}

/// A fully-populated item view on the round-trip path: a present-but-empty
/// description cannot arise, since an empty string decodes to "absent".
pub open spec fn spec_item_wf(iv: ItemView) -> bool {
    match iv.description {
        Some(d) => d.len() > 0,
        None => true,
    }
}

/// Re-encoding and then decoding an item yields the item back.
pub proof fn lemma_item_round_trip(iv: ItemView)
    requires
        spec_item_wf(iv),
    ensures
        spec_decode_item(spec_encode_item(iv)) == Some(iv),
{
    reveal_strlit("id");
    reveal_strlit("name");
    reveal_strlit("type");
    reveal_strlit("description");
    reveal_strlit("equipable");
    reveal_strlit("level");
    reveal_strlit("rarity");
    reveal_strlit("value");
    reveal_strlit("stat1");
    reveal_strlit("stat1modifier");
    reveal_strlit("stat2");
    reveal_strlit("stat2modifier");
    reveal_strlit("stat3");
    reveal_strlit("stat3modifier");
    reveal_strlit("custom_item");
    reveal_strlit("tradable");
    reveal_strlit("locked");
    reveal_strlit("0");
    reveal_strlit("1");
    assert(("id"@) =~= seq!['i', 'd']);
    assert(("name"@) =~= seq!['n', 'a', 'm', 'e']);
    assert(("type"@) =~= seq!['t', 'y', 'p', 'e']);
    assert(("description"@) =~= seq!['d', 'e', 's', 'c', 'r', 'i', 'p', 't', 'i', 'o', 'n']);
    assert(("equipable"@) =~= seq!['e', 'q', 'u', 'i', 'p', 'a', 'b', 'l', 'e']);
    assert(("level"@) =~= seq!['l', 'e', 'v', 'e', 'l']);
    assert(("rarity"@) =~= seq!['r', 'a', 'r', 'i', 't', 'y']);
    assert(("value"@) =~= seq!['v', 'a', 'l', 'u', 'e']);
    assert(("stat1"@) =~= seq!['s', 't', 'a', 't', '1']);
    assert(("stat1modifier"@) =~= seq!['s', 't', 'a', 't', '1', 'm', 'o', 'd', 'i', 'f', 'i', 'e', 'r']);
    assert(("stat2"@) =~= seq!['s', 't', 'a', 't', '2']);
    assert(("stat2modifier"@) =~= seq!['s', 't', 'a', 't', '2', 'm', 'o', 'd', 'i', 'f', 'i', 'e', 'r']);
    assert(("stat3"@) =~= seq!['s', 't', 'a', 't', '3']);
    assert(("stat3modifier"@) =~= seq!['s', 't', 'a', 't', '3', 'm', 'o', 'd', 'i', 'f', 'i', 'e', 'r']);
    assert(("custom_item"@) =~= seq!['c', 'u', 's', 't', 'o', 'm', '_', 'i', 't', 'e', 'm']);
    assert(("tradable"@) =~= seq!['t', 'r', 'a', 'd', 'a', 'b', 'l', 'e']);
    assert(("locked"@) =~= seq!['l', 'o', 'c', 'k', 'e', 'd']);
    assert(("0"@) =~= seq!['0']);
    assert(("1"@) =~= seq!['1']);
    let j = spec_encode_item(iv);
    reveal_with_fuel(crate::json::spec_obj_get, 18);
    assert(spec_get_u32(j, "id"@) == Some(iv.id.0));
    assert(spec_get_str(j, "name"@) == Some(iv.name));
    assert(spec_get_str(j, "type"@) == Some(spec_item_type_wire(iv.item_type)));
    lemma_item_type_wire_round_trip(iv.item_type);
    assert(spec_get_str(j, "description"@) == Some(
        match iv.description {
            Some(d) => d,
            None => Seq::<char>::empty(),
        },
    ));
    assert(spec_get_str(j, "equipable"@) == Some(
        if iv.equipable {
            "1"@
        } else {
            "0"@
        },
    ));
    if iv.equipable {
        assert(("0"@)[0] == '0');
        assert(("1"@)[0] == '1');
        assert(("1"@) != ("0"@));
        assert(spec_get_str_bool(j, "equipable"@) == Some(true));
    } else {
        assert(spec_get_str_bool(j, "equipable"@) == Some(false));
    }
    assert(spec_get_u32(j, "level"@) == Some(iv.level));
    assert(spec_get_str(j, "rarity"@) == Some(spec_item_rarity_wire(iv.rarity)));
    lemma_item_rarity_wire_round_trip(iv.rarity);
    assert(spec_get_u32(j, "value"@) == Some(iv.value));
    assert(spec_get(j, "stat1"@) is Some);
    assert(spec_get(j, "stat1modifier"@) == Some(SpecJson::Int(iv.stat1modifier as int)));
    assert(spec_get(j, "stat2"@) is Some);
    assert(spec_get(j, "stat2modifier"@) == Some(SpecJson::Int(iv.stat2modifier as int)));
    assert(spec_get(j, "stat3"@) is Some);
    assert(spec_get(j, "stat3modifier"@) == Some(SpecJson::Int(iv.stat3modifier as int)));
    assert(spec_get_int_bool(j, "custom_item"@) == Some(iv.custom_item));
    assert(spec_get_int_bool(j, "tradable"@) == Some(iv.tradable));
    assert(spec_get_int_bool(j, "locked"@) == Some(iv.locked));
    match iv.stat1 {
        Some(st) => lemma_item_stat_wire_round_trip(st),
        None => {},
    }
    match iv.stat2 {
        Some(st) => lemma_item_stat_wire_round_trip(st),
        None => {},
    }
    match iv.stat3 {
        Some(st) => lemma_item_stat_wire_round_trip(st),
        None => {},
    }
    assert(spec_decode_item(j) is Some);
    assert(spec_decode_item(j)->0 =~= iv);
}


impl SmmoModel for Item {
    open spec fn spec_type_label() -> Seq<char> {
        "Item"@
    }

    open spec fn spec_from_json(j: SpecJson) -> Option<ItemView> {
        spec_decode_item(j)
    }

    fn type_label() -> (s: &'static str) {
        "Item"
    }

    fn from_json(v: &JsonValue) -> (r: Result<Item, FieldError>) {
        Item::decode_json(v)
    }
}


impl Item {
    /// The record as JSON text, for logging and diagnostics.
    pub fn to_json_string(&self) -> (r: String)
        ensures
            r@ == crate::json_print::spec_print(spec_encode_item(self@)),
    {
        crate::json_print::json_to_string(&self.to_json())
    }
}

} // verus!
