//! The item record and its enums: decoding, the exact wire strings, the
//! lenient slots and the display colours.

use smmo_api::json::JsonValue;
use smmo_api::json_parse::parse_json;
use smmo_api::json_print::json_to_string;
use smmo_api::models::item::{Item, ItemId, ItemRarity, ItemStat, ItemType};

const ITEM_JSON: &str = r#"{
            "id": 1,
            "name": "Wooden Stick",
            "type": "Weapon",
            "description": "",
            "equipable": "1",
            "level": 1,
            "rarity": "Common",
            "value": 20,
            "stat1": "str",
            "stat1modifier": 1,
            "stat2": null,
            "stat2modifier": 0,
            "stat3": null,
            "stat3modifier": null,
            "custom_item": 0,
            "tradable": 1,
            "locked": 0
        }"#;

#[test]
fn item_test_item() {
    let v = parse_json(ITEM_JSON).unwrap();
    assert_eq!(
        Item::decode_json(&v).unwrap(),
        Item {
            id: ItemId(1),
            name: "Wooden Stick".to_string(),
            item_type: ItemType::Weapon,
            description: None,
            equipable: true,
            level: 1,
            rarity: ItemRarity::Common,
            value: 20,
            stat1: Some(ItemStat::Str),
            stat1modifier: 1,
            stat2: None,
            stat2modifier: 0,
            stat3: None,
            stat3modifier: 0,
            custom_item: false,
            tradable: true,
            locked: false
        }
    )
}

#[test]
fn test_item_type() {
    let json = r#""Weapon""#;
    let v = parse_json(json).unwrap();
    let s = match &v {
        JsonValue::Str(s) => s.clone(),
        other => panic!("expected a JSON string, got {:?}", other),
    };
    assert_eq!(ItemType::from_wire(s.as_str()).unwrap(), ItemType::Weapon)
}

#[test]
fn test_item_type_ser() {
    let json = r#""Weapon""#;
    assert_eq!(
        json_to_string(&JsonValue::Str(ItemType::Weapon.wire_name().to_string())),
        json
    )
}

#[test]
fn lenient_fields_of_the_literal_payload() {
    let v = parse_json(ITEM_JSON).unwrap();
    let it = Item::decode_json(&v).unwrap();
    assert_eq!(it.equipable, true);
    assert_eq!(it.stat2, None);
    assert_eq!(it.stat3modifier, 0);
    assert_eq!(it.custom_item, false);
}

#[test]
fn fishing_rod_wire_string_round_trips() {
    assert_eq!(ItemType::from_wire("Fishing Rod").unwrap(), ItemType::FishingRod);
    assert_eq!(ItemType::FishingRod.wire_name(), "Fishing Rod");
}

#[test]
fn historical_misspellings_decode() {
    assert_eq!(ItemRarity::from_wire("Elilte").unwrap(), ItemRarity::Elite);
    assert_eq!(ItemRarity::from_wire("Lengendary").unwrap(), ItemRarity::Legendary);
    assert_eq!(ItemRarity::from_wire("Elite").unwrap(), ItemRarity::Elite);
    assert_eq!(ItemRarity::from_wire("nonsense"), None);
}

#[test]
fn rarity_colours() {
    assert_eq!(ItemRarity::Common.colour_hex(), 0x34495E);
    assert_eq!(ItemRarity::Celestial.colour_hex(), 0x00F6FF);
    assert_eq!(ItemRarity::Rare.colour_rgb(), (0xE6, 0x7E, 0x22));
}

#[test]
fn item_round_trips_through_text() {
    let v = parse_json(ITEM_JSON).unwrap();
    let original = Item::decode_json(&v).unwrap();
    let text = json_to_string(&original.to_json());
    let reparsed = parse_json(text.as_str()).unwrap();
    let again = Item::decode_json(&reparsed).unwrap();
    assert_eq!(again, original);
}

#[test]
fn item_ids_order_by_value() {
    assert!(ItemId(1) < ItemId(2));
    assert_eq!(ItemId(7).inner(), 7);
    let a = Item {
        id: ItemId(5),
        name: "a".to_string(),
        item_type: ItemType::Food,
        description: None,
        equipable: false,
        level: 1,
        rarity: ItemRarity::Common,
        value: 1,
        stat1: None,
        stat1modifier: 0,
        stat2: None,
        stat2modifier: 0,
        stat3: None,
        stat3modifier: 0,
        custom_item: false,
        tradable: false,
        locked: false,
    };
    let mut b = a.clone();
    b.id = ItemId(9);
    assert!(a < b);
}

#[test]
fn unknown_item_type_is_rejected() {
    let v = parse_json(&ITEM_JSON.replace("\"Weapon\"", "\"Blaster\"")).unwrap();
    assert!(Item::decode_json(&v).is_err());
}

#[test]
fn rarities_order_from_common_to_celestial() {
    assert!(ItemRarity::Common < ItemRarity::Uncommon);
    assert!(ItemRarity::Epic < ItemRarity::Elite);
    assert!(ItemRarity::Exotic < ItemRarity::Celestial);
    assert!(!(ItemRarity::Celestial < ItemRarity::Common));
}

#[test]
fn display_names_drop_the_spaces_of_the_wire_strings() {
    assert_eq!(ItemType::FishingRod.display_name(), "FishingRod");
    assert_eq!(ItemType::WoodAxe.display_name(), "WoodAxe");
    assert_eq!(ItemType::ItemSprite.display_name(), "ItemSprite");
    assert_eq!(ItemType::EventItem.display_name(), "EventItem");
    assert_eq!(ItemType::Weapon.display_name(), "Weapon");
    assert_ne!(ItemType::FishingRod.display_name(), ItemType::FishingRod.wire_name());
}
