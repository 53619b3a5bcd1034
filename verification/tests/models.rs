//! The player, world-boss and orphanage records, and the date-time forms
//! they carry.

use smmo_api::datetime::{format_custom, format_rfc3339, parse_custom, parse_rfc3339, UtcDateTime};
use smmo_api::json_parse::parse_json;
use smmo_api::json_print::json_to_string;
use smmo_api::models::orphanage::Orphanage;
use smmo_api::models::smmo_player::{SmmoPlayer, UserId};
use smmo_api::models::world_boss::{duration_pretty, WorldBoss, WorldBosses};

#[test]
fn custom_pattern_parses_and_formats() {
    let dt = parse_custom("2021-07-10 22:33:59").unwrap();
    assert_eq!(
        dt,
        UtcDateTime { year: 2021, month: 7, day: 10, hour: 22, minute: 33, second: 59 }
    );
    assert_eq!(format_custom(&dt), "2021-07-10 22:33:59");
}

#[test]
fn custom_pattern_rejects_bad_instants() {
    assert!(parse_custom("2021-02-29 00:00:00").is_none());
    assert!(parse_custom("2020-02-29 00:00:00").is_some());
    assert!(parse_custom("2021-13-01 00:00:00").is_none());
    assert!(parse_custom("2021-01-01T00:00:00").is_none());
    assert!(parse_custom("2021-01-01 24:00:00").is_none());
    assert!(parse_custom("not a date").is_none());
}

#[test]
fn rfc3339_accepts_fraction_and_zone_forms() {
    let dt = UtcDateTime { year: 2021, month: 1, day: 2, hour: 3, minute: 4, second: 5 };
    assert_eq!(parse_rfc3339("2021-01-02T03:04:05Z").unwrap(), dt);
    assert_eq!(parse_rfc3339("2021-01-02T03:04:05.000000Z").unwrap(), dt);
    assert_eq!(parse_rfc3339("2021-01-02T03:04:05+00:00").unwrap(), dt);
    assert_eq!(format_rfc3339(&dt), "2021-01-02T03:04:05+00:00");
    assert!(parse_rfc3339("2021-01-02T03:04:05").is_none());
    assert!(parse_rfc3339("2021-01-02T03:04:05.Z").is_none());
    assert_eq!(parse_rfc3339(format_rfc3339(&dt).as_str()).unwrap(), dt);
}

#[test]
fn rfc3339_offsets_normalise_to_utc() {
    assert_eq!(
        parse_rfc3339("2021-01-02T03:04:05+05:30").unwrap(),
        UtcDateTime { year: 2021, month: 1, day: 1, hour: 21, minute: 34, second: 5 }
    );
    assert_eq!(
        parse_rfc3339("2021-01-01T00:30:00+01:00").unwrap(),
        UtcDateTime { year: 2020, month: 12, day: 31, hour: 23, minute: 30, second: 0 }
    );
    assert_eq!(
        parse_rfc3339("2020-12-31T23:30:00-01:00").unwrap(),
        UtcDateTime { year: 2021, month: 1, day: 1, hour: 0, minute: 30, second: 0 }
    );
    assert_eq!(
        parse_rfc3339("2020-03-01T00:10:00+00:20").unwrap(),
        UtcDateTime { year: 2020, month: 2, day: 29, hour: 23, minute: 50, second: 0 }
    );
    assert_eq!(
        parse_rfc3339("2021-07-10T22:33:59.000000-00:00").unwrap(),
        UtcDateTime { year: 2021, month: 7, day: 10, hour: 22, minute: 33, second: 59 }
    );
    assert!(parse_rfc3339("2021-01-02T03:04:05+24:00").is_none());
    assert!(parse_rfc3339("2021-01-02T03:04:05+05:60").is_none());
    assert!(parse_rfc3339("2021-01-02T03:04:05 05:30").is_none());
}

const BOSS_JSON: &str = r#"{
    "id": 4,
    "name": "The Kraken",
    "avatar": "kraken.png",
    "level": 500,
    "god": 2,
    "str": 1000,
    "def": 900,
    "dex": 800,
    "current_hp": 12345,
    "max_hp": 100000,
    "enable_time": 1625951639
}"#;

#[test]
fn world_boss_decodes_and_round_trips() {
    let v = parse_json(BOSS_JSON).unwrap();
    let boss = WorldBoss::decode_json(&v).unwrap();
    assert_eq!(boss.name, "The Kraken");
    assert_eq!(boss.enable_time, 1625951639);
    let text = json_to_string(&boss.to_json());
    let again = WorldBoss::decode_json(&parse_json(text.as_str()).unwrap()).unwrap();
    assert_eq!(again, boss);
}

#[test]
fn world_bosses_list_keeps_order() {
    let list = format!("[{},{}]", BOSS_JSON, BOSS_JSON.replace("\"id\": 4", "\"id\": 5"));
    let v = parse_json(list.as_str()).unwrap();
    let bosses = WorldBosses::decode_json(&v).unwrap();
    assert_eq!(bosses.0.len(), 2);
    assert_eq!(bosses.0[0].id, 4);
    assert_eq!(bosses.0[1].id, 5);
    let text = json_to_string(&bosses.to_json());
    let again = WorldBosses::decode_json(&parse_json(text.as_str()).unwrap()).unwrap();
    assert_eq!(again.0.len(), 2);
    assert_eq!(again.0[0], bosses.0[0]);
}

#[test]
fn boss_status_text() {
    let v = parse_json(BOSS_JSON).unwrap();
    let boss = WorldBoss::decode_json(&v).unwrap();
    assert_eq!(boss.status_text(1625951639), "Ready to be attacked!");
    assert_eq!(
        boss.status_text(1625951639 - 3723),
        "Ready in: 1 hours 2 mins 3 secs."
    );
    let field = boss.to_field(1625951639 + 1);
    assert_eq!(field.0, "The Kraken");
    assert_eq!(field.1, "Ready to be attacked!");
    assert!(field.2);
}

#[test]
fn duration_pretty_matches_the_original_format() {
    assert_eq!(duration_pretty(59), "0 hours 0 mins 59 secs.");
    assert_eq!(duration_pretty(3661), "1 hours 1 mins 1 secs.");
    assert_eq!(duration_pretty(90061), "1 days, 1 hours 1 mins 1 secs.");
}

const ORPHANAGE_JSON: &str = r#"{
    "current_amount": 1000,
    "max_amount": 2000,
    "recent_donators": [
        { "user_id": 7, "amount": 250, "created_at": "2021-07-10T22:33:59.000000Z" },
        { "user_id": 9, "amount": 750, "created_at": "2021-07-11T01:02:03Z" }
    ]
}"#;

#[test]
fn orphanage_accepts_offset_timestamps() {
    let json = ORPHANAGE_JSON.replace("2021-07-11T01:02:03Z", "2021-07-11T01:02:03+05:00");
    let v = parse_json(json.as_str()).unwrap();
    let o = Orphanage::decode_json(&v).unwrap();
    assert_eq!(
        o.recent_donators[1].created_at,
        UtcDateTime { year: 2021, month: 7, day: 10, hour: 20, minute: 2, second: 3 }
    );
}

#[test]
fn orphanage_decodes_and_round_trips() {
    let v = parse_json(ORPHANAGE_JSON).unwrap();
    let o = Orphanage::decode_json(&v).unwrap();
    assert_eq!(o.current_amount, 1000);
    assert_eq!(o.max_amount, 2000);
    assert_eq!(o.recent_donators.len(), 2);
    assert_eq!(o.recent_donators[0].user_id.inner(), 7);
    assert_eq!(
        o.recent_donators[0].created_at,
        UtcDateTime { year: 2021, month: 7, day: 10, hour: 22, minute: 33, second: 59 }
    );
    let text = json_to_string(&o.to_json());
    let again = Orphanage::decode_json(&parse_json(text.as_str()).unwrap()).unwrap();
    assert_eq!(again.current_amount, o.current_amount);
    assert_eq!(again.recent_donators.len(), 2);
    assert_eq!(again.recent_donators[1].created_at, o.recent_donators[1].created_at);
    assert_eq!(again.recent_donators[1].amount, 750);
}

const PLAYER_JSON: &str = r#"{
    "id": 123,
    "name": "hero",
    "level": 42,
    "motto": "onwards",
    "profile_number": "77",
    "exp": 1000,
    "gold": 2000,
    "steps": 3000,
    "npc_kills": 40,
    "user_kills": 5,
    "quests_complete": 60,
    "dex": 10,
    "def": 11,
    "str": 12,
    "bonus_dex": 1,
    "bonus_def": 2,
    "bonus_str": 3,
    "hp": 90,
    "max_hp": 100,
    "safeMode": 1,
    "safeModeTime": "2021-07-10 22:33:59",
    "background": 4,
    "membership": 1,
    "guild": { "id": 8, "name": "the guild" }
}"#;

#[test]
fn player_decodes() {
    let v = parse_json(PLAYER_JSON).unwrap();
    let p = SmmoPlayer::decode_json(&v).unwrap();
    assert_eq!(p.id.inner(), 123);
    assert_eq!(p.name, "hero");
    assert_eq!(p.safe_mode, true);
    assert_eq!(
        p.safe_mode_time,
        Some(UtcDateTime { year: 2021, month: 7, day: 10, hour: 22, minute: 33, second: 59 })
    );
    let g = p.guild.unwrap();
    assert_eq!(g.id, 8);
    assert_eq!(g.name, "the guild");
}

#[test]
fn player_null_safe_mode_time_and_guild() {
    let json = PLAYER_JSON
        .replace(r#""2021-07-10 22:33:59""#, "null")
        .replace(r#"{ "id": 8, "name": "the guild" }"#, "null");
    let v = parse_json(json.as_str()).unwrap();
    let p = SmmoPlayer::decode_json(&v).unwrap();
    assert_eq!(p.safe_mode_time, None);
    assert!(p.guild.is_none());
}

#[test]
fn player_with_missing_field_fails() {
    let json = PLAYER_JSON.replace(r#""gold": 2000,"#, "");
    let v = parse_json(json.as_str()).unwrap();
    assert!(SmmoPlayer::decode_json(&v).is_err());
}

#[test]
fn player_without_expiry_round_trips_through_text() {
    let json = PLAYER_JSON.replace(r#""2021-07-10 22:33:59""#, "null");
    let v = parse_json(json.as_str()).unwrap();
    let original = SmmoPlayer::decode_json(&v).unwrap();
    let text = original.to_json_string();
    let again = SmmoPlayer::decode_json(&parse_json(text.as_str()).unwrap()).unwrap();
    assert_eq!(again.id.inner(), original.id.inner());
    assert_eq!(again.name, original.name);
    assert_eq!(again.safe_mode_time, None);
    assert_eq!(again.guild.unwrap().name, "the guild");
}

#[test]
fn player_expiry_reencodes_as_rfc3339() {
    let v = parse_json(PLAYER_JSON).unwrap();
    let p = SmmoPlayer::decode_json(&v).unwrap();
    let reencoded = p.to_json();
    match reencoded.get("safeModeTime") {
        Some(smmo_api::json::JsonValue::Str(t)) => {
            assert_eq!(t, "2021-07-10T22:33:59+00:00");
        },
        other => panic!("expected an RFC 3339 string, got {:?}", other),
    }
}

#[test]
fn player_missing_guild_member_means_no_guild() {
    let json = PLAYER_JSON.replace(
        r#",
    "guild": { "id": 8, "name": "the guild" }"#,
        "",
    );
    let v = parse_json(json.as_str()).unwrap();
    let p = SmmoPlayer::decode_json(&v).unwrap();
    assert!(p.guild.is_none());
}

#[test]
fn json_text_of_a_boss_is_exact() {
    let boss = WorldBoss {
        id: 1,
        name: "A".to_string(),
        avatar: "a.png".to_string(),
        level: 2,
        god: 3,
        str: 4,
        def: 5,
        dex: 6,
        current_hp: 7,
        max_hp: 8,
        enable_time: 9,
    };
    assert_eq!(
        boss.to_json_string(),
        r#"{"id":1,"name":"A","avatar":"a.png","level":2,"god":3,"str":4,"def":5,"dex":6,"current_hp":7,"max_hp":8,"enable_time":9}"#
    );
}

#[test]
fn user_ids_order_by_value() {
    assert!(UserId(3) < UserId(4));
    assert_eq!(UserId(3).inner(), 3);
}
