//! The player resource: the record the player-info endpoint returns, the
//! user identifier newtype, and the optional nested guild reference.

use vstd::prelude::*;

use crate::custom_serde::date_time_option::spec_decode_option_datefmt;
use crate::custom_serde::date_time_option::deserialize_option_datefmt;
use crate::datetime::UtcDateTime;
use crate::json::{spec_get, JsonValue, SpecJson};
use crate::models::{
    get_int_bool, get_string, get_u32, spec_get_int_bool, spec_get_str, spec_get_u32, FieldError,
    SmmoModel,
};

verus! {

/// A user identifier; exists purely to keep id spaces apart.
#[derive(Debug, PartialEq, Eq, Structural, Hash, Clone, Copy)]
pub struct UserId(pub u32);

impl UserId {
    /// The wrapped numeric id.
    pub fn inner(self) -> (r: u32)
        ensures
            r == self.0,
    {
        self.0
    }
}

impl PartialOrd for UserId {
    /// Ordering forwards to the wrapped integer.
    fn partial_cmp(&self, other: &UserId) -> (r: Option<core::cmp::Ordering>) {
        if self.0 < other.0 {
            Some(core::cmp::Ordering::Less)
        } else if self.0 == other.0 {
            Some(core::cmp::Ordering::Equal)
        } else {
            Some(core::cmp::Ordering::Greater)
        }
    }
}

impl vstd::std_specs::cmp::PartialOrdSpecImpl for UserId {
    open spec fn obeys_partial_cmp_spec() -> bool {
        true
    }

    open spec fn partial_cmp_spec(&self, other: &UserId) -> Option<core::cmp::Ordering> {
        if self.0 < other.0 {
            Some(core::cmp::Ordering::Less)
        } else if self.0 == other.0 {
            Some(core::cmp::Ordering::Equal)
        } else {
            Some(core::cmp::Ordering::Greater)
        }
    }
}

/// The mathematical view of a [`SmmoPlayerGuild`].
#[verifier::ext_equal]
pub struct SmmoPlayerGuildView {
    pub id: u32,
    pub name: Seq<char>,
}

/// The guild reference nested in a player record.
#[derive(Debug, Clone)]
pub struct SmmoPlayerGuild {
    pub id: u32,
    pub name: String,
}

impl View for SmmoPlayerGuild {
    type V = SmmoPlayerGuildView;

    open spec fn view(&self) -> SmmoPlayerGuildView {
        SmmoPlayerGuildView { id: self.id, name: self.name@ }
    }
}

/// What a guild reference decodes to, if anything.
pub open spec fn spec_decode_guild(j: SpecJson) -> Option<SmmoPlayerGuildView> {
    if spec_get_u32(j, "id"@) is Some && spec_get_str(j, "name"@) is Some {
        Some(
            SmmoPlayerGuildView {
                id: spec_get_u32(j, "id"@)->0,
                name: spec_get_str(j, "name"@)->0,
            },
        )
    } else {
        None
    }
}

impl SmmoPlayerGuild {
    /// Decodes a guild reference from a parsed JSON document.
    pub fn decode_json(v: &JsonValue) -> (r: Result<SmmoPlayerGuild, FieldError>)
        ensures
            match r {
                Ok(g) => spec_decode_guild(v@) == Some(g@),
                Err(e) => spec_decode_guild(v@) is None,
            },
    {
        let id = match get_u32(v, "id") {
            Ok(n) => n,
            Err(e) => {
                return Err(e);
            },
        };
        let name = match get_string(v, "name") {
            Ok(s) => s,
            Err(e) => {
                return Err(e);
            },
        };
        Ok(SmmoPlayerGuild { id, name })
    }
}

/// The mathematical view of a [`SmmoPlayer`].
#[verifier::ext_equal]
pub struct SmmoPlayerView {
    pub id: UserId,
    pub name: Seq<char>,
    pub level: u32,
    pub motto: Seq<char>,
    pub profile_number: Seq<char>,
    pub exp: u32,
    pub gold: u32,
    pub steps: u32,
    pub npc_kills: u32,
    pub user_kills: u32,
    pub quests_complete: u32,
    pub dex: u32,
    pub def: u32,
    pub str: u32,
    pub bonus_dex: u32,
    pub bonus_def: u32,
    pub bonus_str: u32,
    pub hp: u32,
    pub max_hp: u32,
    pub safe_mode: bool,
    pub safe_mode_time: Option<UtcDateTime>,
    pub background: u32,
    pub membership: u32,
    pub guild: Option<SmmoPlayerGuildView>,
}

/// A player: the record the player-info endpoint returns.
#[derive(Debug, Clone)]
pub struct SmmoPlayer {
    pub id: UserId,
    pub name: String,
    pub level: u32,
    pub motto: String,
    pub profile_number: String,
    pub exp: u32,
    pub gold: u32,
    pub steps: u32,
    pub npc_kills: u32,
    pub user_kills: u32,
    pub quests_complete: u32,
    pub dex: u32,
    pub def: u32,
    pub str: u32,
    pub bonus_dex: u32,
    pub bonus_def: u32,
    pub bonus_str: u32,
    pub hp: u32,
    pub max_hp: u32,
    pub safe_mode: bool,
    pub safe_mode_time: Option<UtcDateTime>,
    pub background: u32,
    pub membership: u32,
    pub guild: Option<SmmoPlayerGuild>,
}

impl View for SmmoPlayer {
    type V = SmmoPlayerView;

    open spec fn view(&self) -> SmmoPlayerView {
        SmmoPlayerView {
            id: self.id,
            name: self.name@,
            level: self.level,
            motto: self.motto@,
            profile_number: self.profile_number@,
            exp: self.exp,
            gold: self.gold,
            steps: self.steps,
            npc_kills: self.npc_kills,
            user_kills: self.user_kills,
            quests_complete: self.quests_complete,
            dex: self.dex,
            def: self.def,
            str: self.str,
            bonus_dex: self.bonus_dex,
            bonus_def: self.bonus_def,
            bonus_str: self.bonus_str,
            hp: self.hp,
            max_hp: self.max_hp,
            safe_mode: self.safe_mode,
            safe_mode_time: self.safe_mode_time,
            background: self.background,
            membership: self.membership,
            guild: match self.guild {
                Some(g) => Some(g@),
                None => None,
            },
        }
    }
}

/// What the optional guild field decodes to: an absent member and `null`
/// both mean "no guild", and a present object must be a well-shaped guild
/// reference.
pub open spec fn spec_get_guild(j: SpecJson, key: Seq<char>) -> Option<
    Option<SmmoPlayerGuildView>,
> {
    match spec_get(j, key) {
        Some(SpecJson::Null) => Some(None),
        Some(g) => match spec_decode_guild(g) {
            Some(gv) => Some(Some(gv)),
            None => None,
        },
        None => Some(None),
    }
}

/// What a `SmmoPlayer` decodes to from a JSON document, if anything.  The
/// safe-mode flag is an integer boolean; the safe-mode expiry is `null` or
/// the custom date-time pattern; the guild member may be absent, `null`,
/// or a nested reference.
pub open spec fn spec_decode_player(j: SpecJson) -> Option<SmmoPlayerView> {
    if ({
        &&& spec_get_u32(j, "id"@) is Some
        &&& spec_get_str(j, "name"@) is Some
        &&& spec_get_u32(j, "level"@) is Some
        &&& spec_get_str(j, "motto"@) is Some
        &&& spec_get_str(j, "profile_number"@) is Some
        &&& spec_get_u32(j, "exp"@) is Some
        &&& spec_get_u32(j, "gold"@) is Some
        &&& spec_get_u32(j, "steps"@) is Some
        &&& spec_get_u32(j, "npc_kills"@) is Some
        &&& spec_get_u32(j, "user_kills"@) is Some
        &&& spec_get_u32(j, "quests_complete"@) is Some
        &&& spec_get_u32(j, "dex"@) is Some
        &&& spec_get_u32(j, "def"@) is Some
        &&& spec_get_u32(j, "str"@) is Some
        &&& spec_get_u32(j, "bonus_dex"@) is Some
        &&& spec_get_u32(j, "bonus_def"@) is Some
        &&& spec_get_u32(j, "bonus_str"@) is Some
        &&& spec_get_u32(j, "hp"@) is Some
        &&& spec_get_u32(j, "max_hp"@) is Some
        &&& spec_get_int_bool(j, "safeMode"@) is Some
        &&& match spec_get(j, "safeModeTime"@) {
            Some(t) => spec_decode_option_datefmt(t) is Some,
            None => false,
        }
        &&& spec_get_u32(j, "background"@) is Some
        &&& spec_get_u32(j, "membership"@) is Some
        &&& spec_get_guild(j, "guild"@) is Some
    }) {
        Some(
            SmmoPlayerView {
                id: UserId(spec_get_u32(j, "id"@)->0),
                name: spec_get_str(j, "name"@)->0,
                level: spec_get_u32(j, "level"@)->0,
                motto: spec_get_str(j, "motto"@)->0,
                profile_number: spec_get_str(j, "profile_number"@)->0,
                exp: spec_get_u32(j, "exp"@)->0,
                gold: spec_get_u32(j, "gold"@)->0,
                steps: spec_get_u32(j, "steps"@)->0,
                npc_kills: spec_get_u32(j, "npc_kills"@)->0,
                user_kills: spec_get_u32(j, "user_kills"@)->0,
                quests_complete: spec_get_u32(j, "quests_complete"@)->0,
                dex: spec_get_u32(j, "dex"@)->0,
                def: spec_get_u32(j, "def"@)->0,
                str: spec_get_u32(j, "str"@)->0,
                bonus_dex: spec_get_u32(j, "bonus_dex"@)->0,
                bonus_def: spec_get_u32(j, "bonus_def"@)->0,
                bonus_str: spec_get_u32(j, "bonus_str"@)->0,
                hp: spec_get_u32(j, "hp"@)->0,
                max_hp: spec_get_u32(j, "max_hp"@)->0,
                safe_mode: spec_get_int_bool(j, "safeMode"@)->0,
                safe_mode_time: spec_decode_option_datefmt(spec_get(j, "safeModeTime"@)->0)->0,
                background: spec_get_u32(j, "background"@)->0,
                membership: spec_get_u32(j, "membership"@)->0,
                guild: spec_get_guild(j, "guild"@)->0,
            },
        )
    } else {
        None
    }
}

impl SmmoPlayer {
    /// Decodes a `SmmoPlayer` from a parsed JSON document: exactly the
    /// records of [`spec_decode_player`].
    pub fn decode_json(v: &JsonValue) -> (r: Result<SmmoPlayer, FieldError>)
        ensures
            match r {
                Ok(p) => spec_decode_player(v@) == Some(p@),
                Err(e) => spec_decode_player(v@) is None,
            },
    {
        let id = match get_u32(v, "id") {
            Ok(n) => n,
            Err(e) => {
                return Err(e);
            },
        };
        let name = match get_string(v, "name") {
            Ok(s) => s,
            Err(e) => {
                return Err(e);
            },
        };
        let level = match get_u32(v, "level") {
            Ok(n) => n,
            Err(e) => {
                return Err(e);
            },
        };
        let motto = match get_string(v, "motto") {
            Ok(s) => s,
            Err(e) => {
                return Err(e);
            },
        };
        let profile_number = match get_string(v, "profile_number") {
            Ok(s) => s,
            Err(e) => {
                return Err(e);
            },
        };
        let exp = match get_u32(v, "exp") {
            Ok(n) => n,
            Err(e) => {
                return Err(e);
            },
        };
        let gold = match get_u32(v, "gold") {
            Ok(n) => n,
            Err(e) => {
                return Err(e);
            },
        };
        let steps = match get_u32(v, "steps") {
            Ok(n) => n,
            Err(e) => {
                return Err(e);
            },
        };
        let npc_kills = match get_u32(v, "npc_kills") {
            Ok(n) => n,
            Err(e) => {
                return Err(e);
            },
        };
        let user_kills = match get_u32(v, "user_kills") {
            Ok(n) => n,
            Err(e) => {
                return Err(e);
            },
        };
        let quests_complete = match get_u32(v, "quests_complete") {
            Ok(n) => n,
            Err(e) => {
                return Err(e);
            },
        };
        let dex = match get_u32(v, "dex") {
            Ok(n) => n,
            Err(e) => {
                return Err(e);
            },
        };
        let def = match get_u32(v, "def") {
            Ok(n) => n,
            Err(e) => {
                return Err(e);
            },
        };
        let str = match get_u32(v, "str") {
            Ok(n) => n,
            Err(e) => {
                return Err(e);
            },
        };
        let bonus_dex = match get_u32(v, "bonus_dex") {
            Ok(n) => n,
            Err(e) => {
                return Err(e);
            },
        };
        let bonus_def = match get_u32(v, "bonus_def") {
            Ok(n) => n,
            Err(e) => {
                return Err(e);
            },
        };
        let bonus_str = match get_u32(v, "bonus_str") {
            Ok(n) => n,
            Err(e) => {
                return Err(e);
            },
        };
        let hp = match get_u32(v, "hp") {
            Ok(n) => n,
            Err(e) => {
                return Err(e);
            },
        };
        let max_hp = match get_u32(v, "max_hp") {
            Ok(n) => n,
            Err(e) => {
                return Err(e);
            },
        };
        let safe_mode = match get_int_bool(v, "safeMode") {
            Ok(b) => b,
            Err(e) => {
                return Err(e);
            },
        };
        let safe_mode_time = match v.get("safeModeTime") {
            Some(f) => match deserialize_option_datefmt(f) {
                Ok(o) => o,
                Err(e) => {
                    return Err(FieldError::Invalid { field: "safeModeTime" });
                },
            },
            None => {
                return Err(FieldError::Missing { field: "safeModeTime" });
            },
        };
        let background = match get_u32(v, "background") {
            Ok(n) => n,
            Err(e) => {
                return Err(e);
            },
        };
        let membership = match get_u32(v, "membership") {
            Ok(n) => n,
            Err(e) => {
                return Err(e);
            },
        };
        let guild = match v.get("guild") {
            Some(f) => match f {
                JsonValue::Null => None,
                _ => match SmmoPlayerGuild::decode_json(f) {
                    Ok(g) => Some(g),
                    Err(e) => {
                        return Err(FieldError::Invalid { field: "guild" });
                    },
                },
            },
            None => None,
        };
        let p = SmmoPlayer {
            id: UserId(id),
            name,
            level,
            motto,
            profile_number,
            exp,
            gold,
            steps,
            npc_kills,
            user_kills,
            quests_complete,
            dex,
            def,
            str,
            bonus_dex,
            bonus_def,
            bonus_str,
            hp,
            max_hp,
            safe_mode,
            safe_mode_time,
            background,
            membership,
            guild,
        };
        proof {
            assert(spec_decode_player(v@) is Some);
            assert(p@ =~~= spec_decode_player(v@)->0);
        }
        Ok(p)
    }
}

impl SmmoModel for SmmoPlayer {
    open spec fn spec_type_label() -> Seq<char> {
        "SmmoPlayer"@
    }

    open spec fn spec_from_json(j: SpecJson) -> Option<SmmoPlayerView> {
        spec_decode_player(j)
    }

    fn type_label() -> (s: &'static str) {
        "SmmoPlayer"
    }

    fn from_json(v: &JsonValue) -> (r: Result<SmmoPlayer, FieldError>) {
        SmmoPlayer::decode_json(v)
    }
}


/// The JSON document that re-encoding a guild reference produces.
pub open spec fn spec_encode_guild(gv: SmmoPlayerGuildView) -> SpecJson {
    SpecJson::Obj(
        seq![("id"@, SpecJson::Int(gv.id as int)), ("name"@, SpecJson::Str(gv.name))],
    )
}

impl SmmoPlayerGuild {
    /// Re-encodes the guild reference as a JSON document.
    pub fn to_json(&self) -> (r: JsonValue)
        ensures
            r@ == spec_encode_guild(self@),
    {
        let mut members: Vec<(String, JsonValue)> = Vec::new();
        members.push((String::from_str("id"), JsonValue::Int(self.id as i128)));
        members.push((String::from_str("name"), JsonValue::Str(self.name.clone())));
        proof {
            crate::json::lemma_view_obj(members, members@.len() as int);
        }
        let ghost target = spec_encode_guild(self@);
        let r = JsonValue::Obj(members);
        proof {
            assert(crate::json::spec_view_obj(members, 2) =~~= target->Obj_0);
            assert(r@ =~~= target);
        }
        r
    }
}

/// The JSON document that re-encoding a player produces: the wire field
/// names, an integer boolean for the safe-mode flag, RFC 3339 for its
/// expiry (the wire is asymmetric: decoding reads the custom pattern), and
/// `null` for an absent guild.
pub open spec fn spec_encode_player(pv: SmmoPlayerView) -> SpecJson {
    SpecJson::Obj(
        seq![
            ("id"@, SpecJson::Int(pv.id.0 as int)),
            ("name"@, SpecJson::Str(pv.name)),
            ("level"@, SpecJson::Int(pv.level as int)),
            ("motto"@, SpecJson::Str(pv.motto)),
            ("profile_number"@, SpecJson::Str(pv.profile_number)),
            ("exp"@, SpecJson::Int(pv.exp as int)),
            ("gold"@, SpecJson::Int(pv.gold as int)),
            ("steps"@, SpecJson::Int(pv.steps as int)),
            ("npc_kills"@, SpecJson::Int(pv.npc_kills as int)),
            ("user_kills"@, SpecJson::Int(pv.user_kills as int)),
            ("quests_complete"@, SpecJson::Int(pv.quests_complete as int)),
            ("dex"@, SpecJson::Int(pv.dex as int)),
            ("def"@, SpecJson::Int(pv.def as int)),
            ("str"@, SpecJson::Int(pv.str as int)),
            ("bonus_dex"@, SpecJson::Int(pv.bonus_dex as int)),
            ("bonus_def"@, SpecJson::Int(pv.bonus_def as int)),
            ("bonus_str"@, SpecJson::Int(pv.bonus_str as int)),
            ("hp"@, SpecJson::Int(pv.hp as int)),
            ("max_hp"@, SpecJson::Int(pv.max_hp as int)),
            (
                "safeMode"@,
                SpecJson::Int(
                    if pv.safe_mode {
                        1
                    } else {
                        0
                    },
                ),
            ),
            (
                "safeModeTime"@,
                match pv.safe_mode_time {
                    Some(t) => SpecJson::Str(crate::datetime::spec_format_rfc3339(t)),
                    None => SpecJson::Null,
                },
            ),
            ("background"@, SpecJson::Int(pv.background as int)),
            ("membership"@, SpecJson::Int(pv.membership as int)),
            (
                "guild"@,
                match pv.guild {
                    Some(g) => spec_encode_guild(g),
                    None => SpecJson::Null,
                },
            ),
        ],
    )
}

impl SmmoPlayer {
    /// Re-encodes the player as a JSON document: exactly
    /// [`spec_encode_player`] of its view.
    #[verifier::rlimit(80)]
    pub fn to_json(&self) -> (r: JsonValue)
        ensures
            r@ == spec_encode_player(self@),
    {
        let mut members: Vec<(String, JsonValue)> = Vec::new();
        members.push((String::from_str("id"), JsonValue::Int(self.id.inner() as i128)));
        members.push((String::from_str("name"), JsonValue::Str(self.name.clone())));
        members.push((String::from_str("level"), JsonValue::Int(self.level as i128)));
        members.push((String::from_str("motto"), JsonValue::Str(self.motto.clone())));
        members.push(
            (String::from_str("profile_number"), JsonValue::Str(self.profile_number.clone())),
        );
        members.push((String::from_str("exp"), JsonValue::Int(self.exp as i128)));
        members.push((String::from_str("gold"), JsonValue::Int(self.gold as i128)));
        members.push((String::from_str("steps"), JsonValue::Int(self.steps as i128)));
        members.push((String::from_str("npc_kills"), JsonValue::Int(self.npc_kills as i128)));
        members.push((String::from_str("user_kills"), JsonValue::Int(self.user_kills as i128)));
        members.push(
            (String::from_str("quests_complete"), JsonValue::Int(self.quests_complete as i128)),
        );
        members.push((String::from_str("dex"), JsonValue::Int(self.dex as i128)));
        members.push((String::from_str("def"), JsonValue::Int(self.def as i128)));
        members.push((String::from_str("str"), JsonValue::Int(self.str as i128)));
        members.push((String::from_str("bonus_dex"), JsonValue::Int(self.bonus_dex as i128)));
        members.push((String::from_str("bonus_def"), JsonValue::Int(self.bonus_def as i128)));
        members.push((String::from_str("bonus_str"), JsonValue::Int(self.bonus_str as i128)));
        members.push((String::from_str("hp"), JsonValue::Int(self.hp as i128)));
        members.push((String::from_str("max_hp"), JsonValue::Int(self.max_hp as i128)));
        members.push(
            (
                String::from_str("safeMode"),
                JsonValue::Int(
                    if self.safe_mode {
                        1
                    } else {
                        0
                    },
                ),
            ),
        );
        let safe_mode_time = match &self.safe_mode_time {
            Some(t) => JsonValue::Str(
                crate::custom_serde::date_time_option::serialize_option_datefmt(t),
            ),
            None => JsonValue::Null,
        };
        members.push((String::from_str("safeModeTime"), safe_mode_time));
        members.push((String::from_str("background"), JsonValue::Int(self.background as i128)));
        members.push((String::from_str("membership"), JsonValue::Int(self.membership as i128)));
        let guild = match &self.guild {
            Some(g) => g.to_json(),
            None => JsonValue::Null,
        };
        members.push((String::from_str("guild"), guild));
        proof {
            crate::json::lemma_view_obj(members, members@.len() as int);
            assert(members@.len() == 24);
        }
        let ghost target = spec_encode_player(self@);
        let r = JsonValue::Obj(members);
        proof {
            assert(crate::json::spec_view_obj(members, 24) =~~= target->Obj_0);
            assert(r@ =~~= target);
        }
        r
    }
}


impl SmmoPlayer {
    /// The record as JSON text, for logging and diagnostics.
    pub fn to_json_string(&self) -> (r: String)
        ensures
            r@ == crate::json_print::spec_print(spec_encode_player(self@)),
    {
        crate::json_print::json_to_string(&self.to_json())
    }
}


/// Re-encoding and then decoding a guild reference yields it back.
pub proof fn lemma_guild_round_trip(gv: SmmoPlayerGuildView)
    ensures
        spec_decode_guild(spec_encode_guild(gv)) == Some(gv),
{
    reveal_strlit("id");
    reveal_strlit("name");
    assert(("id"@) =~= seq!['i', 'd']);
    assert(("name"@) =~= seq!['n', 'a', 'm', 'e']);
    let j = spec_encode_guild(gv);
    reveal_with_fuel(crate::json::spec_obj_get, 3);
    assert(spec_get_u32(j, "id"@) == Some(gv.id));
    assert(spec_get_str(j, "name"@) == Some(gv.name));
    assert(spec_decode_guild(j)->0 =~= gv);
}

/// A player view on the round-trip path: one without a safe-mode expiry.
/// The expiry field is asymmetric on the wire — re-encoded as RFC 3339 but
/// decoded from the custom pattern — so a player carrying one does not
/// survive the trip.
pub open spec fn spec_player_wf(pv: SmmoPlayerView) -> bool {
    pv.safe_mode_time is None
}

/// Re-encoding and then decoding a player without a safe-mode expiry
/// yields the player back.  A player with one is excluded: its expiry is
/// re-encoded in a form the field decoder does not read.
#[verifier::rlimit(100)]
pub proof fn lemma_player_round_trip(pv: SmmoPlayerView)
    requires
        spec_player_wf(pv),
    ensures
        spec_decode_player(spec_encode_player(pv)) == Some(pv),
{
    reveal_strlit("id");
    reveal_strlit("name");
    reveal_strlit("level");
    reveal_strlit("motto");
    reveal_strlit("profile_number");
    reveal_strlit("exp");
    reveal_strlit("gold");
    reveal_strlit("steps");
    reveal_strlit("npc_kills");
    reveal_strlit("user_kills");
    reveal_strlit("quests_complete");
    reveal_strlit("dex");
    reveal_strlit("def");
    reveal_strlit("str");
    reveal_strlit("bonus_dex");
    reveal_strlit("bonus_def");
    reveal_strlit("bonus_str");
    reveal_strlit("hp");
    reveal_strlit("max_hp");
    reveal_strlit("safeMode");
    reveal_strlit("safeModeTime");
    reveal_strlit("background");
    reveal_strlit("membership");
    reveal_strlit("guild");
    assert(("id"@) =~= seq!['i', 'd']);
    assert(("name"@) =~= seq!['n', 'a', 'm', 'e']);
    assert(("level"@) =~= seq!['l', 'e', 'v', 'e', 'l']);
    assert(("motto"@) =~= seq!['m', 'o', 't', 't', 'o']);
    assert(("profile_number"@) =~= seq!['p', 'r', 'o', 'f', 'i', 'l', 'e', '_', 'n', 'u', 'm', 'b', 'e', 'r']);
    assert(("exp"@) =~= seq!['e', 'x', 'p']);
    assert(("gold"@) =~= seq!['g', 'o', 'l', 'd']);
    assert(("steps"@) =~= seq!['s', 't', 'e', 'p', 's']);
    assert(("npc_kills"@) =~= seq!['n', 'p', 'c', '_', 'k', 'i', 'l', 'l', 's']);
    assert(("user_kills"@) =~= seq!['u', 's', 'e', 'r', '_', 'k', 'i', 'l', 'l', 's']);
    assert(("quests_complete"@) =~= seq!['q', 'u', 'e', 's', 't', 's', '_', 'c', 'o', 'm', 'p', 'l', 'e', 't', 'e']);
    assert(("dex"@) =~= seq!['d', 'e', 'x']);
    assert(("def"@) =~= seq!['d', 'e', 'f']);
    assert(("str"@) =~= seq!['s', 't', 'r']);
    assert(("bonus_dex"@) =~= seq!['b', 'o', 'n', 'u', 's', '_', 'd', 'e', 'x']);
    assert(("bonus_def"@) =~= seq!['b', 'o', 'n', 'u', 's', '_', 'd', 'e', 'f']);
    assert(("bonus_str"@) =~= seq!['b', 'o', 'n', 'u', 's', '_', 's', 't', 'r']);
    assert(("hp"@) =~= seq!['h', 'p']);
    assert(("max_hp"@) =~= seq!['m', 'a', 'x', '_', 'h', 'p']);
    assert(("safeMode"@) =~= seq!['s', 'a', 'f', 'e', 'M', 'o', 'd', 'e']);
    assert(("safeModeTime"@) =~= seq!['s', 'a', 'f', 'e', 'M', 'o', 'd', 'e', 'T', 'i', 'm', 'e']);
    assert(("background"@) =~= seq!['b', 'a', 'c', 'k', 'g', 'r', 'o', 'u', 'n', 'd']);
    assert(("membership"@) =~= seq!['m', 'e', 'm', 'b', 'e', 'r', 's', 'h', 'i', 'p']);
    assert(("guild"@) =~= seq!['g', 'u', 'i', 'l', 'd']);
    reveal_strlit("0");
    reveal_strlit("1");
    assert(("0"@) =~= seq!['0']);
    assert(("1"@) =~= seq!['1']);
    let j = spec_encode_player(pv);
    reveal_with_fuel(crate::json::spec_obj_get, 25);
    assert(spec_get_u32(j, "id"@) == Some(pv.id.0));
    assert(spec_get_u32(j, "level"@) == Some(pv.level));
    assert(spec_get_u32(j, "exp"@) == Some(pv.exp));
    assert(spec_get_u32(j, "gold"@) == Some(pv.gold));
    assert(spec_get_u32(j, "steps"@) == Some(pv.steps));
    assert(spec_get_u32(j, "npc_kills"@) == Some(pv.npc_kills));
    assert(spec_get_u32(j, "user_kills"@) == Some(pv.user_kills));
    assert(spec_get_u32(j, "quests_complete"@) == Some(pv.quests_complete));
    assert(spec_get_u32(j, "dex"@) == Some(pv.dex));
    assert(spec_get_u32(j, "def"@) == Some(pv.def));
    assert(spec_get_u32(j, "str"@) == Some(pv.str));
    assert(spec_get_u32(j, "bonus_dex"@) == Some(pv.bonus_dex));
    assert(spec_get_u32(j, "bonus_def"@) == Some(pv.bonus_def));
    assert(spec_get_u32(j, "bonus_str"@) == Some(pv.bonus_str));
    assert(spec_get_u32(j, "hp"@) == Some(pv.hp));
    assert(spec_get_u32(j, "max_hp"@) == Some(pv.max_hp));
    assert(spec_get_u32(j, "background"@) == Some(pv.background));
    assert(spec_get_u32(j, "membership"@) == Some(pv.membership));
    assert(spec_get_str(j, "name"@) == Some(pv.name));
    assert(spec_get_str(j, "motto"@) == Some(pv.motto));
    assert(spec_get_str(j, "profile_number"@) == Some(pv.profile_number));
    if pv.safe_mode {
        assert(spec_get_int_bool(j, "safeMode"@) == Some(true));
    } else {
        assert(spec_get_int_bool(j, "safeMode"@) == Some(false));
    }
    assert(spec_get(j, "safeModeTime"@) == Some(SpecJson::Null));
    match pv.guild {
        Some(g) => {
            assert(spec_get(j, "guild"@) == Some(spec_encode_guild(g)));
            lemma_guild_round_trip(g);
            assert(spec_get_guild(j, "guild"@) == Some(Some(g)));
        },
        None => {
            assert(spec_get(j, "guild"@) == Some(SpecJson::Null));
        },
    }
    assert(spec_decode_player(j) is Some);
    assert(spec_decode_player(j)->0 =~~= pv);
}

} // verus!
