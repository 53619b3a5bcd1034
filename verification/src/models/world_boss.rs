//! The world-boss resource: a single boss record, and the ordered list the
//! "list all" endpoint returns.  The activation timestamp travels as epoch
//! seconds, a third date encoding beside the two textual ones.

use vstd::prelude::*;

use crate::json::{spec_view_arr, JsonValue, SpecJson};
use crate::models::{get_i64, get_string, get_u32, spec_get_i64, spec_get_str, spec_get_u32};
use crate::models::{FieldError, SmmoModel};

verus! {

/// The mathematical view of a [`WorldBoss`].
#[verifier::ext_equal]
pub struct WorldBossView {
    pub id: u32,
    pub name: Seq<char>,
    pub avatar: Seq<char>,
    pub level: u32,
    pub god: u32,
    pub str: u32,
    pub def: u32,
    pub dex: u32,
    pub current_hp: u32,
    pub max_hp: u32,
    pub enable_time: i64,
}

/// A world boss: the record the world-boss endpoints return.
/// `enable_time` is the activation instant in epoch seconds.
#[derive(Debug, Clone)]
pub struct WorldBoss {
    pub id: u32,
    pub name: String,
    pub avatar: String,
    pub level: u32,
    pub god: u32,
    pub str: u32,
    pub def: u32,
    pub dex: u32,
    pub current_hp: u32,
    pub max_hp: u32,
    pub enable_time: i64,
}

impl View for WorldBoss {
    type V = WorldBossView;

    open spec fn view(&self) -> WorldBossView {
        WorldBossView {
            id: self.id,
            name: self.name@,
            avatar: self.avatar@,
            level: self.level,
            god: self.god,
            str: self.str,
            def: self.def,
            dex: self.dex,
            current_hp: self.current_hp,
            max_hp: self.max_hp,
            enable_time: self.enable_time,
        }
    }
}

impl PartialEq for WorldBoss {
    /// Structural equality, field by field.
    fn eq(&self, other: &WorldBoss) -> (r: bool) {
        let r = self.id == other.id && self.name == other.name && self.avatar == other.avatar
            && self.level == other.level && self.god == other.god && self.str == other.str
            && self.def == other.def && self.dex == other.dex && self.current_hp
            == other.current_hp && self.max_hp == other.max_hp && self.enable_time
            == other.enable_time;
        proof {
            if r {
                assert(self@ =~= other@);
            }
            if self@ == other@ {
                assert(self.name@ == other.name@);
                assert(self.avatar@ == other.avatar@);
                assert(r);
            }
        }
        r
    }
}

impl vstd::std_specs::cmp::PartialEqSpecImpl for WorldBoss {
    open spec fn obeys_eq_spec() -> bool {
        true
    }

    /// Two bosses are equal exactly when their views agree.
    open spec fn eq_spec(&self, other: &WorldBoss) -> bool {
        self@ == other@
    }
}

/// What a `WorldBoss` decodes to from a JSON document, if anything: every
/// field is required.
pub open spec fn spec_decode_world_boss(j: SpecJson) -> Option<WorldBossView> {
    if ({
        &&& spec_get_u32(j, "id"@) is Some
        &&& spec_get_str(j, "name"@) is Some
        &&& spec_get_str(j, "avatar"@) is Some
        &&& spec_get_u32(j, "level"@) is Some
        &&& spec_get_u32(j, "god"@) is Some
        &&& spec_get_u32(j, "str"@) is Some
        &&& spec_get_u32(j, "def"@) is Some
        &&& spec_get_u32(j, "dex"@) is Some
        &&& spec_get_u32(j, "current_hp"@) is Some
        &&& spec_get_u32(j, "max_hp"@) is Some
        &&& spec_get_i64(j, "enable_time"@) is Some
    }) {
        Some(
            WorldBossView {
                id: spec_get_u32(j, "id"@)->0,
                name: spec_get_str(j, "name"@)->0,
                avatar: spec_get_str(j, "avatar"@)->0,
                level: spec_get_u32(j, "level"@)->0,
                god: spec_get_u32(j, "god"@)->0,
                str: spec_get_u32(j, "str"@)->0,
                def: spec_get_u32(j, "def"@)->0,
                dex: spec_get_u32(j, "dex"@)->0,
                current_hp: spec_get_u32(j, "current_hp"@)->0,
                max_hp: spec_get_u32(j, "max_hp"@)->0,
                enable_time: spec_get_i64(j, "enable_time"@)->0,
            },
        )
    } else {
        None
    }
}

/// The JSON document that re-encoding a world boss produces.
pub open spec fn spec_encode_world_boss(bv: WorldBossView) -> SpecJson {
    SpecJson::Obj(
        seq![
            ("id"@, SpecJson::Int(bv.id as int)),
            ("name"@, SpecJson::Str(bv.name)),
            ("avatar"@, SpecJson::Str(bv.avatar)),
            ("level"@, SpecJson::Int(bv.level as int)),
            ("god"@, SpecJson::Int(bv.god as int)),
            ("str"@, SpecJson::Int(bv.str as int)),
            ("def"@, SpecJson::Int(bv.def as int)),
            ("dex"@, SpecJson::Int(bv.dex as int)),
            ("current_hp"@, SpecJson::Int(bv.current_hp as int)),
            ("max_hp"@, SpecJson::Int(bv.max_hp as int)),
            ("enable_time"@, SpecJson::Int(bv.enable_time as int)),
        ],
    )
}

impl WorldBoss {
    /// Decodes a `WorldBoss` from a parsed JSON document: exactly the
    /// records of [`spec_decode_world_boss`].
    pub fn decode_json(v: &JsonValue) -> (r: Result<WorldBoss, FieldError>)
        ensures
            match r {
                Ok(b) => spec_decode_world_boss(v@) == Some(b@),
                Err(e) => spec_decode_world_boss(v@) is None,
            },
    {
        let id = match get_u32(v, "id") {
            Ok(n) => n,
            Err(e) => {
                return Err(e);
            },
        };
        let name = match get_string(v, "name") {
            Ok(s) => s,
            Err(e) => {
                return Err(e);
            },
        };
        let avatar = match get_string(v, "avatar") {
            Ok(s) => s,
            Err(e) => {
                return Err(e);
            },
        };
        let level = match get_u32(v, "level") {
            Ok(n) => n,
            Err(e) => {
                return Err(e);
            },
        };
        let god = match get_u32(v, "god") {
            Ok(n) => n,
            Err(e) => {
                return Err(e);
            },
        };
        let str = match get_u32(v, "str") {
            Ok(n) => n,
            Err(e) => {
                return Err(e);
            },
        };
        let def = match get_u32(v, "def") {
            Ok(n) => n,
            Err(e) => {
                return Err(e);
            },
        };
        let dex = match get_u32(v, "dex") {
            Ok(n) => n,
            Err(e) => {
                return Err(e);
            },
        };
        let current_hp = match get_u32(v, "current_hp") {
            Ok(n) => n,
            Err(e) => {
                return Err(e);
            },
        };
        let max_hp = match get_u32(v, "max_hp") {
            Ok(n) => n,
            Err(e) => {
                return Err(e);
            },
        };
        let enable_time = match get_i64(v, "enable_time") {
            Ok(n) => n,
            Err(e) => {
                return Err(e);
            },
        };
        let b = WorldBoss {
            id,
            name,
            avatar,
            level,
            god,
            str,
            def,
            dex,
            current_hp,
            max_hp,
            enable_time,
        };
        proof {
            assert(spec_decode_world_boss(v@) is Some);
            assert(b@ =~= spec_decode_world_boss(v@)->0);
        }
        Ok(b)
    }

    /// Re-encodes the boss as a JSON document: exactly
    /// [`spec_encode_world_boss`] of its view.
    pub fn to_json(&self) -> (r: JsonValue)
        ensures
            r@ == spec_encode_world_boss(self@),
    {
        let mut members: Vec<(String, JsonValue)> = Vec::new();
        members.push((String::from_str("id"), JsonValue::Int(self.id as i128)));
        members.push((String::from_str("name"), JsonValue::Str(self.name.clone())));
        members.push((String::from_str("avatar"), JsonValue::Str(self.avatar.clone())));
        members.push((String::from_str("level"), JsonValue::Int(self.level as i128)));
        members.push((String::from_str("god"), JsonValue::Int(self.god as i128)));
        members.push((String::from_str("str"), JsonValue::Int(self.str as i128)));
        members.push((String::from_str("def"), JsonValue::Int(self.def as i128)));
        members.push((String::from_str("dex"), JsonValue::Int(self.dex as i128)));
        members.push((String::from_str("current_hp"), JsonValue::Int(self.current_hp as i128)));
        members.push((String::from_str("max_hp"), JsonValue::Int(self.max_hp as i128)));
        members.push((String::from_str("enable_time"), JsonValue::Int(self.enable_time as i128)));
        proof {
            crate::json::lemma_view_obj(members, members@.len() as int);
        }
        let ghost target = spec_encode_world_boss(self@);
        let r = JsonValue::Obj(members);
        proof {
            assert(crate::json::spec_view_obj(members, 11) =~~= target->Obj_0);
            assert(r@ =~~= target);
        }
        r
    }
}

/// Re-encoding and then decoding a world boss yields the boss back.
pub proof fn lemma_world_boss_round_trip(bv: WorldBossView)
    ensures
        spec_decode_world_boss(spec_encode_world_boss(bv)) == Some(bv),
{
    reveal_strlit("id");
    reveal_strlit("name");
    reveal_strlit("avatar");
    reveal_strlit("level");
    reveal_strlit("god");
    reveal_strlit("str");
    reveal_strlit("def");
    reveal_strlit("dex");
    reveal_strlit("current_hp");
    reveal_strlit("max_hp");
    reveal_strlit("enable_time");
    assert(("id"@) =~= seq!['i', 'd']);
    assert(("name"@) =~= seq!['n', 'a', 'm', 'e']);
    assert(("avatar"@) =~= seq!['a', 'v', 'a', 't', 'a', 'r']);
    assert(("level"@) =~= seq!['l', 'e', 'v', 'e', 'l']);
    assert(("god"@) =~= seq!['g', 'o', 'd']);
    assert(("str"@) =~= seq!['s', 't', 'r']);
    assert(("def"@) =~= seq!['d', 'e', 'f']);
    assert(("dex"@) =~= seq!['d', 'e', 'x']);
    assert(("current_hp"@) =~= seq!['c', 'u', 'r', 'r', 'e', 'n', 't', '_', 'h', 'p']);
    assert(("max_hp"@) =~= seq!['m', 'a', 'x', '_', 'h', 'p']);
    assert(("enable_time"@) =~= seq!['e', 'n', 'a', 'b', 'l', 'e', '_', 't', 'i', 'm', 'e']);
    let j = spec_encode_world_boss(bv);
    reveal_with_fuel(crate::json::spec_obj_get, 12);
    assert(spec_get_u32(j, "id"@) == Some(bv.id));
    assert(spec_get_str(j, "name"@) == Some(bv.name));
    assert(spec_get_str(j, "avatar"@) == Some(bv.avatar));
    assert(spec_get_u32(j, "level"@) == Some(bv.level));
    assert(spec_get_u32(j, "god"@) == Some(bv.god));
    assert(spec_get_u32(j, "str"@) == Some(bv.str));
    assert(spec_get_u32(j, "def"@) == Some(bv.def));
    assert(spec_get_u32(j, "dex"@) == Some(bv.dex));
    assert(spec_get_u32(j, "current_hp"@) == Some(bv.current_hp));
    assert(spec_get_u32(j, "max_hp"@) == Some(bv.max_hp));
    assert(spec_get_i64(j, "enable_time"@) == Some(bv.enable_time));
    assert(spec_decode_world_boss(j) is Some);
    assert(spec_decode_world_boss(j)->0 =~= bv);
}

impl SmmoModel for WorldBoss {
    open spec fn spec_type_label() -> Seq<char> {
        "WorldBoss"@
    }

    open spec fn spec_from_json(j: SpecJson) -> Option<WorldBossView> {
        spec_decode_world_boss(j)
    }

    fn type_label() -> (s: &'static str) {
        "WorldBoss"
    }

    fn from_json(v: &JsonValue) -> (r: Result<WorldBoss, FieldError>) {
        WorldBoss::decode_json(v)
    }
}

/// What the "list all" payload decodes to: every element a boss, in order.
pub open spec fn spec_decode_world_bosses(j: SpecJson) -> Option<Seq<WorldBossView>> {
    match j {
        SpecJson::Arr(elems) => if forall|i: int|
            0 <= i < elems.len() ==> #[trigger] spec_decode_world_boss(elems[i]) is Some {
            Some(Seq::new(elems.len(), |i: int| spec_decode_world_boss(elems[i])->0))
        } else {
            None
        },
        _ => None,
    }
}

/// The ordered sequence of world bosses the "list all" endpoint returns.
#[derive(Debug, Clone)]
pub struct WorldBosses(pub Vec<WorldBoss>);

impl View for WorldBosses {
    type V = Seq<WorldBossView>;

    open spec fn view(&self) -> Seq<WorldBossView> {
        Seq::new(self.0@.len(), |i: int| self.0@[i]@)
    }
}

impl WorldBosses {
    /// Decodes the boss list from a parsed JSON document: exactly the
    /// records of [`spec_decode_world_bosses`].
    pub fn decode_json(v: &JsonValue) -> (r: Result<WorldBosses, FieldError>)
        ensures
            match r {
                Ok(bs) => spec_decode_world_bosses(v@) == Some(bs@),
                Err(e) => spec_decode_world_bosses(v@) is None,
            },
    {
        match v {
            JsonValue::Arr(elems) => {
                let ghost ev = spec_view_arr(*elems, elems@.len() as int);
                proof {
                    crate::json::lemma_view_arr(*elems, elems@.len() as int);
                }
                let n = elems.len();
                let mut out: Vec<WorldBoss> = Vec::new();
                let mut i: usize = 0;
                while i < n
                    invariant
                        *v == JsonValue::Arr(*elems),
                        v@ == SpecJson::Arr(ev),
                        n == elems@.len(),
                        i <= n,
                        ev == spec_view_arr(*elems, elems@.len() as int),
                        ev.len() == n,
                        forall|k: int| 0 <= k < n ==> ev[k] == elems@[k].spec_view(),
                        out@.len() == i,
                        forall|k: int|
                            0 <= k < i ==> #[trigger] spec_decode_world_boss(ev[k]) is Some,
                        forall|k: int|
                            0 <= k < i ==> out@[k]@ == spec_decode_world_boss(ev[k])->0,
                    decreases n - i,
                {
                    match WorldBoss::decode_json(&elems[i]) {
                        Ok(b) => {
                            out.push(b);
                        },
                        Err(e) => {
                            proof {
                                assert(spec_decode_world_boss(ev[i as int]) is None);
                            }
                            return Err(e);
                        },
                    }
                    i += 1;
                }
                let bs = WorldBosses(out);
                proof {
                    assert(spec_decode_world_bosses(v@) is Some);
                    assert(bs@ =~= spec_decode_world_bosses(v@)->0);
                }
                Ok(bs)
            },
            _ => Err(FieldError::NotAnObject),
        }
    }

    /// Re-encodes the boss list as a JSON array of the bosses, in order.
    pub fn to_json(&self) -> (r: JsonValue)
        ensures
            r@ == SpecJson::Arr(Seq::new(self@.len(), |i: int| spec_encode_world_boss(self@[i]))),
    {
        let n = self.0.len();
        let mut elems: Vec<JsonValue> = Vec::new();
        let mut i: usize = 0;
        while i < n
            invariant
                n == self.0@.len(),
                i <= n,
                elems@.len() == i,
                forall|k: int| 0 <= k < i ==> elems@[k]@ == spec_encode_world_boss(self.0@[k]@),
            decreases n - i,
        {
            elems.push(self.0[i].to_json());
            i += 1;
        }
        proof {
            crate::json::lemma_view_arr(elems, elems@.len() as int);
        }
        let r = JsonValue::Arr(elems);
        proof {
            let ev = spec_view_arr(elems, elems@.len() as int);
            let target = Seq::new(self@.len(), |k: int| spec_encode_world_boss(self@[k]));
            assert forall|k: int| 0 <= k < ev.len() implies ev[k] == target[k] by {
                assert(ev[k] == elems@[k]@);
                assert(elems@[k]@ == spec_encode_world_boss(self.0@[k]@));
                assert(self@[k] == self.0@[k]@);
            }
            assert(ev =~~= target);
            assert(r@ =~~= SpecJson::Arr(target));
        }
        r
    }
}

/// Re-encoding and then decoding a boss list yields the list back.
pub proof fn lemma_world_bosses_round_trip(bs: Seq<WorldBossView>)
    ensures
        spec_decode_world_bosses(
            SpecJson::Arr(Seq::new(bs.len(), |i: int| spec_encode_world_boss(bs[i]))),
        ) == Some(bs),
{
    let elems = Seq::new(bs.len(), |i: int| spec_encode_world_boss(bs[i]));
    assert forall|i: int| 0 <= i < elems.len() implies #[trigger] spec_decode_world_boss(
        elems[i],
    ) is Some by {
        lemma_world_boss_round_trip(bs[i]);
    }
    assert forall|i: int| 0 <= i < elems.len() implies #[trigger] spec_decode_world_boss(
        elems[i],
    )->0 == bs[i] by {
        lemma_world_boss_round_trip(bs[i]);
    }
    assert(spec_decode_world_bosses(SpecJson::Arr(elems))->0 =~= bs);
}

impl SmmoModel for WorldBosses {
    open spec fn spec_type_label() -> Seq<char> {
        "Vec<WorldBoss>"@
    }

    open spec fn spec_from_json(j: SpecJson) -> Option<Seq<WorldBossView>> {
        spec_decode_world_bosses(j)
    }

    fn type_label() -> (s: &'static str) {
        "Vec<WorldBoss>"
    }

    fn from_json(v: &JsonValue) -> (r: Result<WorldBosses, FieldError>) {
        WorldBosses::decode_json(v)
    }
}


/// The textual form of a positive duration, as the status line shows it:
/// days first when there are any, then hours, minutes and seconds.
pub open spec fn spec_duration_pretty(total: nat) -> Seq<char> {
    let days = total / 86400;
    let h = (total / 3600) % 24;
    let m = (total / 60) % 60;
    let s = total % 60;
    if days > 0 {
        crate::strings::dec_str(days) + " days, "@ + crate::strings::dec_str(h) + " hours "@
            + crate::strings::dec_str(m) + " mins "@ + crate::strings::dec_str(s) + " secs."@
    } else {
        crate::strings::dec_str(h) + " hours "@ + crate::strings::dec_str(m) + " mins "@
            + crate::strings::dec_str(s) + " secs."@
    }
}

/// Renders a duration in seconds as the status line shows it.
pub fn duration_pretty(total: u64) -> (r: String)
    ensures
        r@ == spec_duration_pretty(total as nat),
{
    let days = total / 86400;
    let h = (total / 3600) % 24;
    let m = (total / 60) % 60;
    let s = total % 60;
    if days > 0 {
        let mut out = crate::strings::u64_to_string(days);
        out.append(" days, ");
        out.append(crate::strings::u64_to_string(h).as_str());
        out.append(" hours ");
        out.append(crate::strings::u64_to_string(m).as_str());
        out.append(" mins ");
        out.append(crate::strings::u64_to_string(s).as_str());
        out.append(" secs.");
        assert(out@ =~= spec_duration_pretty(total as nat));
        out
    } else {
        let mut out = crate::strings::u64_to_string(h);
        out.append(" hours ");
        out.append(crate::strings::u64_to_string(m).as_str());
        out.append(" mins ");
        out.append(crate::strings::u64_to_string(s).as_str());
        out.append(" secs.");
        assert(out@ =~= spec_duration_pretty(total as nat));
        out
    }
}

/// The status text of a boss at a given instant (epoch seconds): ready, or
/// the time left until activation.
pub open spec fn spec_boss_status(enable_time: i64, now: i64) -> Seq<char> {
    if enable_time <= now {
        "Ready to be attacked!"@
    } else {
        "Ready in: "@ + spec_duration_pretty((enable_time - now) as nat)
    }
}

impl WorldBoss {
    /// The status text of the boss at the given instant (epoch seconds).
    pub fn status_text(&self, now: i64) -> (r: String)
        ensures
            r@ == spec_boss_status(self.enable_time, now),
    {
        if self.enable_time <= now {
            String::from_str("Ready to be attacked!")
        } else {
            let left = ((self.enable_time as i128) - (now as i128)) as u64;
            let mut out = String::from_str("Ready in: ");
            out.append(duration_pretty(left).as_str());
            assert(out@ =~= spec_boss_status(self.enable_time, now));
            out
        }
    }

    /// The boss as an embed field: its name, its status at the given
    /// instant, and the inline flag.
    pub fn to_field(&self, now: i64) -> (r: (String, String, bool))
        ensures
            r.0@ == self.name@,
            r.1@ == spec_boss_status(self.enable_time, now),
            r.2 == true,
    {
        (self.name.clone(), self.status_text(now), true)
    }
}


impl WorldBoss {
    /// The record as JSON text, for logging and diagnostics.
    pub fn to_json_string(&self) -> (r: String)
        ensures
            r@ == crate::json_print::spec_print(spec_encode_world_boss(self@)),
    {
        crate::json_print::json_to_string(&self.to_json())
    }
}

impl WorldBosses {
    /// The list as JSON text, for logging and diagnostics.
    pub fn to_json_string(&self) -> (r: String)
        ensures
            r@ == crate::json_print::spec_print(
                SpecJson::Arr(Seq::new(self@.len(), |i: int| spec_encode_world_boss(self@[i]))),
            ),
    {
        crate::json_print::json_to_string(&self.to_json())
    }
}

} // verus!
