//! The orphanage resource: donation totals and the ordered list of recent
//! donators, whose timestamps travel as RFC 3339 text.

use vstd::prelude::*;

use crate::datetime::{
    format_rfc3339, lemma_rfc3339_round_trip, parse_rfc3339, spec_format_rfc3339,
    spec_parse_rfc3339, UtcDateTime,
};
use crate::json::{spec_get, spec_view_arr, JsonValue, SpecJson};
use crate::models::{
    get_string, get_u32, get_u64, spec_get_str, spec_get_u32, spec_get_u64, FieldError, SmmoModel,
};
use crate::models::smmo_player::UserId;

verus! {

/// The mathematical view of a [`RecentDonator`].
#[verifier::ext_equal]
pub struct RecentDonatorView {
    pub user_id: UserId,
    pub amount: u64,
    pub created_at: UtcDateTime,
}

/// One recent donation: who, how much, and when.
#[derive(Debug, Clone)]
pub struct RecentDonator {
    pub user_id: UserId,
    pub amount: u64,
    pub created_at: UtcDateTime,
}

impl View for RecentDonator {
    type V = RecentDonatorView;

    open spec fn view(&self) -> RecentDonatorView {
        RecentDonatorView { user_id: self.user_id, amount: self.amount, created_at: self.created_at }
    }
}

/// What a donator entry decodes to, if anything: the timestamp must be a
/// well-formed RFC 3339 string.
pub open spec fn spec_decode_donator(j: SpecJson) -> Option<RecentDonatorView> {
    if ({
        &&& spec_get_u32(j, "user_id"@) is Some
        &&& spec_get_u64(j, "amount"@) is Some
        &&& match spec_get_str(j, "created_at"@) {
            Some(s) => spec_parse_rfc3339(s) is Some,
            None => false,
        }
    }) {
        Some(
            RecentDonatorView {
                user_id: UserId(spec_get_u32(j, "user_id"@)->0),
                amount: spec_get_u64(j, "amount"@)->0,
                created_at: spec_parse_rfc3339(spec_get_str(j, "created_at"@)->0)->0,
            },
        )
    } else {
        None
    }
}

/// The JSON document that re-encoding a donator entry produces.
pub open spec fn spec_encode_donator(dv: RecentDonatorView) -> SpecJson {
    SpecJson::Obj(
        seq![
            ("user_id"@, SpecJson::Int(dv.user_id.0 as int)),
            ("amount"@, SpecJson::Int(dv.amount as int)),
            ("created_at"@, SpecJson::Str(spec_format_rfc3339(dv.created_at))),
        ],
    )
}

impl RecentDonator {
    /// Decodes a donator entry from a parsed JSON document.
    pub fn decode_json(v: &JsonValue) -> (r: Result<RecentDonator, FieldError>)
        ensures
            match r {
                Ok(d) => spec_decode_donator(v@) == Some(d@),
                Err(e) => spec_decode_donator(v@) is None,
            },
    {
        let user_id = match get_u32(v, "user_id") {
            Ok(n) => n,
            Err(e) => {
                return Err(e);
            },
        };
        let amount = match get_u64(v, "amount") {
            Ok(n) => n,
            Err(e) => {
                return Err(e);
            },
        };
        let created_str = match get_string(v, "created_at") {
            Ok(s) => s,
            Err(e) => {
                return Err(e);
            },
        };
        let created_at = match parse_rfc3339(created_str.as_str()) {
            Some(dt) => dt,
            None => {
                return Err(FieldError::Invalid { field: "created_at" });
            },
        };
        Ok(RecentDonator { user_id: UserId(user_id), amount, created_at })
    }

    /// Re-encodes the donator entry as a JSON document.
    pub fn to_json(&self) -> (r: JsonValue)
        ensures
            r@ == spec_encode_donator(self@),
    {
        let mut members: Vec<(String, JsonValue)> = Vec::new();
        members.push((String::from_str("user_id"), JsonValue::Int(self.user_id.inner() as i128)));
        members.push((String::from_str("amount"), JsonValue::Int(self.amount as i128)));
        members.push((String::from_str("created_at"), JsonValue::Str(format_rfc3339(&self.created_at))));
        proof {
            crate::json::lemma_view_obj(members, members@.len() as int);
        }
        let ghost target = spec_encode_donator(self@);
        let r = JsonValue::Obj(members);
        proof {
            assert(crate::json::spec_view_obj(members, 3) =~~= target->Obj_0);
            assert(r@ =~~= target);
        }
        r
    }
}

/// Re-encoding and then decoding a donator entry yields the entry back,
/// provided its timestamp names a real instant.
pub proof fn lemma_donator_round_trip(dv: RecentDonatorView)
    requires
        dv.created_at.wf(),
    ensures
        spec_decode_donator(spec_encode_donator(dv)) == Some(dv),
{
    reveal_strlit("user_id");
    reveal_strlit("amount");
    reveal_strlit("created_at");
    assert(("user_id"@) =~= seq!['u', 's', 'e', 'r', '_', 'i', 'd']);
    assert(("amount"@) =~= seq!['a', 'm', 'o', 'u', 'n', 't']);
    assert(("created_at"@) =~= seq!['c', 'r', 'e', 'a', 't', 'e', 'd', '_', 'a', 't']);
    let j = spec_encode_donator(dv);
    reveal_with_fuel(crate::json::spec_obj_get, 4);
    assert(spec_get_u32(j, "user_id"@) == Some(dv.user_id.0));
    assert(spec_get_u64(j, "amount"@) == Some(dv.amount));
    assert(spec_get_str(j, "created_at"@) == Some(spec_format_rfc3339(dv.created_at)));
    lemma_rfc3339_round_trip(dv.created_at);
    assert(spec_decode_donator(j) is Some);
    assert(spec_decode_donator(j)->0 =~= dv);
}

/// The mathematical view of an [`Orphanage`].
#[verifier::ext_equal]
pub struct OrphanageView {
    pub current_amount: u64,
    pub max_amount: u64,
    pub recent_donators: Seq<RecentDonatorView>,
}

/// The orphanage: donation totals and the recent donators, in order.
#[derive(Debug, Clone)]
pub struct Orphanage {
    pub current_amount: u64,
    pub max_amount: u64,
    pub recent_donators: Vec<RecentDonator>,
}

impl View for Orphanage {
    type V = OrphanageView;

    open spec fn view(&self) -> OrphanageView {
        OrphanageView {
            current_amount: self.current_amount,
            max_amount: self.max_amount,
            recent_donators: Seq::new(
                self.recent_donators@.len(),
                |i: int| self.recent_donators@[i]@,
            ),
        }
    }
}

/// What the donator list decodes to: every element an entry, in order.
pub open spec fn spec_decode_donators(j: SpecJson) -> Option<Seq<RecentDonatorView>> {
    match j {
        SpecJson::Arr(elems) => if forall|i: int|
            0 <= i < elems.len() ==> #[trigger] spec_decode_donator(elems[i]) is Some {
            Some(Seq::new(elems.len(), |i: int| spec_decode_donator(elems[i])->0))
        } else {
            None
        },
        _ => None,
    }
}

/// What an `Orphanage` decodes to from a JSON document, if anything.
pub open spec fn spec_decode_orphanage(j: SpecJson) -> Option<OrphanageView> {
    if ({
        &&& spec_get_u64(j, "current_amount"@) is Some
        &&& spec_get_u64(j, "max_amount"@) is Some
        &&& match spec_get(j, "recent_donators"@) {
            Some(d) => spec_decode_donators(d) is Some,
            None => false,
        }
    }) {
        Some(
            OrphanageView {
                current_amount: spec_get_u64(j, "current_amount"@)->0,
                max_amount: spec_get_u64(j, "max_amount"@)->0,
                recent_donators: spec_decode_donators(spec_get(j, "recent_donators"@)->0)->0,
            },
        )
    } else {
        None
    }
}

/// The JSON document that re-encoding an orphanage produces.
pub open spec fn spec_encode_orphanage(ov: OrphanageView) -> SpecJson {
    SpecJson::Obj(
        seq![
            ("current_amount"@, SpecJson::Int(ov.current_amount as int)),
            ("max_amount"@, SpecJson::Int(ov.max_amount as int)),
            (
                "recent_donators"@,
                SpecJson::Arr(
                    Seq::new(ov.recent_donators.len(), |i: int| spec_encode_donator(ov.recent_donators[i])),
                ),
            ),
        ],
    )
}

/// Decodes the donator list.
fn decode_donators(v: &JsonValue) -> (r: Result<Vec<RecentDonator>, FieldError>)
    ensures
        match r {
            Ok(ds) => spec_decode_donators(v@) == Some(
                Seq::new(ds@.len(), |i: int| ds@[i]@),
            ),
            Err(e) => spec_decode_donators(v@) is None,
        },
{
    match v {
        JsonValue::Arr(elems) => {
            let ghost ev = spec_view_arr(*elems, elems@.len() as int);
            proof {
                crate::json::lemma_view_arr(*elems, elems@.len() as int);
            }
            let n = elems.len();
            let mut out: Vec<RecentDonator> = Vec::new();
            let mut i: usize = 0;
            while i < n
                invariant
                    *v == JsonValue::Arr(*elems),
                    v@ == SpecJson::Arr(ev),
                    n == elems@.len(),
                    i <= n,
                    ev == spec_view_arr(*elems, elems@.len() as int),
                    ev.len() == n,
                    forall|k: int| 0 <= k < n ==> ev[k] == elems@[k].spec_view(),
                    out@.len() == i,
                    forall|k: int| 0 <= k < i ==> #[trigger] spec_decode_donator(ev[k]) is Some,
                    forall|k: int| 0 <= k < i ==> out@[k]@ == spec_decode_donator(ev[k])->0,
                decreases n - i,
            {
                match RecentDonator::decode_json(&elems[i]) {
                    Ok(d) => {
                        out.push(d);
                    },
                    Err(e) => {
                        proof {
                            assert(spec_decode_donator(ev[i as int]) is None);
                        }
                        return Err(e);
                    },
                }
                i += 1;
            }
            proof {
                assert(spec_decode_donators(v@) is Some);
                assert(spec_decode_donators(v@)->0 =~= Seq::new(
                    out@.len(),
                    |k: int| out@[k]@,
                ));
            }
            Ok(out)
        },
        _ => Err(FieldError::NotAnObject),
    }
}

impl Orphanage {
    /// Decodes an `Orphanage` from a parsed JSON document: exactly the
    /// records of [`spec_decode_orphanage`].
    pub fn decode_json(v: &JsonValue) -> (r: Result<Orphanage, FieldError>)
        ensures
            match r {
                Ok(o) => spec_decode_orphanage(v@) == Some(o@),
                Err(e) => spec_decode_orphanage(v@) is None,
            },
    {
        let current_amount = match get_u64(v, "current_amount") {
            Ok(n) => n,
            Err(e) => {
                return Err(e);
            },
        };
        let max_amount = match get_u64(v, "max_amount") {
            Ok(n) => n,
            Err(e) => {
                return Err(e);
            },
        };
        let recent_donators = match v.get("recent_donators") {
            Some(f) => match decode_donators(f) {
                Ok(ds) => ds,
                Err(e) => {
                    return Err(e);
                },
            },
            None => {
                return Err(FieldError::Missing { field: "recent_donators" });
            },
        };
        let o = Orphanage { current_amount, max_amount, recent_donators };
        proof {
            assert(spec_decode_orphanage(v@) is Some);
            assert(o@ =~~= spec_decode_orphanage(v@)->0);
        }
        Ok(o)
    }

    /// Re-encodes the orphanage as a JSON document: exactly
    /// [`spec_encode_orphanage`] of its view.
    pub fn to_json(&self) -> (r: JsonValue)
        ensures
            r@ == spec_encode_orphanage(self@),
    {
        let n = self.recent_donators.len();
        let mut elems: Vec<JsonValue> = Vec::new();
        let mut i: usize = 0;
        while i < n
            invariant
                n == self.recent_donators@.len(),
                i <= n,
                elems@.len() == i,
                forall|k: int|
                    0 <= k < i ==> elems@[k]@ == spec_encode_donator(self.recent_donators@[k]@),
            decreases n - i,
        {
            elems.push(self.recent_donators[i].to_json());
            i += 1;
        }
        proof {
            crate::json::lemma_view_arr(elems, elems@.len() as int);
        }
        let donators = JsonValue::Arr(elems);
        proof {
            let ev = spec_view_arr(elems, elems@.len() as int);
            let target = Seq::new(
                self@.recent_donators.len(),
                |k: int| spec_encode_donator(self@.recent_donators[k]),
            );
            assert forall|k: int| 0 <= k < ev.len() implies ev[k] == target[k] by {
                assert(ev[k] == elems@[k]@);
                assert(elems@[k]@ == spec_encode_donator(self.recent_donators@[k]@));
                assert(self@.recent_donators[k] == self.recent_donators@[k]@);
            }
            assert(ev =~~= target);
            assert(donators@ =~~= SpecJson::Arr(target));
        }
        let mut members: Vec<(String, JsonValue)> = Vec::new();
        members.push(
            (String::from_str("current_amount"), JsonValue::Int(self.current_amount as i128)),
        );
        members.push((String::from_str("max_amount"), JsonValue::Int(self.max_amount as i128)));
        members.push((String::from_str("recent_donators"), donators));
        proof {
            crate::json::lemma_view_obj(members, members@.len() as int);
        }
        let ghost target = spec_encode_orphanage(self@);
        let r = JsonValue::Obj(members);
        proof {
            assert(crate::json::spec_view_obj(members, 3) =~~= target->Obj_0);
            assert(r@ =~~= target);
        }
        r
    }
}

/// A fully-populated orphanage view on the round-trip path: every
/// timestamp names a real instant.
pub open spec fn spec_orphanage_wf(ov: OrphanageView) -> bool {
    forall|i: int|
        0 <= i < ov.recent_donators.len() ==> (#[trigger] ov.recent_donators[i]).created_at.wf()
}

/// Re-encoding and then decoding an orphanage yields the value back.
pub proof fn lemma_orphanage_round_trip(ov: OrphanageView)
    requires
        spec_orphanage_wf(ov),
    ensures
        spec_decode_orphanage(spec_encode_orphanage(ov)) == Some(ov),
{
    reveal_strlit("current_amount");
    reveal_strlit("max_amount");
    reveal_strlit("recent_donators");
    assert(("current_amount"@) =~= seq![
        'c', 'u', 'r', 'r', 'e', 'n', 't', '_', 'a', 'm', 'o', 'u', 'n', 't',
    ]);
    assert(("max_amount"@) =~= seq!['m', 'a', 'x', '_', 'a', 'm', 'o', 'u', 'n', 't']);
    assert(("recent_donators"@) =~= seq![
        'r', 'e', 'c', 'e', 'n', 't', '_', 'd', 'o', 'n', 'a', 't', 'o', 'r', 's',
    ]);
    let j = spec_encode_orphanage(ov);
    reveal_with_fuel(crate::json::spec_obj_get, 4);
    assert(spec_get_u64(j, "current_amount"@) == Some(ov.current_amount));
    assert(spec_get_u64(j, "max_amount"@) == Some(ov.max_amount));
    let elems = Seq::new(
        ov.recent_donators.len(),
        |i: int| spec_encode_donator(ov.recent_donators[i]),
    );
    assert(spec_get(j, "recent_donators"@) == Some(SpecJson::Arr(elems)));
    assert forall|i: int| 0 <= i < elems.len() implies #[trigger] spec_decode_donator(
        elems[i],
    ) is Some by {
        lemma_donator_round_trip(ov.recent_donators[i]);
    }
    assert forall|i: int| 0 <= i < elems.len() implies #[trigger] spec_decode_donator(
        elems[i],
    )->0 == ov.recent_donators[i] by {
        lemma_donator_round_trip(ov.recent_donators[i]);
    }
    assert(spec_decode_donators(SpecJson::Arr(elems))->0 =~= ov.recent_donators);
    assert(spec_decode_orphanage(j) is Some);
    assert(spec_decode_orphanage(j)->0 =~~= ov);
}

impl SmmoModel for Orphanage {
    open spec fn spec_type_label() -> Seq<char> {
        "Orphanage"@
    }

    open spec fn spec_from_json(j: SpecJson) -> Option<OrphanageView> {
        spec_decode_orphanage(j)
    }

    fn type_label() -> (s: &'static str) {
        "Orphanage"
    }

    fn from_json(v: &JsonValue) -> (r: Result<Orphanage, FieldError>) {
        Orphanage::decode_json(v)
    }
}


impl Orphanage {
    /// The record as JSON text, for logging and diagnostics.
    pub fn to_json_string(&self) -> (r: String)
        ensures
            r@ == crate::json_print::spec_print(spec_encode_orphanage(self@)),
    {
        crate::json_print::json_to_string(&self.to_json())
    }
}

} // verus!
