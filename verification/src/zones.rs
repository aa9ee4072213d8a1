//! Reading a policy card: which zones admit which risk levels, and the risk
//! levels that the card names.

use vstd::prelude::*;
use crate::cards::{ZoneRiskMapping, ZoneRiskMappingView};
use crate::json::Json;
use crate::ordered_map::{first_position, lemma_first_position};
use crate::text::str_eq;

verus! {

/// Whether `a` comes before `b`: strings are ordered by their characters'
/// positions in the code charts, the first difference deciding, and a proper
/// prefix comes first.
pub open spec fn text_less(a: Seq<char>, b: Seq<char>) -> bool
    decreases a.len(),
{
    if b.len() == 0 {
        false
    } else if a.len() == 0 {
        true
    } else if a[0] != b[0] {
        a[0] < b[0]
    } else {
        text_less(a.drop_first(), b.drop_first())
    }
}

/// `str::lt`, the order of string slices: by the positions of their
/// characters in the code charts, lexicographically.
#[verifier::external_body]
fn str_less(a: &str, b: &str) -> (less: bool)
    ensures
        less == text_less(a@, b@),
{
    a < b
}

/// Of two different texts, one comes before the other.
pub proof fn lemma_less_total(a: Seq<char>, b: Seq<char>)
    ensures
        text_less(a, b) || text_less(b, a) || a == b,
    decreases a.len(),
{
    if a.len() == 0 || b.len() == 0 {
        if a.len() == 0 && b.len() == 0 {
            assert(a =~= b);
        }
    } else if a[0] == b[0] {
        lemma_less_total(a.drop_first(), b.drop_first());
        assert(text_less(a, b) == text_less(a.drop_first(), b.drop_first()));
        assert(text_less(b, a) == text_less(b.drop_first(), a.drop_first()));
        if a.drop_first() == b.drop_first() {
            assert(a =~= seq![a[0]] + a.drop_first());
            assert(b =~= seq![b[0]] + b.drop_first());
        }
    } else {
        assert(text_less(a, b) == (a[0] < b[0]));
        assert(text_less(b, a) == (b[0] < a[0]));
    }
}

/// What comes before something that comes before a third comes before the third.
pub proof fn lemma_less_transitive(a: Seq<char>, b: Seq<char>, c: Seq<char>)
    requires
        text_less(a, b),
        text_less(b, c),
    ensures
        text_less(a, c),
    decreases a.len(),
{
    if a.len() > 0 && a[0] == b[0] && b[0] == c[0] {
        lemma_less_transitive(a.drop_first(), b.drop_first(), c.drop_first());
    }
}

/// Whether every text comes before the next.
pub open spec fn ascending(texts: Seq<Seq<char>>) -> bool {
    forall|i: int, j: int| 0 <= i < j < texts.len() ==> text_less(texts[i], texts[j])
}

/// Puts a text into an ascending list, unless the list holds it already.
fn insert_sorted(list: &mut Vec<String>, text: String)
    requires
        ascending(old(list).deep_view()),
    ensures
        ascending(final(list).deep_view()),
        final(list).deep_view().to_set() == old(list).deep_view().to_set().insert(text@),
{
    let ghost before = list.deep_view();
    let mut i: usize = 0;
    while i < list.len() && str_less(list[i].as_str(), text.as_str())
        invariant
            i <= list@.len(),
            list.deep_view() == before,
            forall|j: int| 0 <= j < i ==> text_less(before[j], text@),
        decreases list@.len() - i,
    {
        assert(before[i as int] == list@[i as int]@);
        i += 1;
    }
    if i < list.len() {
        assert(before[i as int] == list@[i as int]@);
        if str_eq(list[i].as_str(), text.as_str()) {
            assert(before.to_set().insert(text@) =~= before.to_set()) by {
                assert(before.to_set().contains(before[i as int]));
            }
            return;
        }
        proof {
            lemma_less_total(before[i as int], text@);
        }
    }
    list.insert(i, text);
    proof {
        let after = list.deep_view();
        assert(after =~= before.insert(i as int, text@));
        assert forall|a: int, b: int| 0 <= a < b < after.len() implies text_less(
            after[a],
            after[b],
        ) by {
            if b == i {
                assert(after[a] == before[a]);
            } else if a == i {
                assert(after[b] == before[b - 1]);
                if b - 1 > i {
                    lemma_less_transitive(text@, before[i as int], before[b - 1]);
                }
            } else {
                let x = if a < i {
                    a
                } else {
                    a - 1
                };
                let y = if b < i {
                    b
                } else {
                    b - 1
                };
                assert(after[a] == before[x] && after[b] == before[y]);
            }
        }
        assert(after.to_set() =~= before.to_set().insert(text@)) by {
            assert forall|t: Seq<char>| after.to_set().contains(t) implies before.to_set().insert(
                text@,
            ).contains(t) by {
                let k = choose|k: int| 0 <= k < after.len() && after[k] == t;
                if k < i {
                    assert(before[k] == t);
                } else if k > i {
                    assert(before[k - 1] == t);
                }
            }
            assert forall|t: Seq<char>| before.to_set().insert(text@).contains(
                t,
            ) implies after.to_set().contains(t) by {
                if t == text@ {
                    assert(after[i as int] == t);
                } else {
                    let k = choose|k: int| 0 <= k < before.len() && before[k] == t;
                    if k < i {
                        assert(after[k] == t);
                    } else {
                        assert(after[k + 1] == t);
                    }
                }
            }
        }
    }
}

/// The member of `members` under `key`: the first of that name.
pub open spec fn member_in(members: Seq<(String, Json)>, key: Seq<char>) -> Option<Json>
    decreases members.len(),
{
    if members.len() == 0 {
        None
    } else if members[0].0@ == key {
        Some(members[0].1)
    } else {
        member_in(members.subrange(1, members.len() as int), key)
    }
}

/// The member of an object under `key`; any other value has no members.
pub open spec fn member_of(value: Json, key: Seq<char>) -> Option<Json> {
    match value {
        Json::Object(members) => member_in(members@, key),
        _ => None,
    }
}

/// The text under `key` in an object, where there is one.
pub open spec fn text_at(value: Json, key: Seq<char>) -> Option<Seq<char>> {
    match member_of(value, key) {
        Some(Json::Text(text)) => Some(text@),
        _ => None,
    }
}

/// The items under `key` in an object, where an array stands there.
pub open spec fn items_at(value: Json, key: Seq<char>) -> Seq<Json> {
    match member_of(value, key) {
        Some(Json::Array(items)) => items@,
        _ => Seq::empty(),
    }
}

/// Finds the member of an object under a key.
#[verifier::loop_isolation(false)]
pub fn member<'a>(value: &'a Json, key: &str) -> (found: Option<&'a Json>)
    ensures
        match found {
            Some(inner) => member_of(*value, key@) == Some(*inner),
            None => member_of(*value, key@) is None,
        },
{
    let members = match value {
        Json::Object(members) => members,
        _ => {
            return None;
        },
    };
    let mut i: usize = 0;
    assert(members@.subrange(0, members@.len() as int) =~= members@);
    while i < members.len()
        invariant
            i <= members@.len(),
            member_in(members@, key@) == member_in(
                members@.subrange(i as int, members@.len() as int),
                key@,
            ),
        decreases members@.len() - i,
    {
        let ghost rest = members@.subrange(i as int, members@.len() as int);
        assert(rest[0] == members@[i as int]);
        assert(rest.subrange(1, rest.len() as int) =~= members@.subrange(
            i + 1,
            members@.len() as int,
        ));
        if str_eq(members[i].0.as_str(), key) {
            return Some(&members[i].1);
        }
        i += 1;
    }
    None
}

fn text_member<'a>(value: &'a Json, key: &str) -> (found: Option<&'a String>)
    ensures
        match found {
            Some(text) => text_at(*value, key@) == Some(text@),
            None => text_at(*value, key@) is None,
        },
{
    match member(value, key) {
        Some(Json::Text(text)) => Some(text),
        _ => None,
    }
}

/// The risk level that a permission grants: its target, or `unknown`.
pub open spec fn risk_of(permission: Json) -> Seq<char> {
    match text_at(permission, "target"@) {
        Some(risk) => risk,
        None => "unknown"@,
    }
}

/// The texts among the first `n` items, in order.
pub open spec fn texts_in(items: Seq<Json>, n: nat) -> Seq<Seq<char>>
    decreases n,
{
    if n == 0 || n > items.len() {
        Seq::empty()
    } else {
        match items[n - 1] {
            Json::Text(text) => texts_in(items, (n - 1) as nat).push(text@),
            _ => texts_in(items, (n - 1) as nat),
        }
    }
}

/// The zones that a constraint names: those under `rightOperand`, one or a
/// list, where the constraint is about the zone.
pub open spec fn zones_of(constraint: Json) -> Seq<Seq<char>> {
    if text_at(constraint, "leftOperand"@) != Some("zone"@) {
        Seq::empty()
    } else {
        match member_of(constraint, "rightOperand"@) {
            Some(Json::Array(items)) => texts_in(items@, items@.len()),
            Some(Json::Text(zone)) => seq![zone@],
            _ => Seq::empty(),
        }
    }
}

/// The zones of the mappings, in order.
pub open spec fn mapped_zones(mappings: Seq<ZoneRiskMappingView>) -> Seq<Seq<char>> {
    Seq::new(mappings.len(), |i: int| mappings[i].zone)
}

/// The mappings with a risk level granted to a zone: added to the zone's
/// levels where the zone is mapped, else with a new mapping at the end.
pub open spec fn granted(
    mappings: Seq<ZoneRiskMappingView>,
    zone: Seq<char>,
    risk: Seq<char>,
) -> Seq<ZoneRiskMappingView> {
    let at = first_position(mapped_zones(mappings), zone);
    if at >= 0 {
        mappings.update(
            at,
            ZoneRiskMappingView {
                zone: mappings[at].zone,
                allowed_risk_levels: mappings[at].allowed_risk_levels.push(risk),
            },
        )
    } else {
        mappings.push(ZoneRiskMappingView { zone, allowed_risk_levels: seq![risk] })
    }
}

/// The mappings with a risk level granted to the first `n` of some zones.
pub open spec fn granted_all(
    mappings: Seq<ZoneRiskMappingView>,
    zones: Seq<Seq<char>>,
    risk: Seq<char>,
    n: nat,
) -> Seq<ZoneRiskMappingView>
    decreases n,
{
    if n == 0 || n > zones.len() {
        mappings
    } else {
        granted(granted_all(mappings, zones, risk, (n - 1) as nat), zones[n - 1], risk)
    }
}

/// The mappings after the first `n` constraints of a permission.
pub open spec fn after_constraints(
    mappings: Seq<ZoneRiskMappingView>,
    constraints: Seq<Json>,
    risk: Seq<char>,
    n: nat,
) -> Seq<ZoneRiskMappingView>
    decreases n,
{
    if n == 0 || n > constraints.len() {
        mappings
    } else {
        let zones = zones_of(constraints[n - 1]);
        granted_all(
            after_constraints(mappings, constraints, risk, (n - 1) as nat),
            zones,
            risk,
            zones.len(),
        )
    }
}

/// The mappings after the first `n` permissions of a card.
pub open spec fn after_permissions(permissions: Seq<Json>, n: nat) -> Seq<ZoneRiskMappingView>
    decreases n,
{
    if n == 0 || n > permissions.len() {
        Seq::empty()
    } else {
        let constraints = items_at(permissions[n - 1], "constraint"@);
        after_constraints(
            after_permissions(permissions, (n - 1) as nat),
            constraints,
            risk_of(permissions[n - 1]),
            constraints.len(),
        )
    }
}

/// The risk levels that the first `n` permissions grant.
pub open spec fn risks_of(permissions: Seq<Json>, n: nat) -> Set<Seq<char>>
    decreases n,
{
    if n == 0 || n > permissions.len() {
        Set::empty()
    } else {
        risks_of(permissions, (n - 1) as nat).insert(risk_of(permissions[n - 1]))
    }
}

#[verifier::loop_isolation(false)]
fn grant(mappings: &mut Vec<ZoneRiskMapping>, zone: &str, risk: &str)
    ensures
        final(mappings).deep_view() == granted(old(mappings).deep_view(), zone@, risk@),
{
    let ghost before = mappings.deep_view();
    let ghost zones = mapped_zones(before);
    let mut i: usize = 0;
    while i < mappings.len()
        invariant
            i <= mappings@.len(),
            mappings.deep_view() == before,
            zones == mapped_zones(before),
            forall|j: int| 0 <= j < i ==> zones[j] != zone@,
        decreases mappings@.len() - i,
    {
        assert(before[i as int] == mappings@[i as int].deep_view());
        if str_eq(mappings[i].zone.as_str(), zone) {
            proof {
                assert(zones[i as int] == zone@);
                assert(crate::ordered_map::first_at(zones, zone@, i as int));
                lemma_first_position(zones, zone@);
            }
            let ghost levels = mappings@[i as int].allowed_risk_levels.deep_view();
            mappings[i].allowed_risk_levels.push(risk.to_string());
            assert(mappings@[i as int].allowed_risk_levels.deep_view() =~= levels.push(risk@));
            assert(mappings.deep_view() =~= granted(before, zone@, risk@));
            return;
        }
        i += 1;
    }
    proof {
        lemma_first_position(zones, zone@);
        if first_position(zones, zone@) >= 0 {
            assert(false);
        }
    }
    let mut levels: Vec<String> = Vec::new();
    levels.push(risk.to_string());
    assert(levels.deep_view() =~= seq![risk@]);
    mappings.push(ZoneRiskMapping { zone: zone.to_string(), allowed_risk_levels: levels });
    assert(mappings.deep_view() =~= granted(before, zone@, risk@));
}

#[verifier::loop_isolation(false)]
fn grant_constraint(mappings: &mut Vec<ZoneRiskMapping>, constraint: &Json, risk: &str)
    ensures
        final(mappings).deep_view() == granted_all(
            old(mappings).deep_view(),
            zones_of(*constraint),
            risk@,
            zones_of(*constraint).len(),
        ),
{
    let about_zone = match text_member(constraint, "leftOperand") {
        Some(text) => str_eq(text.as_str(), "zone"),
        None => false,
    };
    if !about_zone {
        return;
    }
    let ghost before = mappings.deep_view();
    match member(constraint, "rightOperand") {
        Some(Json::Array(items)) => {
            let mut i: usize = 0;
            while i < items.len()
                invariant
                    i <= items@.len(),
                    mappings.deep_view() == granted_all(
                        before,
                        texts_in(items@, i as nat),
                        risk@,
                        texts_in(items@, i as nat).len(),
                    ),
                decreases items@.len() - i,
            {
                let ghost so_far = texts_in(items@, i as nat);
                if let Json::Text(zone) = &items[i] {
                    grant(mappings, zone.as_str(), risk);
                    proof {
                        let next = texts_in(items@, (i + 1) as nat);
                        assert(next == so_far.push(zone@));
                        lemma_granted_all_prefix(before, next, so_far, risk@, so_far.len());
                    }
                }
                i += 1;
            }
        },
        Some(Json::Text(zone)) => {
            grant(mappings, zone.as_str(), risk);
            proof {
                reveal_with_fuel(granted_all, 2);
            }
        },
        _ => {},
    }
}

/// Granting to the first `n` zones reads no zone after them.
proof fn lemma_granted_all_prefix(
    mappings: Seq<ZoneRiskMappingView>,
    zones: Seq<Seq<char>>,
    prefix: Seq<Seq<char>>,
    risk: Seq<char>,
    n: nat,
)
    requires
        n <= prefix.len() <= zones.len(),
        forall|i: int| 0 <= i < prefix.len() ==> prefix[i] == zones[i],
    ensures
        granted_all(mappings, zones, risk, n) == granted_all(mappings, prefix, risk, n),
    decreases n,
{
    if n > 0 {
        lemma_granted_all_prefix(mappings, zones, prefix, risk, (n - 1) as nat);
    }
}

/// Reads a policy card: for every zone that a permission names, the risk
/// levels that are granted to it, zones in the order in which the card first
/// names them and levels in the order of the permissions; and every risk
/// level of the card, once each, in ascending order.
pub fn extract_zone_and_risk_level_mappings(card: &Json) -> (out: (
    Vec<ZoneRiskMapping>,
    Vec<String>,
))
    ensures
        out.0.deep_view() == after_permissions(
            items_at(*card, "permission"@),
            items_at(*card, "permission"@).len(),
        ),
        ascending(out.1.deep_view()),
        out.1.deep_view().to_set() == risks_of(
            items_at(*card, "permission"@),
            items_at(*card, "permission"@).len(),
        ),
{
    let mut mappings: Vec<ZoneRiskMapping> = Vec::new();
    let mut levels: Vec<String> = Vec::new();
    assert(mappings.deep_view() =~= Seq::empty());
    assert(levels.deep_view() =~= Seq::empty());
    assert(levels.deep_view().to_set() =~= Set::empty());
    let permissions = match member(card, "permission") {
        Some(Json::Array(permissions)) => permissions,
        _ => {
            return (mappings, levels);
        },
    };
    let mut i: usize = 0;
    while i < permissions.len()
        invariant
            i <= permissions@.len(),
            mappings.deep_view() == after_permissions(permissions@, i as nat),
            ascending(levels.deep_view()),
            levels.deep_view().to_set() == risks_of(permissions@, i as nat),
        decreases permissions@.len() - i,
    {
        let permission = &permissions[i];
        let risk: &str = match text_member(permission, "target") {
            Some(risk) => risk.as_str(),
            None => "unknown",
        };
        insert_sorted(&mut levels, risk.to_string());
        let ghost before = mappings.deep_view();
        if let Some(Json::Array(constraints)) = member(permission, "constraint") {
            let mut j: usize = 0;
            while j < constraints.len()
                invariant
                    j <= constraints@.len(),
                    mappings.deep_view() == after_constraints(
                        before,
                        constraints@,
                        risk@,
                        j as nat,
                    ),
                decreases constraints@.len() - j,
            {
                grant_constraint(&mut mappings, &constraints[j], risk);
                j += 1;
            }
        }
        i += 1;
    }
    (mappings, levels)
}

} // verus!
