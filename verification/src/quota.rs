//! The quotas that the collectors of this device read, as they are sent and shown.

use crate::text;
use serde_json::Value;
use vstd::prelude::*;

verus! {

/// A JSON value of `serde_json`, carried through unread.
#[verifier::external_type_specification]
#[verifier::external_body]
pub struct ExValue(serde_json::Value);

/// The fields of a JSON object of `serde_json`.
#[verifier::external_type_specification]
#[verifier::external_body]
#[verifier::reject_recursive_types(K)]
#[verifier::reject_recursive_types(V)]
pub struct ExJsonMap<K, V>(serde_json::Map<K, V>);

/// What a JSON object's fields hold, by their names.
pub uninterp spec fn fields(m: serde_json::Map<String, Value>) -> Map<Seq<char>, Value>;

/// The JSON object with these fields.
pub uninterp spec fn object_of(fields: Map<Seq<char>, Value>) -> Value;

/// No fields at all.
pub open spec fn no_fields() -> Map<Seq<char>, Value> {
    Map::empty()
}

/// `serde_json::Value::clone` copies a JSON value.
pub assume_specification[ <serde_json::Value as Clone>::clone ](v: &serde_json::Value) -> (r:
    serde_json::Value)
    ensures
        r == *v,
;

/// `serde_json::Map::new` makes a map without fields.
#[verifier::external_body]
fn empty_object() -> (r: serde_json::Map<String, Value>)
    ensures
        fields(r) == no_fields(),
{
    serde_json::Map::new()
}

/// `serde_json::Map::insert` sets one field, in place of the one of that name where there is one.
#[verifier::external_body]
fn insert_field(m: &mut serde_json::Map<String, Value>, key: String, value: Value)
    ensures
        fields(*final(m)) == fields(*old(m)).insert(key@, value),
{
    m.insert(key, value);
}

/// `serde_json::Value::Object` makes the object with the fields of a map.
#[verifier::external_body]
fn object(m: serde_json::Map<String, Value>) -> (r: Value)
    ensures
        r == object_of(fields(m)),
{
    Value::Object(m)
}

/// What a collector read of a provider, each number and list as JSON.
pub struct QuotaSnapshot {
    pub quota: Value,
    pub remaining: Value,
    pub plan_type: Value,
    pub session_reset: Value,
    pub tiers: Value,
    pub status_text: Option<String>,
}

/// How one collector fared: a snapshot, nothing, or the words of its failure.
pub struct CollectorOutcome {
    pub provider: String,
    pub snapshot: Option<QuotaSnapshot>,
    pub error: Option<String>,
}

/// The fields under which a snapshot is sent.
pub open spec fn tier_fields(s: QuotaSnapshot) -> Map<Seq<char>, Value> {
    no_fields().insert("quota"@, s.quota).insert("remaining"@, s.remaining).insert(
        "plan_type"@,
        s.plan_type,
    ).insert("reset_time"@, s.session_reset).insert("tiers"@, s.tiers)
}

/// The snapshots that are sent, by their providers: of two under one name, the later.
pub open spec fn snapshots(outcomes: Seq<CollectorOutcome>) -> Map<Seq<char>, QuotaSnapshot>
    decreases outcomes.len(),
{
    if outcomes.len() == 0 {
        Map::empty()
    } else {
        let before = snapshots(outcomes.drop_last());
        match outcomes.last().snapshot {
            Some(s) => before.insert(outcomes.last().provider@, s),
            None => before,
        }
    }
}

/// The tiers that are sent, by provider.
pub open spec fn tiers_sent(outcomes: Seq<CollectorOutcome>) -> Map<Seq<char>, Value> {
    snapshots(outcomes).map_values(|s: QuotaSnapshot| object_of(tier_fields(s)))
}

/// What remains of the quotas, as it is sent, by provider.
pub open spec fn remaining_sent(outcomes: Seq<CollectorOutcome>) -> Map<Seq<char>, Value> {
    snapshots(outcomes).map_values(|s: QuotaSnapshot| s.remaining)
}

fn tier_object(s: &QuotaSnapshot) -> (r: Value)
    ensures
        r == object_of(tier_fields(*s)),
{
    let mut m = empty_object();
    insert_field(&mut m, text::owned("quota"), s.quota.clone());
    insert_field(&mut m, text::owned("remaining"), s.remaining.clone());
    insert_field(&mut m, text::owned("plan_type"), s.plan_type.clone());
    insert_field(&mut m, text::owned("reset_time"), s.session_reset.clone());
    insert_field(&mut m, text::owned("tiers"), s.tiers.clone());
    object(m)
}

/// The two objects that are sent, what remains and the tiers, with one field for every provider
/// that has a snapshot.
pub fn provider_payloads(outcomes: &Vec<CollectorOutcome>) -> (r: (Value, Value))
    ensures
        r.0 == object_of(remaining_sent(outcomes@)),
        r.1 == object_of(tiers_sent(outcomes@)),
{
    let mut tiers = empty_object();
    let mut remaining = empty_object();
    let mut i: usize = 0;
    assert(outcomes@.take(0) =~= Seq::empty());
    assert(fields(tiers) =~= tiers_sent(outcomes@.take(0)));
    assert(fields(remaining) =~= remaining_sent(outcomes@.take(0)));
    while i < outcomes.len()
        invariant
            i <= outcomes@.len(),
            fields(tiers) == tiers_sent(outcomes@.take(i as int)),
            fields(remaining) == remaining_sent(outcomes@.take(i as int)),
        decreases outcomes@.len() - i,
    {
        let o = &outcomes[i];
        assert(outcomes@.take(i + 1).drop_last() =~= outcomes@.take(i as int));
        if let Some(s) = &o.snapshot {
            insert_field(&mut tiers, o.provider.clone(), tier_object(s));
            insert_field(&mut remaining, o.provider.clone(), s.remaining.clone());
        }
        assert(fields(tiers) =~= tiers_sent(outcomes@.take(i + 1)));
        assert(fields(remaining) =~= remaining_sent(outcomes@.take(i + 1)));
        i = i + 1;
    }
    assert(outcomes@.take(i as int) =~= outcomes@);
    (object(remaining), object(tiers))
}

/// How one collector fared, as the provider's card shows it.
pub struct CollectorStatusView {
    pub provider: String,
    pub ok: bool,
    pub error: Option<String>,
    pub status_text: Option<String>,
}

/// The card shows this outcome.
pub open spec fn card_shows(v: CollectorStatusView, o: CollectorOutcome) -> bool {
    &&& v.provider == o.provider
    &&& v.ok == o.snapshot is Some
    &&& v.error == o.error
    &&& v.status_text == match o.snapshot {
        Some(s) => s.status_text,
        None => None,
    }
}

/// The last outcomes as the providers' cards show them, one for each and in their order.
pub fn get_last_collector_status(outcomes: &Vec<CollectorOutcome>) -> (r: Vec<CollectorStatusView>)
    ensures
        r@.len() == outcomes@.len(),
        forall|i: int| 0 <= i < r@.len() ==> card_shows(#[trigger] r@[i], outcomes@[i]),
{
    let mut r: Vec<CollectorStatusView> = Vec::new();
    let mut i: usize = 0;
    while i < outcomes.len()
        invariant
            i == r@.len() <= outcomes@.len(),
            forall|k: int| 0 <= k < r@.len() ==> card_shows(#[trigger] r@[k], outcomes@[k]),
        decreases outcomes@.len() - i,
    {
        let o = &outcomes[i];
        r.push(
            CollectorStatusView {
                provider: o.provider.clone(),
                ok: o.snapshot.is_some(),
                error: text::copy_opt(&o.error),
                status_text: match &o.snapshot {
                    Some(s) => text::copy_opt(&s.status_text),
                    None => None,
                },
            },
        );
        i = i + 1;
    }
    r
}

/// The two objects that are sent have the same fields: the providers that have a snapshot.
pub proof fn lemma_payloads_agree(outcomes: Seq<CollectorOutcome>, provider: Seq<char>)
    ensures
        tiers_sent(outcomes).dom() == remaining_sent(outcomes).dom(),
        tiers_sent(outcomes).dom().contains(provider) <==> exists|i: int|
            0 <= i < outcomes.len() && #[trigger] outcomes[i].provider@ == provider
                && outcomes[i].snapshot is Some,
    decreases outcomes.len(),
{
    assert(tiers_sent(outcomes).dom() =~= remaining_sent(outcomes).dom());
    if outcomes.len() > 0 {
        let rest = outcomes.drop_last();
        lemma_payloads_agree(rest, provider);
        let n = outcomes.len() - 1;
        assert(outcomes[n].provider == outcomes.last().provider);
        if snapshots(outcomes).dom().contains(provider) && !(outcomes.last().provider@ == provider
            && outcomes.last().snapshot is Some) {
            assert(tiers_sent(rest).dom().contains(provider));
            let i = choose|i: int|
                0 <= i < rest.len() && #[trigger] rest[i].provider@ == provider
                    && rest[i].snapshot is Some;
            assert(outcomes[i].provider@ == provider && outcomes[i].snapshot is Some);
        }
        if exists|i: int|
            0 <= i < outcomes.len() && #[trigger] outcomes[i].provider@ == provider
                && outcomes[i].snapshot is Some {
            let i = choose|i: int|
                0 <= i < outcomes.len() && #[trigger] outcomes[i].provider@ == provider
                    && outcomes[i].snapshot is Some;
            if i < n {
                assert(rest[i].provider@ == provider && rest[i].snapshot is Some);
                assert(tiers_sent(rest).dom().contains(provider));
            }
        }
    }
}

/// A provider whose snapshot stands in no other outcome is sent with that snapshot's fields.
pub proof fn lemma_snapshot_is_sent(outcomes: Seq<CollectorOutcome>, i: int)
    requires
        0 <= i < outcomes.len(),
        outcomes[i].snapshot is Some,
        forall|j: int|
            0 <= j < outcomes.len() && j != i ==> #[trigger] outcomes[j].provider@
                != outcomes[i].provider@,
    ensures
        tiers_sent(outcomes).dom().contains(outcomes[i].provider@),
        tiers_sent(outcomes)[outcomes[i].provider@] == object_of(
            tier_fields(outcomes[i].snapshot->0),
        ),
        remaining_sent(outcomes)[outcomes[i].provider@] == outcomes[i].snapshot->0.remaining,
    decreases outcomes.len(),
{
    let rest = outcomes.drop_last();
    if i < rest.len() {
        assert(forall|j: int| 0 <= j < rest.len() ==> #[trigger] rest[j] == outcomes[j]);
        lemma_snapshot_is_sent(rest, i);
        assert(outcomes[outcomes.len() - 1].provider@ != outcomes[i].provider@);
    }
}

/// A snapshot is sent under five names, each with its own value, and under no other.
pub proof fn lemma_snapshot_goes_under_its_names(s: QuotaSnapshot, name: Seq<char>)
    ensures
        tier_fields(s)["quota"@] == s.quota,
        tier_fields(s)["remaining"@] == s.remaining,
        tier_fields(s)["plan_type"@] == s.plan_type,
        tier_fields(s)["reset_time"@] == s.session_reset,
        tier_fields(s)["tiers"@] == s.tiers,
        tier_fields(s).dom().contains(name) <==> name == "quota"@ || name == "remaining"@ || name
            == "plan_type"@ || name == "reset_time"@ || name == "tiers"@,
{
    reveal_strlit("quota");
    reveal_strlit("remaining");
    reveal_strlit("plan_type");
    reveal_strlit("reset_time");
    reveal_strlit("tiers");
    assert("quota"@.len() == 5 && "remaining"@.len() == 9 && "plan_type"@.len() == 9);
    assert("reset_time"@.len() == 10 && "tiers"@.len() == 5);
    assert("quota"@[0] != "tiers"@[0]);
    assert("remaining"@[0] != "plan_type"@[0]);
}

/// Of two snapshots of one provider the later is sent: what is sent for a provider is the snapshot of
/// the last outcome that has one for it.
pub proof fn lemma_last_snapshot_is_sent(outcomes: Seq<CollectorOutcome>, i: int)
    requires
        0 <= i < outcomes.len(),
        outcomes[i].snapshot is Some,
        forall|j: int|
            i < j < outcomes.len() ==> (#[trigger] outcomes[j]).provider@ != outcomes[i].provider@
                || outcomes[j].snapshot is None,
    ensures
        remaining_sent(outcomes).dom().contains(outcomes[i].provider@),
        remaining_sent(outcomes)[outcomes[i].provider@] == outcomes[i].snapshot->0.remaining,
        tiers_sent(outcomes).dom().contains(outcomes[i].provider@),
        tiers_sent(outcomes)[outcomes[i].provider@] == object_of(
            tier_fields(outcomes[i].snapshot->0),
        ),
    decreases outcomes.len(),
{
    let rest = outcomes.drop_last();
    if i < rest.len() {
        assert(forall|j: int| 0 <= j < rest.len() ==> #[trigger] rest[j] == outcomes[j]);
        lemma_last_snapshot_is_sent(rest, i);
        let last = outcomes[outcomes.len() - 1];
        assert(last == outcomes.last());
        assert(last.provider@ != outcomes[i].provider@ || last.snapshot is None);
    }
}

/// A provider's card shows that provider's outcome: fine where there is a snapshot, with its words
/// and those of a failure as they are.
pub proof fn lemma_card_shows_the_outcome(v: CollectorStatusView, o: CollectorOutcome)
    requires
        card_shows(v, o),
    ensures
        v.provider == o.provider,
        v.ok <==> o.snapshot is Some,
        v.error == o.error,
        o.snapshot matches Some(s) ==> v.status_text == s.status_text,
        o.snapshot is None ==> v.status_text is None,
{
}

} // verus!
