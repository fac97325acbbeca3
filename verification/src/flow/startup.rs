//! The order in which configurations come into force when the service starts.

use vstd::prelude::*;

use crate::flow::types::{FlowConfiguration, FlowConfigurationRule};

verus! {

pub open spec fn by_schedule(config: FlowConfiguration) -> bool {
    config.rule is Schedule
}

/// Configurations that are schedules come first, each group in its old order.
pub open spec fn startup_order(configs: Seq<FlowConfiguration>) -> Seq<FlowConfiguration> {
    configs.filter(|c: FlowConfiguration| by_schedule(c)) + configs.filter(
        |c: FlowConfiguration| !by_schedule(c),
    )
}

fn is_schedule(config: &FlowConfiguration) -> (r: bool)
    ensures
        r == by_schedule(*config),
{
    match &config.rule {
        FlowConfigurationRule::Schedule(_) => true,
        _ => false,
    }
}

/// The configurations that are schedules, or those that are not.
fn select(configs: &Vec<FlowConfiguration>, schedules: bool) -> (r: Vec<FlowConfiguration>)
    ensures
        r@ == configs@.filter(|c: FlowConfiguration| by_schedule(c) == schedules),
{
    let ghost wanted = |c: FlowConfiguration| by_schedule(c) == schedules;
    let mut selected: Vec<FlowConfiguration> = Vec::new();
    for i in 0..configs.len()
        invariant
            wanted == (|c: FlowConfiguration| by_schedule(c) == schedules),
            selected@ == configs@.take(i as int).filter(wanted),
    {
        proof {
            assert(configs@.take(i + 1).drop_last() == configs@.take(i as int));
            reveal(Seq::filter);
        }
        if is_schedule(&configs[i]) == schedules {
            selected.push(configs[i].clone());
        }
    }
    proof {
        assert(configs@.take(configs@.len() as int) == configs@);
    }
    selected
}

/// Orders enabled configurations for activation, ensuring schedule configs
/// precede non-schedule configs.
pub fn order_enabled_configurations(configs: &Vec<FlowConfiguration>) -> (r: Vec<FlowConfiguration>)
    ensures
        r@ == startup_order(configs@),
{
    let mut ordered = select(configs, true);
    let mut others = select(configs, false);
    proof {
        assert((|c: FlowConfiguration| by_schedule(c) == true) =~= (|c: FlowConfiguration|
            by_schedule(c)));
        assert((|c: FlowConfiguration| by_schedule(c) == false) =~= (|c: FlowConfiguration|
            !by_schedule(c)));
    }
    ordered.append(&mut others);
    ordered
}

/// Nothing is lost or added by the ordering, and no schedule comes after
/// anything else.
pub proof fn law_schedules_come_first(configs: Seq<FlowConfiguration>)
    ensures
        startup_order(configs).to_multiset() == configs.to_multiset(),
        forall|i: int, j: int|
            0 <= i < j < startup_order(configs).len() && by_schedule(
                #[trigger] startup_order(configs)[j],
            ) ==> by_schedule(#[trigger] startup_order(configs)[i]),
{
    let p = |c: FlowConfiguration| by_schedule(c);
    let q = |c: FlowConfiguration| !by_schedule(c);
    let a = configs.filter(p);
    let b = configs.filter(q);
    lemma_split_keeps_all(configs);
    vstd::seq_lib::lemma_multiset_commutative(a, b);
    assert forall|i: int| 0 <= i < a.len() implies by_schedule(#[trigger] a[i]) by {
        configs.lemma_filter_pred(p, i);
    }
    assert forall|i: int| 0 <= i < b.len() implies !by_schedule(#[trigger] b[i]) by {
        configs.lemma_filter_pred(q, i);
    }
    assert forall|i: int, j: int|
        0 <= i < j < startup_order(configs).len() && by_schedule(
            #[trigger] startup_order(configs)[j],
        ) implies by_schedule(#[trigger] startup_order(configs)[i]) by {
        if j >= a.len() {
            assert(startup_order(configs)[j] == b[j - a.len()]);
        } else {
            assert(startup_order(configs)[i] == a[i]);
        }
    }
}

proof fn lemma_split_keeps_all(configs: Seq<FlowConfiguration>)
    ensures
        configs.filter(|c: FlowConfiguration| by_schedule(c)).to_multiset().add(
            configs.filter(|c: FlowConfiguration| !by_schedule(c)).to_multiset(),
        ) == configs.to_multiset(),
    decreases configs.len(),
{
    let p = |c: FlowConfiguration| by_schedule(c);
    let q = |c: FlowConfiguration| !by_schedule(c);
    reveal(Seq::filter);
    broadcast use vstd::seq_lib::group_to_multiset_ensures;

    if configs.len() > 0 {
        let rest = configs.drop_last();
        lemma_split_keeps_all(rest);
        assert(configs == rest.push(configs.last()));
    } else {
        assert(configs.filter(p) == Seq::<FlowConfiguration>::empty());
        assert(configs.filter(q) == Seq::<FlowConfiguration>::empty());
        assert(configs == Seq::<FlowConfiguration>::empty());
    }
}

/// Rules that are a schedule come before all other rules, ingest rules included. Within each
/// of the two groups the order is kept.
pub proof fn law_order_is_kept_within_a_group(
    configs: Seq<FlowConfiguration>,
    config: FlowConfiguration,
    i: int,
    j: int,
)
    ensures
        ({
            let ordered = startup_order(configs);
            let scheduled = |cs: Seq<FlowConfiguration>|
                cs.filter(|c: FlowConfiguration| c.rule is Schedule);
            let others = |cs: Seq<FlowConfiguration>|
                cs.filter(|c: FlowConfiguration| !(c.rule is Schedule));
            &&& ordered == scheduled(configs) + others(configs)
            &&& 0 <= i < j < ordered.len() && ordered[j].rule is Schedule
                ==> ordered[i].rule is Schedule
            &&& config.rule is Schedule ==> scheduled(configs.push(config)) == scheduled(
                configs,
            ).push(config) && others(configs.push(config)) == others(configs)
            &&& !(config.rule is Schedule) ==> others(configs.push(config)) == others(configs).push(
                config,
            ) && scheduled(configs.push(config)) == scheduled(configs)
        }),
{
    reveal(Seq::filter);
    assert(configs.push(config).drop_last() == configs);
    assert((|c: FlowConfiguration| c.rule is Schedule) =~= (|c: FlowConfiguration|
        by_schedule(c)));
    assert((|c: FlowConfiguration| !(c.rule is Schedule)) =~= (|c: FlowConfiguration|
        !by_schedule(c)));
    law_schedules_come_first(configs);
    let ordered = startup_order(configs);
    if 0 <= i < j < ordered.len() && ordered[j].rule is Schedule {
        assert(by_schedule(ordered[j]));
        assert(by_schedule(ordered[i]));
    }
}

} // verus!
