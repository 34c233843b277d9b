//! What a list of instruments asks of the transport: no instrument twice, and one
//! endpoint for each connector.
use vstd::prelude::*;
use crate::depth::MarketDepth;
use crate::instrument::Instrument;

verus! {

/// The text of each string of `strings`.
pub open spec fn texts(strings: Seq<String>) -> Seq<Seq<char>> {
    Seq::new(strings.len(), |i: int| strings[i]@)
}

/// The connector name of each slot.
pub open spec fn connector_names<MD: MarketDepth>(slots: Seq<Instrument<MD>>) -> Seq<Seq<char>> {
    Seq::new(slots.len(), |i: int| slots[i]@.connector_name)
}

/// The symbol of each slot.
pub open spec fn symbols<MD: MarketDepth>(slots: Seq<Instrument<MD>>) -> Seq<Seq<char>> {
    Seq::new(slots.len(), |i: int| slots[i]@.symbol)
}

/// Slot `j` names the connector and symbol of a slot before it.
pub open spec fn repeats_at<MD: MarketDepth>(slots: Seq<Instrument<MD>>, j: int) -> bool {
    exists|i: int|
        0 <= i < j && (#[trigger] slots[i])@.connector_name == slots[j]@.connector_name
            && slots[i]@.symbol == slots[j]@.symbol
}

/// Some pair of connector and symbol occurs twice among the slots.
pub open spec fn has_repeat<MD: MarketDepth>(slots: Seq<Instrument<MD>>) -> bool {
    exists|j: int| 0 <= j < slots.len() && #[trigger] repeats_at(slots, j)
}

/// The number of the instrument that events for `symbol` go to: the last slot with
/// that symbol, if there is one.
pub open spec fn asset_of(symbols: Seq<Seq<char>>, symbol: Seq<char>) -> Option<usize>
    decreases symbols.len(),
{
    if symbols.len() == 0 {
        None
    } else if symbols.last() == symbol {
        Some((symbols.len() - 1) as usize)
    } else {
        asset_of(symbols.drop_last(), symbol)
    }
}

/// The names of `names` in the order in which each first occurs.
pub open spec fn distinct_names(names: Seq<Seq<char>>) -> Seq<Seq<char>>
    decreases names.len(),
{
    if names.len() == 0 {
        Seq::empty()
    } else {
        let before = distinct_names(names.drop_last());
        if before.contains(names.last()) {
            before
        } else {
            before.push(names.last())
        }
    }
}

/// `distinct_names` holds each name of the list, once, and nothing else.
pub proof fn lemma_distinct_names(names: Seq<Seq<char>>)
    ensures
        distinct_names(names).no_duplicates(),
        forall|name: Seq<char>| distinct_names(names).contains(name) <==> names.contains(name),
    decreases names.len(),
{
    if names.len() > 0 {
        let head = names.drop_last();
        let before = distinct_names(head);
        lemma_distinct_names(head);
        assert forall|name: Seq<char>| distinct_names(names).contains(name) <==> names.contains(
            name,
        ) by {
            if names.contains(name) {
                let i = choose|i: int| 0 <= i < names.len() && names[i] == name;
                if i < names.len() - 1 {
                    assert(head[i] == name);
                    assert(head.contains(name));
                    assert(before.contains(name));
                    let k = choose|k: int| 0 <= k < before.len() && before[k] == name;
                    assert(distinct_names(names)[k] == name);
                } else if !before.contains(name) {
                    assert(distinct_names(names)[before.len() as int] == name);
                }
            }
            if distinct_names(names).contains(name) {
                let k = choose|k: int|
                    0 <= k < distinct_names(names).len() && distinct_names(names)[k] == name;
                if k < before.len() {
                    assert(before[k] == name);
                    assert(before.contains(name));
                    assert(head.contains(name));
                    let i = choose|i: int| 0 <= i < head.len() && head[i] == name;
                    assert(names[i] == name);
                } else {
                    assert(names[names.len() - 1] == name);
                }
            }
        }
    }
}

/// The first slot of `instruments` that names the connector and symbol of a slot
/// before it, if there is one.
pub fn first_repeat<MD: MarketDepth>(instruments: &Vec<Instrument<MD>>) -> (found: Option<usize>)
    ensures
        (match found {
            Some(j) => j < instruments.len() && repeats_at(instruments@, j as int) && forall|
                k: int,
            |
                0 <= k < j ==> !#[trigger] repeats_at(instruments@, k),
            None => !has_repeat(instruments@),
        }),
{
    let mut j: usize = 0;
    while j < instruments.len()
        invariant
            j <= instruments.len(),
            forall|k: int| 0 <= k < j ==> !#[trigger] repeats_at(instruments@, k),
        decreases instruments.len() - j,
    {
        let mut i: usize = 0;
        while i < j
            invariant
                i <= j,
                j < instruments.len(),
                forall|k: int| 0 <= k < j ==> !#[trigger] repeats_at(instruments@, k),
                forall|k: int|
                    0 <= k < i ==> !((#[trigger] instruments@[k])@.connector_name
                        == instruments@[j as int]@.connector_name && instruments@[k]@.symbol
                        == instruments@[j as int]@.symbol),
            decreases j - i,
        {
            if *instruments[i].connector_name() == *instruments[j].connector_name()
                && *instruments[i].symbol() == *instruments[j].symbol() {
                return Some(j);
            }
            i += 1;
        }
        j += 1;
    }
    None
}

/// Where in `connectors` the name `name` stands, if it does.
fn position_of(connectors: &Vec<String>, name: &String) -> (found: Option<usize>)
    ensures
        (match found {
            Some(k) => k < connectors.len() && connectors[k as int]@ == name@,
            None => !texts(connectors@).contains(name@),
        }),
{
    let mut k: usize = 0;
    while k < connectors.len()
        invariant
            k <= connectors.len(),
            forall|n: int| 0 <= n < k ==> connectors[n]@ != name@,
        decreases connectors.len() - k,
    {
        if connectors[k] == *name {
            return Some(k);
        }
        k += 1;
    }
    None
}

/// Gives each instrument the endpoint of its connector: one endpoint for each
/// connector name, numbered in the order in which the names first occur.
///
/// Returns the connector name of each endpoint and, for each instrument, the number
/// of its endpoint.
pub fn assign_endpoints<MD: MarketDepth>(instruments: &Vec<Instrument<MD>>) -> (plan: (
    Vec<String>,
    Vec<usize>,
))
    ensures
        texts(plan.0@) == distinct_names(connector_names(instruments@)),
        plan.1@.len() == instruments@.len(),
        forall|i: int|
            0 <= i < instruments@.len() ==> (#[trigger] plan.1@[i]) < plan.0@.len()
                && plan.0@[plan.1@[i] as int]@ == instruments@[i]@.connector_name,
{
    let ghost names = connector_names(instruments@);
    let mut connectors: Vec<String> = Vec::new();
    let mut endpoints: Vec<usize> = Vec::new();
    let mut n: usize = 0;
    while n < instruments.len()
        invariant
            n <= instruments.len(),
            names == connector_names(instruments@),
            texts(connectors@) == distinct_names(names.take(n as int)),
            endpoints@.len() == n,
            forall|i: int|
                0 <= i < n ==> (#[trigger] endpoints@[i]) < connectors@.len()
                    && connectors@[endpoints@[i] as int]@ == names[i],
        decreases instruments.len() - n,
    {
        let name = instruments[n].connector_name();
        let ghost before = texts(connectors@);
        assert(names.take(n as int + 1).drop_last() =~= names.take(n as int));
        assert(names.take(n as int + 1).last() == name@);
        match position_of(&connectors, name) {
            Some(k) => {
                assert(before[k as int] == name@);
                endpoints.push(k);
            },
            None => {
                endpoints.push(connectors.len());
                connectors.push(name.clone());
                assert(texts(connectors@) =~= before.push(name@));
            },
        }
        n += 1;
    }
    assert(names.take(n as int) =~= names);
    (connectors, endpoints)
}

} // verus!
