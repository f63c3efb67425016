use vstd::prelude::*;

use crate::building_domain::stock_has_id;
use crate::catalog::{find_item, BuildingGameplayCatalog, EconomyItemDefinition};
use crate::contracts::DurableMaterialStock;
use crate::roster::DurableHunterLoot;
use crate::seqs::first_index;
use crate::session_trade::{requested_units, town_price};
use crate::building_domain::find_material_stock;
use crate::contracts::{DurableBuildingState, DurableTradeSettlement};
use crate::ids::{id_text, id_to_text};
use crate::roster::{
    command_key, hunt_is_idle, released, release_hunter_from_trade, DurableHunterHunt, DurableHunterRosterState,
    DurableHunterState,
};
use crate::session::{is_accepted, is_rejected, OriginalFlowSession, ServerMessage};
use crate::session_services::{find_hunter_index, hunter_has_id};
use crate::session_trade::{hunting_ordinary, is_hunting_ordinary, sale_key, sale_key_text};
use crate::text::{append_decimal, append_str, decimal_text, string_from_chars};
use crate::text::{chars_of, has_prefix, lex_lt, starts_with, str_eq, str_lt};

verus! {

/// Units of material `id` already selected in `lines`.
pub open spec fn selected_units(lines: Seq<(String, u32)>, id: Seq<char>) -> u32
    decreases lines.len(),
{
    if lines.len() == 0 {
        0
    } else if lines[0].0@ == id {
        lines[0].1
    } else {
        selected_units(lines.drop_first(), id)
    }
}

/// Adds `units` of material `id` to sale lines kept in string order, one
/// line per material: an existing line grows, a new one is placed before
/// the first line that orders after it.
pub open spec fn add_units(lines: Seq<(String, u32)>, id: String, units: u32) -> Seq<(String, u32)>
    decreases lines.len(),
{
    if lines.len() == 0 {
        seq![(id, units)]
    } else if lines[0].0@ == id@ {
        lines.update(0, (lines[0].0, (lines[0].1 + units) as u32))
    } else if lex_lt(id@, lines[0].0@) {
        seq![(id, units)] + lines
    } else {
        seq![lines[0]] + add_units(lines.drop_first(), id, units)
    }
}

/// The sale lines gathered from a Hunter's loot so far, or the reason the
/// sale is refused.
pub enum SaleScan {
    Lines(Seq<(String, u32)>),
    Refused(Seq<char>),
}

/// The smaller of two counts.
pub open spec fn min_u32(a: u32, b: u32) -> u32 {
    if a <= b {
        a
    } else {
        b
    }
}

/// Gathers one loot row into the sale lines. Gold and empty rows are
/// passed over; a row that names no known material refuses the sale; the
/// units offered are the row's quantity, or, for a requested-only sale, no
/// more than the town still requests beyond what earlier rows offered; a row
/// offering units must be a priced material, and the line must not overflow.
pub open spec fn scan_row(
    lines: Seq<(String, u32)>,
    row: DurableHunterLoot,
    stocks: Seq<DurableMaterialStock>,
    items: Seq<EconomyItemDefinition>,
    requested_only: bool,
) -> SaleScan {
    if row.quantity == 0 || row.item_id@ == "gold"@ {
        SaleScan::Lines(lines)
    } else if !has_prefix(row.item_id@, "material:"@) {
        SaleScan::Refused("loot definition is unavailable"@)
    } else {
        match find_item(items, row.item_id@) {
            None => SaleScan::Refused("loot definition is unavailable"@),
            Some(item) => {
                let already = selected_units(lines, row.item_id@);
                let requested = requested_units(stocks, row.item_id@);
                let remaining: u32 = if requested >= already {
                    (requested - already) as u32
                } else {
                    0
                };
                let units = if requested_only {
                    min_u32(row.quantity, remaining)
                } else {
                    row.quantity
                };
                if units == 0 {
                    SaleScan::Lines(lines)
                } else if !(item.item_type matches Some(kind) && kind@ == "material"@)
                    || item.town_pays_hunter_gold_per_unit is None {
                    SaleScan::Refused("loot price is unavailable"@)
                } else if already + units > u32::MAX {
                    SaleScan::Refused("loot quantity overflow"@)
                } else {
                    SaleScan::Lines(add_units(lines, row.item_id, units))
                }
            },
        }
    }
}

/// The sale lines of a Hunter's loot, rows read in order; the first refusal
/// stands.
pub open spec fn scan_loot(
    loot: Seq<DurableHunterLoot>,
    stocks: Seq<DurableMaterialStock>,
    items: Seq<EconomyItemDefinition>,
    requested_only: bool,
) -> SaleScan
    decreases loot.len(),
{
    if loot.len() == 0 {
        SaleScan::Lines(seq![])
    } else {
        match scan_loot(loot.drop_last(), stocks, items, requested_only) {
            SaleScan::Refused(reason) => SaleScan::Refused(reason),
            SaleScan::Lines(lines) => scan_row(lines, loot.last(), stocks, items, requested_only),
        }
    }
}

/// Once a prefix of the loot refuses the sale, the whole loot does.
proof fn lemma_scan_refusal_stands(
    loot: Seq<DurableHunterLoot>,
    n: int,
    stocks: Seq<DurableMaterialStock>,
    items: Seq<EconomyItemDefinition>,
    requested_only: bool,
    reason: Seq<char>,
)
    requires
        0 <= n <= loot.len(),
        scan_loot(loot.take(n), stocks, items, requested_only) == SaleScan::Refused(reason),
    ensures
        scan_loot(loot, stocks, items, requested_only) == SaleScan::Refused(reason),
    decreases loot.len(),
{
    if n < loot.len() {
        assert(loot.drop_last().take(n) =~= loot.take(n));
        lemma_scan_refusal_stands(loot.drop_last(), n, stocks, items, requested_only, reason);
    } else {
        assert(loot.take(n) =~= loot);
    }
}

/// Adds `units` of material `id` to the ordered sale lines.
fn add_sale_units(lines: &mut Vec<(String, u32)>, id: &String, units: u32)
    requires
        selected_units(old(lines)@, id@) + units <= u32::MAX,
    ensures
        final(lines)@ == add_units(old(lines)@, *id, units),
{
    let mut i: usize = 0;
    assert(lines@.skip(0) =~= lines@);
    while i < lines.len()
        invariant
            0 <= i <= lines@.len(),
            lines@ == old(lines)@,
            add_units(lines@, *id, units) == lines@.take(i as int) + add_units(lines@.skip(i as int), *id, units),
            selected_units(lines@, id@) == selected_units(lines@.skip(i as int), id@),
            selected_units(lines@, id@) + units <= u32::MAX,
        decreases lines@.len() - i,
    {
        let ghost rest = lines@.skip(i as int);
        assert(rest.drop_first() =~= lines@.skip(i + 1));
        assert(rest[0] == lines@[i as int]);
        if str_eq(lines[i].0.as_str(), id.as_str()) {
            let key = lines[i].0.clone();
            let total = lines[i].1 + units;
            lines.set(i, (key, total));
            assert(lines@ =~= old(lines)@.take(i as int) + rest.update(0, (rest[0].0, (rest[0].1 + units) as u32)));
            return;
        }
        if str_lt(id.as_str(), lines[i].0.as_str()) {
            let ghost before = lines@;
            lines.insert(i, (id.clone(), units));
            assert(lines@ =~= before.take(i as int) + (seq![(*id, units)] + rest));
            return;
        }
        assert(lines@.take(i + 1) =~= lines@.take(i as int).push(lines@[i as int]));
        assert(lines@.take(i as int) + add_units(rest, *id, units) =~= lines@.take(i + 1) + add_units(
            lines@.skip(i + 1),
            *id,
            units,
        ));
        i = i + 1;
    }
    assert(lines@.take(i as int) =~= lines@);
    lines.push((id.clone(), units));
}

/// The units of material `id` the town requests.
fn requested_units_of(stocks: &Vec<DurableMaterialStock>, id: &str) -> (units: u32)
    ensures
        units == requested_units(stocks@, id@),
{
    match find_material_stock(stocks, id) {
        Some(s) => stocks[s].requested,
        None => 0,
    }
}

/// Units of material `id` already selected in the ordered sale lines.
fn selected_units_of(lines: &Vec<(String, u32)>, id: &str) -> (units: u32)
    ensures
        units == selected_units(lines@, id@),
{
    let mut i: usize = 0;
    assert(lines@.skip(0) =~= lines@);
    while i < lines.len()
        invariant
            0 <= i <= lines@.len(),
            selected_units(lines@, id@) == selected_units(lines@.skip(i as int), id@),
        decreases lines@.len() - i,
    {
        let ghost rest = lines@.skip(i as int);
        assert(rest.drop_first() =~= lines@.skip(i + 1));
        assert(rest[0] == lines@[i as int]);
        if str_eq(lines[i].0.as_str(), id) {
            return lines[i].1;
        }
        i = i + 1;
    }
    0
}

/// Gathers the sale lines of a Hunter's loot (see [`scan_loot`]).
pub fn scan_sale_lines(
    loot: &Vec<DurableHunterLoot>,
    stocks: &Vec<DurableMaterialStock>,
    gameplay: &BuildingGameplayCatalog,
    requested_only: bool,
) -> (scan: Result<Vec<(String, u32)>, &'static str>)
    ensures
        match scan_loot(loot@, stocks@, gameplay.items@, requested_only) {
            SaleScan::Lines(lines) => scan matches Ok(v) && v@ == lines,
            SaleScan::Refused(reason) => scan matches Err(e) && e@ == reason,
        },
{
    let ghost items = gameplay.items@;
    let mut lines: Vec<(String, u32)> = Vec::new();
    let prefix = chars_of("material:");
    let mut i: usize = 0;
    assert(loot@.take(0) =~= Seq::<DurableHunterLoot>::empty());
    while i < loot.len()
        invariant
            0 <= i <= loot@.len(),
            items == gameplay.items@,
            prefix@ == "material:"@,
            scan_loot(loot@.take(i as int), stocks@, items, requested_only) == SaleScan::Lines(lines@),
        decreases loot@.len() - i,
    {
        let ghost next = loot@.take(i + 1);
        assert(next.drop_last() =~= loot@.take(i as int));
        assert(next.last() == loot@[i as int]);
        let row = &loot[i];
        if row.quantity == 0 || str_eq(row.item_id.as_str(), "gold") {
            i = i + 1;
            continue;
        }
        if !starts_with(&chars_of(row.item_id.as_str()), &prefix) {
            proof {
                lemma_scan_refusal_stands(loot@, i + 1, stocks@, items, requested_only, "loot definition is unavailable"@);
            }
            return Err("loot definition is unavailable");
        }
        let item = match gameplay.item(row.item_id.as_str()) {
            Some(item) => item,
            None => {
                proof {
                    lemma_scan_refusal_stands(loot@, i + 1, stocks@, items, requested_only, "loot definition is unavailable"@);
                }
                return Err("loot definition is unavailable");
            },
        };
        let already = selected_units_of(&lines, row.item_id.as_str());
        let units: u32 = if requested_only {
            let requested = requested_units_of(stocks, row.item_id.as_str());
            let remaining: u32 = if requested >= already {
                requested - already
            } else {
                0
            };
            if row.quantity <= remaining {
                row.quantity
            } else {
                remaining
            }
        } else {
            row.quantity
        };
        if units == 0 {
            i = i + 1;
            continue;
        }
        let is_material = match &item.item_type {
            Some(kind) => str_eq(kind.as_str(), "material"),
            None => false,
        };
        if !is_material || item.town_pays_hunter_gold_per_unit.is_none() {
            proof {
                lemma_scan_refusal_stands(loot@, i + 1, stocks@, items, requested_only, "loot price is unavailable"@);
            }
            return Err("loot price is unavailable");
        }
        if already > u32::MAX - units {
            proof {
                lemma_scan_refusal_stands(loot@, i + 1, stocks@, items, requested_only, "loot quantity overflow"@);
            }
            return Err("loot quantity overflow");
        }
        add_sale_units(&mut lines, &row.item_id, units);
        i = i + 1;
    }
    assert(loot@.take(loot@.len() as int) =~= loot@);
    Ok(lines)
}

/// A priced sale line: material, units bought, unit price, line gold.
pub open spec fn line_gold(line: (String, u32, u64, u64)) -> u64 {
    line.3
}

/// The priced lines, or the reason the sale is refused.
pub enum PriceScan {
    Priced(Seq<(String, u32, u64, u64)>),
    Refused(Seq<char>),
}

/// Prices the ordered sale lines against `available` town gold: each
/// material needs a non-zero town price; the town buys as many units as
/// offered and as it can still pay for, and a line it cannot afford at all
/// is dropped.
pub open spec fn price_lines(lines: Seq<(String, u32)>, items: Seq<EconomyItemDefinition>, available: int) -> PriceScan
    decreases lines.len(),
{
    if lines.len() == 0 {
        PriceScan::Priced(seq![])
    } else {
        let line = lines[0];
        match town_price(items, line.0@) {
            None => PriceScan::Refused("loot price is unavailable"@),
            Some(price) => if price == 0 {
                PriceScan::Refused("loot price is unavailable"@)
            } else {
                let affordable = available / (price as int);
                let units: int = if line.1 <= affordable {
                    line.1 as int
                } else {
                    affordable
                };
                if units == 0 {
                    price_lines(lines.drop_first(), items, available)
                } else {
                    match price_lines(lines.drop_first(), items, available - units * price) {
                        PriceScan::Refused(reason) => PriceScan::Refused(reason),
                        PriceScan::Priced(rest) => PriceScan::Priced(
                            seq![(line.0, units as u32, price, (units * price) as u64)] + rest,
                        ),
                    }
                }
            },
        }
    }
}

/// The gold of all priced lines.
pub open spec fn priced_gold(priced: Seq<(String, u32, u64, u64)>) -> int
    decreases priced.len(),
{
    if priced.len() == 0 {
        0
    } else {
        priced_gold(priced.drop_last()) + priced.last().3
    }
}

/// Priced lines never cost a negative amount.
pub proof fn lemma_priced_gold_nonnegative(priced: Seq<(String, u32, u64, u64)>)
    ensures
        priced_gold(priced) >= 0,
    decreases priced.len(),
{
    if priced.len() > 0 {
        lemma_priced_gold_nonnegative(priced.drop_last());
    }
}

/// `acc` followed by what a scan of the remaining lines gives.
pub open spec fn after_prefix(acc: Seq<(String, u32, u64, u64)>, scan: PriceScan) -> PriceScan {
    match scan {
        PriceScan::Refused(reason) => PriceScan::Refused(reason),
        PriceScan::Priced(rest) => PriceScan::Priced(acc + rest),
    }
}

/// Units affordable at `price` cost no more than the gold available.
proof fn lemma_affordable_cost(units: int, available: int, price: int)
    requires
        0 <= units <= available / price,
        0 <= available,
        0 < price,
    ensures
        units * price <= available,
{
    assert(units * price <= (available / price) * price) by (nonlinear_arith)
        requires
            0 <= units <= available / price,
            0 < price,
    ;
    assert((available / price) * price <= available) by (nonlinear_arith)
        requires
            0 <= available,
            0 < price,
    ;
}

/// The price the town pays per unit of material `id`.
fn town_price_for(gameplay: &BuildingGameplayCatalog, id: &str) -> (price: Option<u64>)
    ensures
        price == town_price(gameplay.items@, id@),
{
    match gameplay.item(id) {
        Some(item) => item.town_pays_hunter_gold_per_unit,
        None => None,
    }
}

/// Prices the ordered sale lines against the town's gold (see
/// [`price_lines`]), with the total they cost.
pub fn price_sale_lines(gameplay: &BuildingGameplayCatalog, lines: Vec<(String, u32)>, town_gold: u64) -> (priced: Result<
    (Vec<(String, u32, u64, u64)>, u64),
    &'static str,
>)
    ensures
        match price_lines(lines@, gameplay.items@, town_gold as int) {
            PriceScan::Priced(p) => priced matches Ok((v, total)) && v@ == p && total == priced_gold(p) && total
                <= town_gold,
            PriceScan::Refused(reason) => priced matches Err(e) && e@ == reason,
        },
{
    let ghost items = gameplay.items@;
    let ghost all = lines@;
    let mut acc: Vec<(String, u32, u64, u64)> = Vec::new();
    let mut available: u64 = town_gold;
    let mut total: u64 = 0;
    assert(all.skip(0) =~= all);
    assert(Seq::<(String, u32, u64, u64)>::empty() + Seq::<(String, u32, u64, u64)>::empty() =~= Seq::<
        (String, u32, u64, u64),
    >::empty());
    for line in it: lines
        invariant
            it.seq() == all,
            items == gameplay.items@,
            available + total == town_gold,
            total == priced_gold(acc@),
            price_lines(all, items, town_gold as int) == after_prefix(
                acc@,
                price_lines(all.skip(it.index() as int), items, available as int),
            ),
    {
        let ghost i = it.index() as int;
        let ghost rest = all.skip(i);
        assert(rest.drop_first() =~= all.skip(i + 1));
        assert(rest[0] == line);
        let (id, offered) = line;
        let price = match town_price_for(gameplay, id.as_str()) {
            Some(price) => price,
            None => {
                return Err("loot price is unavailable");
            },
        };
        if price == 0 {
            return Err("loot price is unavailable");
        }
        let affordable: u64 = available / price;
        let units: u64 = if (offered as u64) <= affordable {
            offered as u64
        } else {
            affordable
        };
        if units > 0 {
            proof {
                lemma_affordable_cost(units as int, available as int, price as int);
            }
            let cost: u64 = units * price;
            let ghost before = acc@;
            let entry = (id, units as u32, price, cost);
            acc.push(entry);
            available = available - cost;
            total = total + cost;
            proof {
                assert(acc@.drop_last() =~= before);
                match price_lines(all.skip(i + 1), items, available as int) {
                    PriceScan::Refused(reason) => {},
                    PriceScan::Priced(tail) => {
                        assert(before + (seq![entry] + tail) =~= acc@ + tail);
                    },
                }
            }
        }
    }
    assert(all.skip(all.len() as int) =~= Seq::<(String, u32)>::empty());
    assert(acc@ + Seq::<(String, u32, u64, u64)>::empty() =~= acc@);
    Ok((acc, total))
}

/// `a + b`, held at `u32::MAX`.
pub open spec fn sat_add_u32(a: u32, b: u32) -> u32 {
    if a + b > u32::MAX {
        u32::MAX
    } else {
        (a + b) as u32
    }
}

/// `a - b`, held at zero.
pub open spec fn sat_sub_u32(a: u32, b: u32) -> u32 {
    if a >= b {
        (a - b) as u32
    } else {
        0
    }
}

/// The town takes in one priced line: an existing stock of the material
/// gains the units, requests that many fewer, and records the price paid;
/// otherwise a stock of just those units is added.
pub open spec fn credit_stock(stocks: Seq<DurableMaterialStock>, line: (String, u32, u64, u64)) -> Seq<DurableMaterialStock> {
    match first_index(stocks, stock_has_id(line.0@)) {
        Some(k) => stocks.update(
            k,
            DurableMaterialStock {
                town_quantity: sat_add_u32(stocks[k].town_quantity, line.1),
                requested: sat_sub_u32(stocks[k].requested, line.1),
                unit_price: line.2,
                ..stocks[k]
            },
        ),
        None => stocks.push(
            DurableMaterialStock { id: line.0, town_quantity: line.1, hunter_quantity: 0, requested: 0, unit_price: line.2 },
        ),
    }
}

/// The town takes in every priced line, in order.
pub open spec fn credit_stocks(stocks: Seq<DurableMaterialStock>, priced: Seq<(String, u32, u64, u64)>) -> Seq<DurableMaterialStock>
    decreases priced.len(),
{
    if priced.len() == 0 {
        stocks
    } else {
        credit_stocks(credit_stock(stocks, priced[0]), priced.drop_first())
    }
}

/// Credits the town's material stocks with the priced lines.
fn credit_material_stocks(stocks: &mut Vec<DurableMaterialStock>, priced: &Vec<(String, u32, u64, u64)>)
    ensures
        final(stocks)@ == credit_stocks(old(stocks)@, priced@),
{
    let mut i: usize = 0;
    assert(priced@.skip(0) =~= priced@);
    while i < priced.len()
        invariant
            0 <= i <= priced@.len(),
            credit_stocks(old(stocks)@, priced@) == credit_stocks(stocks@, priced@.skip(i as int)),
        decreases priced@.len() - i,
    {
        let ghost rest = priced@.skip(i as int);
        assert(rest.drop_first() =~= priced@.skip(i + 1));
        assert(rest[0] == priced@[i as int]);
        let units = priced[i].1;
        match find_material_stock(stocks, priced[i].0.as_str()) {
            Some(k) => {
                let current = &stocks[k];
                let town_quantity: u32 = if current.town_quantity > u32::MAX - units {
                    u32::MAX
                } else {
                    current.town_quantity + units
                };
                let requested: u32 = if current.requested >= units {
                    current.requested - units
                } else {
                    0
                };
                let credited = DurableMaterialStock {
                    id: current.id.clone(),
                    town_quantity,
                    hunter_quantity: current.hunter_quantity,
                    requested,
                    unit_price: priced[i].2,
                };
                stocks.set(k, credited);
            },
            None => {
                stocks.push(
                    DurableMaterialStock {
                        id: priced[i].0.clone(),
                        town_quantity: units,
                        hunter_quantity: 0,
                        requested: 0,
                        unit_price: priced[i].2,
                    },
                );
            },
        }
        i = i + 1;
    }
    assert(priced@.skip(i as int) =~= Seq::<(String, u32, u64, u64)>::empty());
}

/// Loot left after `sold` units are taken, rows in order and each
/// material's units taken from its first rows first; rows left empty are
/// dropped.
pub open spec fn remaining_loot(loot: Seq<DurableHunterLoot>, sold: Seq<(String, u32)>) -> Seq<DurableHunterLoot>
    decreases loot.len(),
{
    if loot.len() == 0 {
        seq![]
    } else {
        let row = loot[0];
        match first_index(sold, sold_has_id(row.item_id@)) {
            Some(k) => {
                let taken = min_u32(row.quantity, sold[k].1);
                let left = DurableHunterLoot { quantity: (row.quantity - taken) as u32, ..row };
                let rest = remaining_loot(loot.drop_first(), sold.update(k, (sold[k].0, (sold[k].1 - taken) as u32)));
                if left.quantity > 0 {
                    seq![left] + rest
                } else {
                    rest
                }
            },
            None => {
                let rest = remaining_loot(loot.drop_first(), sold);
                if row.quantity > 0 {
                    seq![row] + rest
                } else {
                    rest
                }
            },
        }
    }
}

/// A sold entry for material `id`.
pub open spec fn sold_has_id(id: Seq<char>) -> spec_fn((String, u32)) -> bool {
    |entry: (String, u32)| entry.0@ == id
}

/// The units sold of each priced material.
pub open spec fn sold_units(priced: Seq<(String, u32, u64, u64)>) -> Seq<(String, u32)> {
    priced.map_values(|line: (String, u32, u64, u64)| (line.0, line.1))
}

/// Finds the first sold entry of material `id`.
fn find_sold(sold: &Vec<(String, u32)>, id: &str) -> (index: Option<usize>)
    ensures
        index matches Some(k) ==> first_index(sold@, sold_has_id(id@)) == Some(k as int) && k < sold@.len(),
        index is None ==> first_index(sold@, sold_has_id(id@)) is None,
{
    let mut k: usize = 0;
    while k < sold.len()
        invariant
            0 <= k <= sold@.len(),
            forall|j: int| 0 <= j < k ==> !sold_has_id(id@)(#[trigger] sold@[j]),
        decreases sold@.len() - k,
    {
        if str_eq(sold[k].0.as_str(), id) {
            proof {
                crate::seqs::lemma_first_index_is(sold@, sold_has_id(id@), k as int);
            }
            return Some(k);
        }
        k = k + 1;
    }
    proof {
        crate::seqs::lemma_first_index_none(sold@, sold_has_id(id@));
    }
    None
}

/// Takes the sold units out of a Hunter's loot (see [`remaining_loot`]).
fn take_sold_loot(loot: &mut Vec<DurableHunterLoot>, priced: &Vec<(String, u32, u64, u64)>)
    ensures
        final(loot)@ == remaining_loot(old(loot)@, sold_units(priced@)),
{
    let mut sold: Vec<(String, u32)> = Vec::new();
    let mut i: usize = 0;
    while i < priced.len()
        invariant
            0 <= i <= priced@.len(),
            sold@ == sold_units(priced@.take(i as int)),
        decreases priced@.len() - i,
    {
        sold.push((priced[i].0.clone(), priced[i].1));
        assert(sold_units(priced@.take(i + 1)) =~= sold_units(priced@.take(i as int)).push(
            (priced@[i as int].0, priced@[i as int].1),
        ));
        i = i + 1;
    }
    assert(priced@.take(priced@.len() as int) =~= priced@);
    let ghost all = loot@;
    let rows = loot.split_off(0);
    assert(rows@ =~= all);
    assert(all.skip(0) =~= all);
    assert(loot@ =~= Seq::<DurableHunterLoot>::empty());
    assert(Seq::<DurableHunterLoot>::empty() + remaining_loot(all, sold@) =~= remaining_loot(all, sold@));
    for row in it: rows
        invariant
            it.seq() == all,
            remaining_loot(all, sold_units(priced@)) == loot@ + remaining_loot(all.skip(it.index() as int), sold@),
    {
        let ghost k0 = it.index() as int;
        let ghost rest = all.skip(k0);
        assert(rest.drop_first() =~= all.skip(k0 + 1));
        assert(rest[0] == row);
        let ghost kept = loot@;
        match find_sold(&sold, row.item_id.as_str()) {
            Some(k) => {
                let available = sold[k].1;
                let taken: u32 = if row.quantity <= available {
                    row.quantity
                } else {
                    available
                };
                let key = sold[k].0.clone();
                sold.set(k, (key, available - taken));
                let left = row.quantity - taken;
                if left > 0 {
                    loot.push(DurableHunterLoot { quantity: left, ..row });
                    assert(kept + (seq![loot@.last()] + remaining_loot(all.skip(k0 + 1), sold@)) =~= loot@
                        + remaining_loot(all.skip(k0 + 1), sold@));
                }
            },
            None => {
                if row.quantity > 0 {
                    loot.push(row);
                    assert(kept + (seq![loot@.last()] + remaining_loot(all.skip(k0 + 1), sold@)) =~= loot@
                        + remaining_loot(all.skip(k0 + 1), sold@));
                }
            },
        }
    }
    assert(all.skip(all.len() as int) =~= Seq::<DurableHunterLoot>::empty());
    assert(loot@ + Seq::<DurableHunterLoot>::empty() =~= loot@);
}

/// The id of settlement line `line` of command `command_id`: the command
/// id's text for the first line, then that text, a colon and the line
/// number.
pub open spec fn settlement_id_text(command_id: u128, line: int) -> Seq<char> {
    if line == 0 {
        id_text(command_id)
    } else {
        id_text(command_id) + ":"@ + decimal_text(line as nat)
    }
}

/// Settlement row `line` of command `command_id` records the priced line
/// under field trip `trip`.
pub open spec fn settlement_row(
    row: DurableTradeSettlement,
    command_id: u128,
    line: int,
    trip: u64,
    priced: (String, u32, u64, u64),
) -> bool {
    &&& row.settlement_id@ == settlement_id_text(command_id, line)
    &&& row.field_trip_id == trip
    &&& row.material_id == priced.0
    &&& row.quantity == priced.1
    &&& row.unit_price == priced.2
    &&& row.total_gold == priced.3
}

/// The settlement rows after a sale: the earlier rows, then one row per
/// priced line.
pub open spec fn settlements_appended(
    before: Seq<DurableTradeSettlement>,
    after: Seq<DurableTradeSettlement>,
    command_id: u128,
    trip: u64,
    priced: Seq<(String, u32, u64, u64)>,
) -> bool {
    &&& after.len() == before.len() + priced.len()
    &&& after.take(before.len() as int) == before
    &&& forall|k: int| 0 <= k < priced.len() ==> #[trigger] settlement_row(after[before.len() + k], command_id, k, trip, priced[k])
}

/// Writes the id of settlement line `line` of command `command_id`.
fn settlement_id_of(command_id: u128, line: usize) -> (id: String)
    ensures
        id@ == settlement_id_text(command_id, line as int),
{
    let text = id_to_text(command_id);
    if line == 0 {
        return text;
    }
    let mut chars = chars_of(text.as_str());
    append_str(&mut chars, ":");
    append_decimal(&mut chars, line as u64);
    string_from_chars(&chars)
}

/// Appends one settlement row per priced line.
fn record_settlements(
    settlements: &mut Vec<DurableTradeSettlement>,
    command_id: u128,
    trip: u64,
    priced: &Vec<(String, u32, u64, u64)>,
)
    ensures
        settlements_appended(old(settlements)@, final(settlements)@, command_id, trip, priced@),
{
    let ghost start = settlements@;
    let mut i: usize = 0;
    while i < priced.len()
        invariant
            0 <= i <= priced@.len(),
            settlements@.len() == start.len() + i,
            settlements@.take(start.len() as int) == start,
            start == old(settlements)@,
            forall|k: int| 0 <= k < i ==> #[trigger] settlement_row(settlements@[start.len() + k], command_id, k, trip, priced@[k]),
        decreases priced@.len() - i,
    {
        let settlement_id = settlement_id_of(command_id, i);
        let row = DurableTradeSettlement {
            settlement_id,
            field_trip_id: trip,
            material_id: priced[i].0.clone(),
            quantity: priced[i].1,
            unit_price: priced[i].2,
            total_gold: priced[i].3,
        };
        let ghost before = settlements@;
        settlements.push(row);
        assert(settlements@.take(start.len() as int) =~= before.take(start.len() as int));
        assert forall|k: int| 0 <= k < i + 1 implies #[trigger] settlement_row(
            settlements@[start.len() + k],
            command_id,
            k,
            trip,
            priced@[k],
        ) by {
            if k < i {
                assert(settlements@[start.len() + k] == before[start.len() + k]);
            }
        }
        i = i + 1;
    }
}

/// How a loot settlement is answered.
pub enum SettleDecision {
    /// Accepted again with no change: the command id already settled this
    /// Hunter's sale.
    Replay,
    /// Refused with a reason, with no change.
    Reject(Seq<char>),
    /// Accepted: the priced lines are sold.
    Settle(Seq<(String, u32, u64, u64)>),
}

/// The decision on settling a Hunter's loot, checks in order: a used
/// (non-nil) command id; the Hunter's presence; that it is idle, selling
/// requested loot from an ordinary hunting region, or arriving under this
/// command's trade; the sale lines of its loot; that there are some; their
/// prices against the town's gold; that the town can afford some.
pub open spec fn settle_decision(
    session: OriginalFlowSession,
    command_id: u128,
    hunter_id: u32,
    requested_only: bool,
) -> SettleDecision {
    if command_id != 0 && command_key(session.hunter_roster.hunt_commands@, command_id) is Some {
        if command_key(session.hunter_roster.hunt_commands@, command_id) == Some(sale_key(hunter_id)) {
            SettleDecision::Replay
        } else {
            SettleDecision::Reject("command id was already used for a different hunter action"@)
        }
    } else {
        match first_index(session.hunter_roster.hunters@, hunter_has_id(hunter_id)) {
            None => SettleDecision::Reject("hunter is not in the active town roster"@),
            Some(h) => {
                let hunter = session.hunter_roster.hunters@[h];
                let field_sale = requested_only && hunting_ordinary(hunter, session.building_content);
                let arriving = hunter.hunt.pending_trade matches Some(task) && task.command_id == command_id;
                if !hunt_is_idle(hunter.hunt) && !field_sale && !arriving {
                    SettleDecision::Reject("hunter must be idle to sell loot"@)
                } else {
                    match scan_loot(
                        hunter.hunt.loot@,
                        session.buildings.material_stocks@,
                        session.building_content.gameplay.items@,
                        requested_only,
                    ) {
                        SaleScan::Refused(reason) => SettleDecision::Reject(reason),
                        SaleScan::Lines(lines) => if lines.len() == 0 {
                            SettleDecision::Reject("hunter has no hunt loot"@)
                        } else {
                            match price_lines(
                                lines,
                                session.building_content.gameplay.items@,
                                session.buildings.town_gold as int,
                            ) {
                                PriceScan::Refused(reason) => SettleDecision::Reject(reason),
                                PriceScan::Priced(priced) => if priced.len() == 0 {
                                    SettleDecision::Reject("town wallet cannot afford loot"@)
                                } else {
                                    SettleDecision::Settle(priced)
                                },
                            }
                        },
                    }
                }
            },
        }
    }
}

/// `a + b`, held at `u64::MAX`.
pub open spec fn sat_add_u64(a: u64, b: int) -> u64 {
    if a + b > u64::MAX {
        u64::MAX
    } else {
        (a + b) as u64
    }
}

/// The field trip a settlement is booked under: the current one, and at
/// least the first.
pub open spec fn settlement_trip(town: DurableBuildingState) -> u64 {
    if town.field_trip_id >= 1 {
        town.field_trip_id
    } else {
        1
    }
}

/// The Hunter as paid for the priced lines, carrying `loot`.
pub open spec fn paid_hunter(hunter: DurableHunterState, gold: int, loot: Vec<DurableHunterLoot>) -> DurableHunterState {
    DurableHunterState {
        gold: sat_add_u64(hunter.gold, gold),
        hunt: DurableHunterHunt { loot, ..hunter.hunt },
        ..hunter
    }
}

/// The effect of selling the priced lines of the first Hunter with
/// `hunter_id`: the town pays their gold and takes in the units, books one
/// settlement row per line under the current field trip (at least the
/// first), and the Hunter is paid, gives up the sold units and is released
/// from any trade, idle in place; a non-nil command id is recorded for the
/// sale; nothing else changes.
pub open spec fn loot_settled(
    before: OriginalFlowSession,
    after: OriginalFlowSession,
    command_id: u128,
    hunter_id: u32,
    priced: Seq<(String, u32, u64, u64)>,
) -> bool {
    let h = first_index(before.hunter_roster.hunters@, hunter_has_id(hunter_id)).unwrap();
    let old_hunter = before.hunter_roster.hunters@[h];
    let new_hunter = after.hunter_roster.hunters@[h];
    let total = priced_gold(priced);
    let trip = settlement_trip(before.buildings);
    let commands = before.hunter_roster.hunt_commands@;
    let new_commands = after.hunter_roster.hunt_commands@;
    &&& after.hunter_roster.hunters@.len() == before.hunter_roster.hunters@.len()
    &&& forall|k: int| 0 <= k < before.hunter_roster.hunters@.len() && k != h ==> #[trigger] after.hunter_roster.hunters@[k]
        == before.hunter_roster.hunters@[k]
    &&& new_hunter.hunt.loot@ == remaining_loot(old_hunter.hunt.loot@, sold_units(priced))
    &&& released(paid_hunter(old_hunter, total, new_hunter.hunt.loot), new_hunter)
    &&& after.buildings.town_gold == before.buildings.town_gold - total
    &&& after.buildings.field_trip_id == trip
    &&& after.buildings.material_stocks@ == credit_stocks(before.buildings.material_stocks@, priced)
    &&& settlements_appended(before.buildings.trade_settlements@, after.buildings.trade_settlements@, command_id, trip, priced)
    &&& after.buildings == DurableBuildingState {
        town_gold: after.buildings.town_gold,
        field_trip_id: after.buildings.field_trip_id,
        material_stocks: after.buildings.material_stocks,
        trade_settlements: after.buildings.trade_settlements,
        ..before.buildings
    }
    &&& if command_id != 0 {
        &&& new_commands.len() == commands.len() + 1
        &&& new_commands.drop_last() == commands
        &&& new_commands.last().command_id == command_id
        &&& new_commands.last().key@ == sale_key(hunter_id)
    } else {
        new_commands == commands
    }
    &&& after.hunter_roster == DurableHunterRosterState {
        hunters: after.hunter_roster.hunters,
        hunt_commands: after.hunter_roster.hunt_commands,
        ..before.hunter_roster
    }
    &&& after == OriginalFlowSession {
        buildings: after.buildings,
        hunter_roster: after.hunter_roster,
        ..before
    }
}

/// The reply to and effect of settling a Hunter's loot.
pub open spec fn settle_outcome(
    before: OriginalFlowSession,
    after: OriginalFlowSession,
    command_id: u128,
    hunter_id: u32,
    requested_only: bool,
    message: ServerMessage,
) -> bool {
    match settle_decision(before, command_id, hunter_id, requested_only) {
        SettleDecision::Replay => is_accepted(message, "sell_hunter_loot"@) && after == before,
        SettleDecision::Reject(reason) => is_rejected(message, "sell_hunter_loot"@, reason) && after == before,
        SettleDecision::Settle(priced) => is_accepted(message, "sell_hunter_loot"@) && loot_settled(
            before,
            after,
            command_id,
            hunter_id,
            priced,
        ),
    }
}

/// Pays a Hunter for a sale, takes the sold units from its loot and
/// releases it from its trade.
fn pay_hunter(hunter: &mut DurableHunterState, total: u64, priced: &Vec<(String, u32, u64, u64)>)
    ensures
        final(hunter).hunt.loot@ == remaining_loot(old(hunter).hunt.loot@, sold_units(priced@)),
        released(paid_hunter(*old(hunter), total as int, final(hunter).hunt.loot), *final(hunter)),
{
    hunter.gold = if hunter.gold > u64::MAX - total {
        u64::MAX
    } else {
        hunter.gold + total
    };
    release_hunter_from_trade(hunter);
    take_sold_loot(&mut hunter.hunt.loot, priced);
}

impl OriginalFlowSession {
    /// Carries out a decided sale (see [`loot_settled`]).
    fn apply_settlement(
        &mut self,
        h: usize,
        command_id: u128,
        hunter_id: u32,
        priced: &Vec<(String, u32, u64, u64)>,
        total: u64,
    )
        requires
            first_index(old(self).hunter_roster.hunters@, hunter_has_id(hunter_id)) == Some(h as int),
            h < old(self).hunter_roster.hunters@.len(),
            total == priced_gold(priced@),
            total <= old(self).buildings.town_gold,
            command_id != 0 ==> command_key(old(self).hunter_roster.hunt_commands@, command_id) is None,
        ensures
            loot_settled(*old(self), *final(self), command_id, hunter_id, priced@),
    {
        let trip: u64 = if self.buildings.field_trip_id >= 1 {
            self.buildings.field_trip_id
        } else {
            1
        };
        self.buildings.field_trip_id = trip;
        self.buildings.town_gold = self.buildings.town_gold - total;
        credit_material_stocks(&mut self.buildings.material_stocks, priced);
        pay_hunter(&mut self.hunter_roster.hunters[h], total, priced);
        record_settlements(&mut self.buildings.trade_settlements, command_id, trip, priced);
        if command_id != 0 {
            let key = sale_key_text(hunter_id);
            let ghost commands = self.hunter_roster.hunt_commands@;
            self.hunter_roster.record_command(command_id, key);
            assert(self.hunter_roster.hunt_commands@.drop_last() =~= commands);
        }
    }

    /// Settles a Hunter's loot at the Trading Post under `command_id` (see
    /// [`settle_decision`] and [`loot_settled`]).
    pub fn settle_hunter_loot_internal(&mut self, command_id: u128, hunter_id: u32, requested_only: bool) -> (message: ServerMessage)
        ensures
            settle_outcome(*old(self), *final(self), command_id, hunter_id, requested_only, message),
    {
        let intent = "sell_hunter_loot";
        if command_id != 0 {
            match self.hunter_roster.command_key(command_id) {
                Some(previous) => {
                    let key = sale_key_text(hunter_id);
                    return if str_eq(previous.as_str(), key.as_str()) {
                        self.accepted(intent)
                    } else {
                        self.rejected(intent, "command id was already used for a different hunter action")
                    };
                },
                None => {},
            }
        }
        let h = match find_hunter_index(&self.hunter_roster.hunters, hunter_id) {
            Some(h) => h,
            None => {
                return self.rejected(intent, "hunter is not in the active town roster");
            },
        };
        let hunter = &self.hunter_roster.hunters[h];
        let field_sale = requested_only && is_hunting_ordinary(hunter, &self.building_content);
        let arriving = match &hunter.hunt.pending_trade {
            Some(task) => task.command_id == command_id,
            None => false,
        };
        if !hunter.hunt.is_idle() && !field_sale && !arriving {
            return self.rejected(intent, "hunter must be idle to sell loot");
        }
        let lines = match scan_sale_lines(
            &hunter.hunt.loot,
            &self.buildings.material_stocks,
            &self.building_content.gameplay,
            requested_only,
        ) {
            Ok(lines) => lines,
            Err(reason) => {
                return self.rejected(intent, reason);
            },
        };
        if lines.len() == 0 {
            return self.rejected(intent, "hunter has no hunt loot");
        }
        let (priced, total) = match price_sale_lines(&self.building_content.gameplay, lines, self.buildings.town_gold) {
            Ok(priced) => priced,
            Err(reason) => {
                return self.rejected(intent, reason);
            },
        };
        if priced.len() == 0 {
            return self.rejected(intent, "town wallet cannot afford loot");
        }
        self.apply_settlement(h, command_id, hunter_id, &priced, total);
        self.accepted(intent)
    }
}

/// A settled sale moves gold from the town wallet to the Hunter and creates
/// none: the town pays exactly what the Hunter receives, when the Hunter's
/// wallet does not overflow.
pub proof fn lemma_sale_conserves_gold(
    before: OriginalFlowSession,
    after: OriginalFlowSession,
    command_id: u128,
    hunter_id: u32,
    requested_only: bool,
    message: ServerMessage,
    h: int,
)
    requires
        settle_outcome(before, after, command_id, hunter_id, requested_only, message),
        first_index(before.hunter_roster.hunters@, hunter_has_id(hunter_id)) == Some(h),
        before.hunter_roster.hunters@[h].gold + before.buildings.town_gold <= u64::MAX,
    ensures
        after.buildings.town_gold + after.hunter_roster.hunters@[h].gold == before.buildings.town_gold
            + before.hunter_roster.hunters@[h].gold,
{
    crate::seqs::lemma_first_index(before.hunter_roster.hunters@, hunter_has_id(hunter_id));
    match settle_decision(before, command_id, hunter_id, requested_only) {
        SettleDecision::Settle(priced) => {
            let old_hunter = before.hunter_roster.hunters@[h];
            let new_hunter = after.hunter_roster.hunters@[h];
            let total = priced_gold(priced);
            let paid = paid_hunter(old_hunter, total, new_hunter.hunt.loot);
            lemma_priced_gold_nonnegative(priced);
            assert(released(paid, new_hunter));
            assert(new_hunter.gold == paid.gold);
            assert(total <= before.buildings.town_gold);
            assert(after.buildings.town_gold == before.buildings.town_gold - total);
            assert(paid.gold == old_hunter.gold + total);
        },
        _ => {
            assert(after == before);
        },
    }
}

/// Once a command id has settled a Hunter's sale, sending it again for that
/// Hunter is answered as a replay that changes nothing.
pub proof fn lemma_settled_sale_replays(
    before: OriginalFlowSession,
    after: OriginalFlowSession,
    command_id: u128,
    hunter_id: u32,
    requested_only: bool,
    message: ServerMessage,
    again_requested_only: bool,
)
    requires
        command_id != 0,
        settle_outcome(before, after, command_id, hunter_id, requested_only, message),
        settle_decision(before, command_id, hunter_id, requested_only) is Settle,
    ensures
        settle_decision(after, command_id, hunter_id, again_requested_only) == SettleDecision::Replay,
{
    let commands = after.hunter_roster.hunt_commands@;
    assert(commands.last().command_id == command_id);
    assert(command_key(commands, command_id) == Some(commands.last().key@));
}

/// Every priced line buys at least one unit, and its gold is its units
/// times its unit price; together the lines cost no more than the gold
/// available.
pub proof fn lemma_priced_lines_exact(lines: Seq<(String, u32)>, items: Seq<EconomyItemDefinition>, available: int)
    requires
        0 <= available <= u64::MAX,
        price_lines(lines, items, available) is Priced,
    ensures
        ({
            let priced = price_lines(lines, items, available)->Priced_0;
            &&& forall|k: int| 0 <= k < priced.len() ==> #[trigger] priced[k].1 >= 1 && priced[k].3 == priced[k].1 * priced[k].2
            &&& priced_gold(priced) <= available
        }),
    decreases lines.len(),
{
    if lines.len() > 0 {
        let line = lines[0];
        let price = town_price(items, line.0@)->0;
        let affordable = available / (price as int);
        let units: int = if line.1 <= affordable { line.1 as int } else { affordable };
        if units == 0 {
            lemma_priced_lines_exact(lines.drop_first(), items, available);
        } else {
            lemma_affordable_cost(units, available, price as int);
            lemma_priced_lines_exact(lines.drop_first(), items, available - units * price);
            let rest = price_lines(lines.drop_first(), items, available - units * price)->Priced_0;
            let head = (line.0, units as u32, price, (units * price) as u64);
            let priced = seq![head] + rest;
            assert forall|k: int| 0 <= k < priced.len() implies #[trigger] priced[k].1 >= 1 && priced[k].3 == priced[k].1
                * priced[k].2 by {
                if k > 0 {
                    assert(priced[k] == rest[k - 1]);
                }
            }
            lemma_priced_gold_prepend(head, rest);
        }
    }
}

/// The gold of lines with one line put in front.
proof fn lemma_priced_gold_prepend(head: (String, u32, u64, u64), rest: Seq<(String, u32, u64, u64)>)
    ensures
        priced_gold(seq![head] + rest) == head.3 + priced_gold(rest),
    decreases rest.len(),
{
    let whole = seq![head] + rest;
    if rest.len() > 0 {
        lemma_priced_gold_prepend(head, rest.drop_last());
        assert(whole.drop_last() =~= seq![head] + rest.drop_last());
        assert(whole.last() == rest.last());
        assert(priced_gold(whole) == priced_gold(whole.drop_last()) + whole.last().3);
        assert(priced_gold(rest) == priced_gold(rest.drop_last()) + rest.last().3);
    } else {
        assert(whole.drop_last() =~= Seq::<(String, u32, u64, u64)>::empty());
        assert(whole.last() == head);
        assert(priced_gold(whole) == priced_gold(whole.drop_last()) + whole.last().3);
        assert(priced_gold(rest) == 0);
    }
}

/// The gold booked by settlement rows.
pub open spec fn settlement_gold(rows: Seq<DurableTradeSettlement>) -> int
    decreases rows.len(),
{
    if rows.len() == 0 {
        0
    } else {
        settlement_gold(rows.drop_last()) + rows.last().total_gold
    }
}

/// Rows appended for priced lines book the lines' gold, line by line.
proof fn lemma_appended_gold(
    before: Seq<DurableTradeSettlement>,
    after: Seq<DurableTradeSettlement>,
    command_id: u128,
    trip: u64,
    priced: Seq<(String, u32, u64, u64)>,
    n: int,
)
    requires
        settlements_appended(before, after, command_id, trip, priced),
        0 <= n <= priced.len(),
    ensures
        settlement_gold(after.take(before.len() + n)) == settlement_gold(before) + priced_gold(priced.take(n)),
    decreases n,
{
    if n == 0 {
        assert(priced.take(0) =~= Seq::<(String, u32, u64, u64)>::empty());
    } else {
        lemma_appended_gold(before, after, command_id, trip, priced, n - 1);
        assert(after.take(before.len() + n).drop_last() =~= after.take(before.len() + n - 1));
        assert(priced.take(n).drop_last() =~= priced.take(n - 1));
        assert(settlement_row(after[before.len() + (n - 1)], command_id, n - 1, trip, priced[n - 1]));
    }
}

/// Every settlement keeps the books: the gold of the settlement rows it
/// books is exactly the gold the town wallet paid out. A replayed or
/// refused sale books nothing and pays nothing.
pub proof fn lemma_settlements_book_town_payment(
    before: OriginalFlowSession,
    after: OriginalFlowSession,
    command_id: u128,
    hunter_id: u32,
    requested_only: bool,
    message: ServerMessage,
)
    requires
        settle_outcome(before, after, command_id, hunter_id, requested_only, message),
    ensures
        settlement_gold(after.buildings.trade_settlements@) - settlement_gold(before.buildings.trade_settlements@)
            == before.buildings.town_gold - after.buildings.town_gold,
{
    match settle_decision(before, command_id, hunter_id, requested_only) {
        SettleDecision::Settle(priced) => {
            let rows = before.buildings.trade_settlements@;
            let new_rows = after.buildings.trade_settlements@;
            let trip = settlement_trip(before.buildings);
            lemma_appended_gold(rows, new_rows, command_id, trip, priced, priced.len() as int);
            assert(new_rows.take(rows.len() + priced.len() as int) =~= new_rows);
            assert(priced.take(priced.len() as int) =~= priced);
        },
        _ => {},
    }
}

} // verus!
