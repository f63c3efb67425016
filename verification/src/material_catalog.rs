use vstd::prelude::*;

use crate::building_domain::{find_material_stock, stock_has_id};
use crate::catalog::{find_item, BuildingGameplayCatalog, EconomyItemDefinition, LocalizedName};
use crate::contracts::DurableMaterialStock;
use crate::seqs::{first_index, lemma_first_index, lemma_first_index_is, lemma_first_index_none};
use crate::text::{
    chars_of, ends_with, has_prefix, has_suffix, lemma_lex_asymmetric, lemma_lex_total, lemma_lex_transitive, lex_lt,
    parse_bounded, parse_decimal, starts_with, str_eq, str_lt,
};

verus! {

/// A Unicode `White_Space` character, as `char::is_whitespace` reads it.
pub open spec fn is_white_space(c: char) -> bool {
    let n = c as u32;
    ||| 9 <= n <= 13
    ||| n == 32 || n == 0x85 || n == 0xa0 || n == 0x1680
    ||| 0x2000 <= n <= 0x200a
    ||| n == 0x2028 || n == 0x2029 || n == 0x202f || n == 0x205f || n == 0x3000
}

/// `s` without its leading white space.
pub open spec fn trim_start(s: Seq<char>) -> Seq<char>
    decreases s.len(),
{
    if s.len() > 0 && is_white_space(s[0]) {
        trim_start(s.drop_first())
    } else {
        s
    }
}

/// `s` without its trailing white space.
pub open spec fn trim_end(s: Seq<char>) -> Seq<char>
    decreases s.len(),
{
    if s.len() > 0 && is_white_space(s.last()) {
        trim_end(s.drop_last())
    } else {
        s
    }
}

/// `s` without leading and trailing white space (std's `str::trim`).
pub open spec fn trimmed(s: Seq<char>) -> Seq<char> {
    trim_end(trim_start(s))
}

/// Whether a character is white space.
fn white_space(c: char) -> (white: bool)
    ensures
        white == is_white_space(c),
{
    let n = c as u32;
    (9 <= n && n <= 13) || n == 32 || n == 0x85 || n == 0xa0 || n == 0x1680 || (0x2000 <= n && n <= 0x200a) || n
        == 0x2028 || n == 0x2029 || n == 0x202f || n == 0x205f || n == 0x3000
}

/// The characters of `s` without leading and trailing white space.
fn trimmed_chars(s: &str) -> (t: Vec<char>)
    ensures
        t@ == trimmed(s@),
{
    let chars = chars_of(s);
    let mut start: usize = 0;
    assert(chars@.skip(0) =~= chars@);
    while start < chars.len() && white_space(chars[start])
        invariant
            0 <= start <= chars@.len(),
            chars@ == s@,
            trim_start(s@) == trim_start(chars@.skip(start as int)),
        decreases chars@.len() - start,
    {
        assert(chars@.skip(start as int).drop_first() =~= chars@.skip(start + 1));
        start = start + 1;
    }
    let ghost rest = chars@.skip(start as int);
    assert(trim_start(s@) == rest);
    let mut end: usize = chars.len();
    assert(rest.take(rest.len() as int) =~= rest);
    while end > start && white_space(chars[end - 1])
        invariant
            start <= end <= chars@.len(),
            chars@ == s@,
            rest == chars@.skip(start as int),
            trim_end(rest) == trim_end(rest.take(end - start)),
        decreases end,
    {
        assert(rest.take(end - start).drop_last() =~= rest.take(end - start - 1));
        assert(rest.take(end - start).last() == chars@[end - 1]);
        end = end - 1;
    }
    let mut t: Vec<char> = Vec::new();
    let mut i = start;
    while i < end
        invariant
            start <= i <= end <= chars@.len(),
            t@ == chars@.subrange(start as int, i as int),
        decreases end - i,
    {
        t.push(chars[i]);
        assert(t@ =~= chars@.subrange(start as int, i + 1));
        i = i + 1;
    }
    assert(t@ =~= rest.take(end - start));
    t
}

/// A localized name in locale `locale`.
pub open spec fn name_in(locale: Seq<char>) -> spec_fn(LocalizedName) -> bool {
    |name: LocalizedName| name.locale@ == locale
}

/// The English display name of an item, if any.
pub open spec fn english_name(item: EconomyItemDefinition) -> Option<Seq<char>> {
    match first_index(item.localized_names@, name_in("en"@)) {
        Some(k) => Some(item.localized_names@[k].name@),
        None => None,
    }
}

/// A name still awaiting its content: blank once trimmed, or ending in `---`.
pub open spec fn placeholder_name(name: Seq<char>) -> bool {
    trimmed(name).len() == 0 || has_suffix(trimmed(name), "---"@)
}

/// The stock row the catalog shows for an item: priced items with a resolved
/// English name, carrying the town's durable counts for the material (zero
/// when it has none) at the catalog price.
pub open spec fn catalog_row(item: EconomyItemDefinition, durable: Seq<DurableMaterialStock>) -> Option<DurableMaterialStock> {
    match item.town_pays_hunter_gold_per_unit {
        None => None,
        Some(price) => match english_name(item) {
            None => None,
            Some(name) => if placeholder_name(name) {
                None
            } else {
                let existing = first_index(durable, stock_has_id(item.item_id@));
                Some(
                    DurableMaterialStock {
                        id: item.item_id,
                        town_quantity: match existing {
                            Some(k) => durable[k].town_quantity,
                            None => 0,
                        },
                        hunter_quantity: match existing {
                            Some(k) => durable[k].hunter_quantity,
                            None => 0,
                        },
                        requested: match existing {
                            Some(k) => durable[k].requested,
                            None => 0,
                        },
                        unit_price: price,
                    },
                )
            },
        },
    }
}

/// The first item of the catalog with its id.
pub open spec fn first_item_with_id(items: Seq<EconomyItemDefinition>, i: int) -> bool {
    forall|j: int| 0 <= j < i ==> #[trigger] items[j].item_id@ != items[i].item_id@
}

/// The first durable stock with its id.
pub open spec fn first_stock_with_id(durable: Seq<DurableMaterialStock>, k: int) -> bool {
    forall|j: int| 0 <= j < k ==> #[trigger] durable[j].id@ != durable[k].id@
}

/// A durable stock the catalog keeps though its material left the catalog.
pub open spec fn kept_stock(items: Seq<EconomyItemDefinition>, durable: Seq<DurableMaterialStock>, k: int) -> bool {
    0 <= k < durable.len() && first_stock_with_id(durable, k) && find_item(items, durable[k].id@) is None
}

/// A row the catalog shows.
pub open spec fn shown_row(
    items: Seq<EconomyItemDefinition>,
    durable: Seq<DurableMaterialStock>,
    row: DurableMaterialStock,
) -> bool {
    ||| exists|i: int| 0 <= i < items.len() && first_item_with_id(items, i) && #[trigger] catalog_row(items[i], durable) == Some(row)
    ||| exists|k: int| kept_stock(items, durable, k) && #[trigger] durable[k] == row
}

/// The place of a material in the catalog: its index `n` for `material:<n>`
/// (as std parses a `usize`), and past every index otherwise.
pub open spec fn catalog_order(id: Seq<char>) -> int {
    let prefix = "material:"@;
    if has_prefix(id, prefix) {
        match parse_bounded(id.subrange(prefix.len() as int, id.len() as int), usize::MAX as nat) {
            Some(n) => n as int,
            None => usize::MAX as int,
        }
    } else {
        usize::MAX as int
    }
}

/// Catalog order: by material index, then by id.
pub open spec fn listed_before(a: DurableMaterialStock, b: DurableMaterialStock) -> bool {
    catalog_order(a.id@) < catalog_order(b.id@) || (catalog_order(a.id@) == catalog_order(b.id@) && lex_lt(
        a.id@,
        b.id@,
    ))
}

/// The catalog order of a material id.
fn catalog_order_of(id: &str) -> (order: usize)
    ensures
        order as int == catalog_order(id@),
{
    let chars = chars_of(id);
    let prefix = chars_of("material:");
    if !starts_with(&chars, &prefix) {
        return usize::MAX;
    }
    match parse_decimal(&chars, prefix.len(), chars.len(), usize::MAX as u64) {
        Some(n) => n as usize,
        None => usize::MAX,
    }
}

/// Whether `a` lists before `b`.
fn lists_before(a: &DurableMaterialStock, a_order: usize, b: &DurableMaterialStock, b_order: usize) -> (before: bool)
    requires
        a_order as int == catalog_order(a.id@),
        b_order as int == catalog_order(b.id@),
    ensures
        before == listed_before(*a, *b),
{
    a_order < b_order || (a_order == b_order && str_lt(a.id.as_str(), b.id.as_str()))
}

/// Two rows with different ids are listed one way or the other, never both.
proof fn lemma_listed_total(a: DurableMaterialStock, b: DurableMaterialStock)
    requires
        a.id@ != b.id@,
    ensures
        listed_before(a, b) != listed_before(b, a),
{
    lemma_lex_total(a.id@, b.id@);
    lemma_lex_asymmetric(a.id@, b.id@);
}

/// Catalog order is transitive.
proof fn lemma_listed_transitive(a: DurableMaterialStock, b: DurableMaterialStock, c: DurableMaterialStock)
    requires
        listed_before(a, b),
        listed_before(b, c),
    ensures
        listed_before(a, c),
{
    if catalog_order(a.id@) == catalog_order(b.id@) && catalog_order(b.id@) == catalog_order(c.id@) {
        lemma_lex_transitive(a.id@, b.id@, c.id@);
    }
}

/// Rows in strict catalog order.
pub open spec fn in_catalog_order(rows: Seq<DurableMaterialStock>) -> bool {
    forall|i: int, j: int| 0 <= i < j < rows.len() ==> listed_before(#[trigger] rows[i], #[trigger] rows[j])
}

/// Rows whose ids differ from `id`.
pub open spec fn lacks_id(rows: Seq<DurableMaterialStock>, id: Seq<char>) -> bool {
    forall|i: int| 0 <= i < rows.len() ==> #[trigger] rows[i].id@ != id
}

/// Places `row` into rows kept in catalog order, with the order of each row
/// alongside it.
fn insert_in_order(rows: &mut Vec<DurableMaterialStock>, orders: &mut Vec<usize>, row: DurableMaterialStock)
    requires
        in_catalog_order(old(rows)@),
        lacks_id(old(rows)@, row.id@),
        old(orders)@.len() == old(rows)@.len(),
        forall|i: int| 0 <= i < old(rows)@.len() ==> #[trigger] old(orders)@[i] as int == catalog_order(old(rows)@[i].id@),
    ensures
        in_catalog_order(final(rows)@),
        final(orders)@.len() == final(rows)@.len(),
        forall|i: int| 0 <= i < final(rows)@.len() ==> #[trigger] final(orders)@[i] as int == catalog_order(final(rows)@[i].id@),
        forall|x: DurableMaterialStock| final(rows)@.contains(x) <==> (old(rows)@.contains(x) || x == row),
{
    let order = catalog_order_of(row.id.as_str());
    let mut i: usize = 0;
    while i < rows.len()
        invariant
            0 <= i <= rows@.len(),
            rows@ == old(rows)@,
            orders@ == old(orders)@,
            orders@.len() == rows@.len(),
            order as int == catalog_order(row.id@),
            forall|k: int| 0 <= k < rows@.len() ==> #[trigger] orders@[k] as int == catalog_order(rows@[k].id@),
            forall|k: int| 0 <= k < i ==> listed_before(#[trigger] rows@[k], row),
            lacks_id(rows@, row.id@),
        ensures
            0 <= i <= rows@.len(),
            i < rows@.len() ==> listed_before(row, rows@[i as int]),
        decreases rows@.len() - i,
    {
        if lists_before(&row, order, &rows[i as usize], orders[i]) {
            break;
        }
        proof {
            lemma_listed_total(rows@[i as int], row);
        }
        i = i + 1;
    }
    let ghost before = rows@;
    proof {
        assert forall|k: int| i <= k < before.len() implies listed_before(row, #[trigger] before[k]) by {
            if k > i {
                assert(listed_before(row, before[i as int]));
                lemma_listed_transitive(row, before[i as int], before[k]);
            }
        }
    }
    rows.insert(i, row);
    orders.insert(i, order);
    let ghost after = rows@;
    assert forall|a: int, b: int| 0 <= a < b < after.len() implies listed_before(#[trigger] after[a], #[trigger] after[b]) by {
        if b < i {
            assert(after[a] == before[a] && after[b] == before[b]);
        } else if b == i {
            assert(after[a] == before[a]);
        } else if a < i {
            assert(after[a] == before[a] && after[b] == before[b - 1]);
            lemma_listed_transitive(before[a], row, before[b - 1]);
        } else if a == i {
            assert(after[b] == before[b - 1]);
        } else {
            assert(after[a] == before[a - 1] && after[b] == before[b - 1]);
        }
    }
    assert forall|k: int| 0 <= k < after.len() implies #[trigger] orders@[k] as int == catalog_order(after[k].id@) by {
        if k > i {
            assert(after[k] == before[k - 1]);
        } else if k < i {
            assert(after[k] == before[k]);
        }
    }
    assert forall|x: DurableMaterialStock| after.contains(x) <==> (before.contains(x) || x == row) by {
        if after.contains(x) {
            let k = choose|k: int| 0 <= k < after.len() && after[k] == x;
            if k < i {
                assert(before[k] == x);
            } else if k > i {
                assert(before[k - 1] == x);
            }
        }
        if before.contains(x) {
            let k = choose|k: int| 0 <= k < before.len() && before[k] == x;
            if k < i {
                assert(after[k] == x);
            } else {
                assert(after[k + 1] == x);
            }
        }
        if x == row {
            assert(after[i as int] == x);
        }
    }
}

/// No item carries an id that `find_item` does not find.
proof fn lemma_find_item_none(items: Seq<EconomyItemDefinition>, id: Seq<char>)
    requires
        find_item(items, id) is None,
    ensures
        forall|i: int| 0 <= i < items.len() ==> #[trigger] items[i].item_id@ != id,
    decreases items.len(),
{
    if items.len() > 0 {
        lemma_find_item_none(items.drop_first(), id);
        assert forall|i: int| 0 < i < items.len() implies #[trigger] items[i].item_id@ != id by {
            assert(items[i] == items.drop_first()[i - 1]);
        }
    }
}

/// The English display name of an item.
fn english_name_of(item: &EconomyItemDefinition) -> (name: Option<&String>)
    ensures
        name matches Some(n) ==> english_name(*item) == Some(n@),
        name is None ==> english_name(*item) is None,
{
    let names = &item.localized_names;
    let mut k: usize = 0;
    while k < names.len()
        invariant
            0 <= k <= names@.len(),
            names@ == item.localized_names@,
            forall|j: int| 0 <= j < k ==> !name_in("en"@)(#[trigger] names@[j]),
        decreases names@.len() - k,
    {
        if str_eq(names[k].locale.as_str(), "en") {
            proof {
                lemma_first_index_is(names@, name_in("en"@), k as int);
            }
            return Some(&names[k].name);
        }
        k = k + 1;
    }
    proof {
        lemma_first_index_none(names@, name_in("en"@));
    }
    None
}

/// The first durable stock with material `id`.
fn find_durable(durable: &[DurableMaterialStock], id: &str) -> (index: Option<usize>)
    ensures
        index matches Some(k) ==> first_index(durable@, stock_has_id(id@)) == Some(k as int) && k < durable@.len(),
        index is None ==> first_index(durable@, stock_has_id(id@)) is None,
{
    let mut k: usize = 0;
    while k < durable.len()
        invariant
            0 <= k <= durable@.len(),
            forall|j: int| 0 <= j < k ==> !stock_has_id(id@)(#[trigger] durable@[j]),
        decreases durable@.len() - k,
    {
        if str_eq(durable[k].id.as_str(), id) {
            proof {
                lemma_first_index_is(durable@, stock_has_id(id@), k as int);
            }
            return Some(k);
        }
        k = k + 1;
    }
    proof {
        lemma_first_index_none(durable@, stock_has_id(id@));
    }
    None
}

/// The catalog row of an item (see [`catalog_row`]).
fn catalog_row_of(item: &EconomyItemDefinition, durable: &[DurableMaterialStock]) -> (row: Option<DurableMaterialStock>)
    ensures
        row == catalog_row(*item, durable@),
{
    let price = match item.town_pays_hunter_gold_per_unit {
        Some(price) => price,
        None => {
            return None;
        },
    };
    let name = match english_name_of(item) {
        Some(name) => name,
        None => {
            return None;
        },
    };
    let shown = trimmed_chars(name.as_str());
    let dashes = chars_of("---");
    if shown.len() == 0 || ends_with(&shown, &dashes) {
        return None;
    }
    let (town_quantity, hunter_quantity, requested) = match find_durable(durable, item.item_id.as_str()) {
        Some(k) => (durable[k].town_quantity, durable[k].hunter_quantity, durable[k].requested),
        None => (0, 0, 0),
    };
    Some(
        DurableMaterialStock {
            id: item.item_id.clone(),
            town_quantity,
            hunter_quantity,
            requested,
            unit_price: price,
        },
    )
}

/// The Trading Post's material catalog: the catalog rows of the priced
/// items with a resolved English name (the first item of each id), together
/// with the durable stocks whose material is no longer in the catalog (the
/// first of each id), listed by material index and then by id.
pub fn material_catalog_stocks(gameplay: &BuildingGameplayCatalog, durable: &[DurableMaterialStock]) -> (stocks: Vec<
    DurableMaterialStock,
>)
    ensures
        in_catalog_order(stocks@),
        forall|x: DurableMaterialStock| stocks@.contains(x) <==> shown_row(gameplay.items@, durable@, x),
{
    let items = &gameplay.items;
    let mut rows: Vec<DurableMaterialStock> = Vec::new();
    let mut orders: Vec<usize> = Vec::new();
    let mut i: usize = 0;
    while i < items.len()
        invariant
            0 <= i <= items@.len(),
            items@ == gameplay.items@,
            in_catalog_order(rows@),
            orders@.len() == rows@.len(),
            forall|k: int| 0 <= k < rows@.len() ==> #[trigger] orders@[k] as int == catalog_order(rows@[k].id@),
            forall|x: DurableMaterialStock|
                rows@.contains(x) <==> exists|a: int|
                    0 <= a < i && first_item_with_id(items@, a) && #[trigger] catalog_row(items@[a], durable@) == Some(x),
        decreases items@.len() - i,
    {
        let mut first = true;
        let mut j: usize = 0;
        while j < i
            invariant
                0 <= j <= i < items@.len(),
                first == forall|b: int| 0 <= b < j ==> #[trigger] items@[b].item_id@ != items@[i as int].item_id@,
            decreases i - j,
        {
            if str_eq(items[j].item_id.as_str(), items[i].item_id.as_str()) {
                first = false;
            }
            j = j + 1;
        }
        let ghost before = rows@;
        if first {
            match catalog_row_of(&items[i], durable) {
                Some(row) => {
                    proof {
                        assert forall|k: int| 0 <= k < before.len() implies #[trigger] before[k].id@ != row.id@ by {
                            assert(before.contains(before[k]));
                            let a = choose|a: int|
                                0 <= a < i && first_item_with_id(items@, a) && #[trigger] catalog_row(items@[a], durable@)
                                    == Some(before[k]);
                            assert(items@[a].item_id@ != items@[i as int].item_id@);
                        }
                    }
                    insert_in_order(&mut rows, &mut orders, row);
                },
                None => {},
            }
        }
        proof {
            assert forall|x: DurableMaterialStock|
                (exists|a: int|
                    0 <= a < i + 1 && first_item_with_id(items@, a) && #[trigger] catalog_row(items@[a], durable@) == Some(x))
                    implies rows@.contains(x) by {
                let a = choose|a: int|
                    0 <= a < i + 1 && first_item_with_id(items@, a) && #[trigger] catalog_row(items@[a], durable@) == Some(x);
                if a == i {
                    assert(first);
                } else {
                    assert(before.contains(x));
                }
            }
        }
        i = i + 1;
    }
    let mut k: usize = 0;
    while k < durable.len()
        invariant
            0 <= k <= durable@.len(),
            items@ == gameplay.items@,
            in_catalog_order(rows@),
            orders@.len() == rows@.len(),
            forall|m: int| 0 <= m < rows@.len() ==> #[trigger] orders@[m] as int == catalog_order(rows@[m].id@),
            forall|x: DurableMaterialStock|
                rows@.contains(x) <==> ((exists|a: int|
                    0 <= a < items@.len() && first_item_with_id(items@, a) && #[trigger] catalog_row(items@[a], durable@)
                        == Some(x)) || (exists|b: int| 0 <= b < k && kept_stock(items@, durable@, b) && #[trigger] durable@[b]
                    == x)),
        decreases durable@.len() - k,
    {
        let mut first = true;
        let mut j: usize = 0;
        while j < k
            invariant
                0 <= j <= k < durable@.len(),
                first == forall|b: int| 0 <= b < j ==> #[trigger] durable@[b].id@ != durable@[k as int].id@,
            decreases k - j,
        {
            if str_eq(durable[j].id.as_str(), durable[k].id.as_str()) {
                first = false;
            }
            j = j + 1;
        }
        let ghost before = rows@;
        if first && gameplay.item(durable[k].id.as_str()).is_none() {
            let stock = &durable[k];
            let row = DurableMaterialStock {
                id: stock.id.clone(),
                town_quantity: stock.town_quantity,
                hunter_quantity: stock.hunter_quantity,
                requested: stock.requested,
                unit_price: stock.unit_price,
            };
            proof {
                lemma_find_item_none(items@, row.id@);
                assert forall|m: int| 0 <= m < before.len() implies #[trigger] before[m].id@ != row.id@ by {
                    assert(before.contains(before[m]));
                    if exists|b: int| 0 <= b < k && kept_stock(items@, durable@, b) && #[trigger] durable@[b] == before[m] {
                        let b = choose|b: int| 0 <= b < k && kept_stock(items@, durable@, b) && #[trigger] durable@[b] == before[m];
                        assert(durable@[b].id@ != durable@[k as int].id@);
                    } else {
                        let a = choose|a: int|
                            0 <= a < items@.len() && first_item_with_id(items@, a) && #[trigger] catalog_row(items@[a], durable@)
                                == Some(before[m]);
                        assert(items@[a].item_id@ != row.id@);
                    }
                }
            }
            insert_in_order(&mut rows, &mut orders, row);
        }
        proof {
            assert forall|x: DurableMaterialStock|
                (exists|b: int| 0 <= b < k + 1 && kept_stock(items@, durable@, b) && #[trigger] durable@[b] == x)
                    implies rows@.contains(x) by {
                let b = choose|b: int| 0 <= b < k + 1 && kept_stock(items@, durable@, b) && #[trigger] durable@[b] == x;
                if b < k {
                    assert(before.contains(x));
                }
            }
        }
        k = k + 1;
    }
    rows
}

/// The name of an item in `locale`: its first localized name there.
pub open spec fn localized_name(item: EconomyItemDefinition, locale: Seq<char>) -> Option<Seq<char>> {
    match first_index(item.localized_names@, name_in(locale)) {
        Some(k) => Some(item.localized_names@[k].name@),
        None => None,
    }
}

/// The name of an item in `locale`.
pub fn localized_name_of<'a>(item: &'a EconomyItemDefinition, locale: &str) -> (name: Option<&'a String>)
    ensures
        name matches Some(n) ==> localized_name(*item, locale@) == Some(n@),
        name is None ==> localized_name(*item, locale@) is None,
{
    let names = &item.localized_names;
    let mut k: usize = 0;
    while k < names.len()
        invariant
            0 <= k <= names@.len(),
            names@ == item.localized_names@,
            forall|j: int| 0 <= j < k ==> !name_in(locale@)(#[trigger] names@[j]),
        decreases names@.len() - k,
    {
        if str_eq(names[k].locale.as_str(), locale) {
            proof {
                lemma_first_index_is(names@, name_in(locale@), k as int);
            }
            return Some(&names[k].name);
        }
        k = k + 1;
    }
    proof {
        lemma_first_index_none(names@, name_in(locale@));
    }
    None
}

} // verus!
