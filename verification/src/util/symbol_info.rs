//! Metadata of a tradable symbol.

use vstd::prelude::*;

verus! {

/// The full symbol entity as the server sent it: its id, and its
/// serialized form for whoever needs the rest.
#[derive(Debug, Clone, PartialEq, Eq)]
pub struct SymbolEntity {
    pub symbol_id: i64,
    pub encoded: Vec<u8>,
}

/// A symbol with its asset class and the decimals of its two assets.
#[derive(Debug, Clone, PartialEq, Eq)]
pub struct SpotwareSymbolInfo {
    pub name: String,
    pub asset_class: String,
    pub info: SymbolEntity,
    pub base_decimals: u8,
    pub quote_decimals: u8,
}

/// Mathematical value of a [`SpotwareSymbolInfo`].
pub struct SymbolInfoView {
    pub name: Seq<char>,
    pub asset_class: Seq<char>,
    pub symbol_id: i64,
    pub encoded: Seq<u8>,
    pub base_decimals: u8,
    pub quote_decimals: u8,
}

impl View for SpotwareSymbolInfo {
    type V = SymbolInfoView;

    open spec fn view(&self) -> SymbolInfoView {
        SymbolInfoView {
            name: self.name@,
            asset_class: self.asset_class@,
            symbol_id: self.info.symbol_id,
            encoded: self.info.encoded@,
            base_decimals: self.base_decimals,
            quote_decimals: self.quote_decimals,
        }
    }
}

impl SpotwareSymbolInfo {
    /// A copy of the symbol.
    pub fn duplicate(&self) -> (c: SpotwareSymbolInfo)
        ensures
            c@ == self@,
    {
        SpotwareSymbolInfo {
            name: self.name.clone(),
            asset_class: self.asset_class.clone(),
            info: SymbolEntity {
                symbol_id: self.info.symbol_id,
                encoded: vstd::slice::slice_to_vec(self.info.encoded.as_slice()),
            },
            base_decimals: self.base_decimals,
            quote_decimals: self.quote_decimals,
        }
    }
}

/// An asset class of the account.
#[derive(Debug, Clone, PartialEq, Eq)]
pub struct AssetClass {
    pub id: i64,
    pub name: String,
}

/// An asset of the account: its id and the number of its decimals.
#[derive(Debug, Clone, Copy, PartialEq, Eq, Structural)]
pub struct Asset {
    pub asset_id: i64,
    pub digits: i32,
}

/// A symbol category: its id and the asset class it belongs to.
#[derive(Debug, Clone, Copy, PartialEq, Eq, Structural)]
pub struct SymbolCategory {
    pub id: i64,
    pub asset_class_id: i64,
}

/// A symbol as the symbol list names it.
#[derive(Debug, Clone, PartialEq, Eq)]
pub struct LightSymbol {
    pub symbol_id: i64,
    pub symbol_name: String,
    pub enabled: bool,
    pub base_asset_id: i64,
    pub quote_asset_id: i64,
    pub symbol_category_id: i64,
}

/// The ids of the enabled symbols of a list, in its order.
pub open spec fn enabled_ids(symbols: Seq<LightSymbol>) -> Seq<i64>
    decreases symbols.len(),
{
    if symbols.len() == 0 {
        Seq::empty()
    } else if symbols.last().enabled {
        enabled_ids(symbols.drop_last()).push(symbols.last().symbol_id)
    } else {
        enabled_ids(symbols.drop_last())
    }
}

/// The ids of the enabled symbols: the full entities of these are asked for.
pub fn enabled_symbol_ids(symbols: &Vec<LightSymbol>) -> (ids: Vec<i64>)
    ensures
        ids@ == enabled_ids(symbols@),
{
    let mut ids: Vec<i64> = Vec::new();
    let mut i: usize = 0;
    assert(symbols@.take(0) =~= Seq::empty());
    while i < symbols.len()
        invariant
            i <= symbols@.len(),
            ids@ == enabled_ids(symbols@.take(i as int)),
        decreases symbols@.len() - i,
    {
        assert(symbols@.take(i + 1).drop_last() =~= symbols@.take(i as int));
        if symbols[i].enabled {
            ids.push(symbols[i].symbol_id);
        }
        i += 1;
    }
    assert(symbols@.take(i as int) =~= symbols@);
    ids
}

/// The asset class of a category: that of the last category with this id.
pub open spec fn class_of_category(categories: Seq<SymbolCategory>, id: i64) -> Option<i64>
    decreases categories.len(),
{
    if categories.len() == 0 {
        None
    } else if categories.last().id == id {
        Some(categories.last().asset_class_id)
    } else {
        class_of_category(categories.drop_last(), id)
    }
}

/// The name of an asset class: that of the last class with this id.
pub open spec fn name_of_class(classes: Seq<AssetClass>, id: i64) -> Option<Seq<char>>
    decreases classes.len(),
{
    if classes.len() == 0 {
        None
    } else if classes.last().id == id {
        Some(classes.last().name@)
    } else {
        name_of_class(classes.drop_last(), id)
    }
}

/// The decimals of an asset: those of the last asset with this id.
pub open spec fn digits_of_asset(assets: Seq<Asset>, id: i64) -> Option<i32>
    decreases assets.len(),
{
    if assets.len() == 0 {
        None
    } else if assets.last().asset_id == id {
        Some(assets.last().digits)
    } else {
        digits_of_asset(assets.drop_last(), id)
    }
}

/// The serialized full entity of a symbol: that of the last entity with this id.
pub open spec fn entity_of_symbol(entities: Seq<SymbolEntity>, id: i64) -> Option<Seq<u8>>
    decreases entities.len(),
{
    if entities.len() == 0 {
        None
    } else if entities.last().symbol_id == id {
        Some(entities.last().encoded@)
    } else {
        entity_of_symbol(entities.drop_last(), id)
    }
}

/// The lists that a symbol is joined with.
pub struct Catalogue {
    pub asset_classes: Seq<AssetClass>,
    pub assets: Seq<Asset>,
    pub categories: Seq<SymbolCategory>,
    pub entities: Seq<SymbolEntity>,
}

/// A symbol with the name of its asset class, its full entity and the
/// decimals of its two assets (of which the low eight bits are kept);
/// `None` where its category, the category's asset class, one of its
/// assets or its entity is not in the lists.
pub open spec fn joined_symbol(c: Catalogue, symbol: LightSymbol) -> Option<SymbolInfoView> {
    match class_of_category(c.categories, symbol.symbol_category_id) {
        None => None,
        Some(class_id) => match (
            name_of_class(c.asset_classes, class_id),
            entity_of_symbol(c.entities, symbol.symbol_id),
            digits_of_asset(c.assets, symbol.base_asset_id),
            digits_of_asset(c.assets, symbol.quote_asset_id),
        ) {
            (Some(asset_class), Some(encoded), Some(base), Some(quote)) => Some(
                SymbolInfoView {
                    name: symbol.symbol_name@,
                    asset_class,
                    symbol_id: symbol.symbol_id,
                    encoded,
                    base_decimals: base as u8,
                    quote_decimals: quote as u8,
                },
            ),
            _ => None,
        },
    }
}

/// Where a symbol goes into a list sorted by id: behind every symbol
/// whose id is not greater.
pub open spec fn place(s: Seq<SymbolInfoView>, x: SymbolInfoView) -> int
    decreases s.len(),
{
    if s.len() == 0 || s[0].symbol_id > x.symbol_id {
        0
    } else {
        1 + place(s.drop_first(), x)
    }
}

/// The enabled symbols of a list, joined and sorted by id, symbols of one
/// id in the order of the list; `None` where one of them cannot be joined.
pub open spec fn joined_sorted(c: Catalogue, symbols: Seq<LightSymbol>) -> Option<
    Seq<SymbolInfoView>,
>
    decreases symbols.len(),
{
    if symbols.len() == 0 {
        Some(Seq::empty())
    } else {
        match joined_sorted(c, symbols.drop_last()) {
            None => None,
            Some(sorted) => if symbols.last().enabled {
                match joined_symbol(c, symbols.last()) {
                    None => None,
                    Some(info) => Some(sorted.insert(place(sorted, info), info)),
                }
            } else {
                Some(sorted)
            },
        }
    }
}

/// Whether a list is sorted by id.
pub open spec fn sorted_by_id(s: Seq<SymbolInfoView>) -> bool {
    forall|i: int, j: int| 0 <= i < j < s.len() ==> s[i].symbol_id <= s[j].symbol_id
}

proof fn lemma_place(s: Seq<SymbolInfoView>, x: SymbolInfoView)
    requires
        sorted_by_id(s),
    ensures
        0 <= place(s, x) <= s.len(),
        forall|i: int| 0 <= i < place(s, x) ==> s[i].symbol_id <= x.symbol_id,
        forall|i: int| place(s, x) <= i < s.len() ==> s[i].symbol_id > x.symbol_id,
        sorted_by_id(s.insert(place(s, x), x)),
    decreases s.len(),
{
    if s.len() == 0 || s[0].symbol_id > x.symbol_id {
    } else {
        let t = s.drop_first();
        assert(sorted_by_id(t)) by {
            assert forall|i: int, j: int| 0 <= i < j < t.len() implies t[i].symbol_id
                <= t[j].symbol_id by {
                assert(t[i] == s[i + 1] && t[j] == s[j + 1]);
            }
        }
        lemma_place(t, x);
        assert forall|i: int| 0 <= i < place(s, x) implies s[i].symbol_id <= x.symbol_id by {
            if i > 0 {
                assert(s[i] == t[i - 1]);
            }
        }
        assert forall|i: int| place(s, x) <= i < s.len() implies s[i].symbol_id
            > x.symbol_id by {
            assert(s[i] == t[i - 1]);
        }
    }
    let p = place(s, x);
    let r = s.insert(p, x);
    assert forall|i: int, j: int| 0 <= i < j < r.len() implies r[i].symbol_id
        <= r[j].symbol_id by {
        if i < p {
            assert(r[i] == s[i]);
        } else if i > p {
            assert(r[i] == s[i - 1]);
        }
        if j < p {
            assert(r[j] == s[j]);
        } else if j > p {
            assert(r[j] == s[j - 1]);
        }
    }
}

/// The joined list is sorted by id and holds each enabled symbol once
/// for each time that the list names it.
pub proof fn law_joined_sorted(c: Catalogue, symbols: Seq<LightSymbol>)
    ensures
        joined_sorted(c, symbols) matches Some(list) ==> sorted_by_id(list) && list.len()
            == enabled_ids(symbols).len() && list.map_values(|v: SymbolInfoView| v.symbol_id).to_multiset()
            == enabled_ids(symbols).to_multiset(),
    decreases symbols.len(),
{
    broadcast use vstd::seq_lib::to_multiset_insert, vstd::seq_lib::to_multiset_build;

    if symbols.len() > 0 {
        law_joined_sorted(c, symbols.drop_last());
        if let Some(sorted) = joined_sorted(c, symbols.drop_last()) {
            if symbols.last().enabled {
                if let Some(info) = joined_symbol(c, symbols.last()) {
                    lemma_place(sorted, info);
                    let p = place(sorted, info);
                    let ids = sorted.map_values(|v: SymbolInfoView| v.symbol_id);
                    assert(sorted.insert(p, info).map_values(|v: SymbolInfoView| v.symbol_id)
                        =~= ids.insert(p, info.symbol_id));
                }
            }
        }
    } else {
        assert(Seq::<SymbolInfoView>::empty().map_values(|v: SymbolInfoView| v.symbol_id)
            =~= Seq::<i64>::empty());
    }
}

fn find_category(categories: &Vec<SymbolCategory>, id: i64) -> (r: Option<i64>)
    ensures
        r == class_of_category(categories@, id),
{
    let mut i: usize = categories.len();
    assert(categories@.take(i as int) =~= categories@);
    while i > 0
        invariant
            i <= categories@.len(),
            class_of_category(categories@, id) == class_of_category(categories@.take(i as int), id),
        decreases i,
    {
        assert(categories@.take(i as int).drop_last() =~= categories@.take(i - 1));
        if categories[i - 1].id == id {
            return Some(categories[i - 1].asset_class_id);
        }
        i -= 1;
    }
    None
}

fn find_class<'a>(classes: &'a Vec<AssetClass>, id: i64) -> (r: Option<&'a String>)
    ensures
        match r {
            Some(name) => name_of_class(classes@, id) == Some(name@),
            None => name_of_class(classes@, id).is_none(),
        },
{
    let mut i: usize = classes.len();
    assert(classes@.take(i as int) =~= classes@);
    while i > 0
        invariant
            i <= classes@.len(),
            name_of_class(classes@, id) == name_of_class(classes@.take(i as int), id),
        decreases i,
    {
        assert(classes@.take(i as int).drop_last() =~= classes@.take(i - 1));
        if classes[i - 1].id == id {
            return Some(&classes[i - 1].name);
        }
        i -= 1;
    }
    None
}

fn find_asset(assets: &Vec<Asset>, id: i64) -> (r: Option<i32>)
    ensures
        r == digits_of_asset(assets@, id),
{
    let mut i: usize = assets.len();
    assert(assets@.take(i as int) =~= assets@);
    while i > 0
        invariant
            i <= assets@.len(),
            digits_of_asset(assets@, id) == digits_of_asset(assets@.take(i as int), id),
        decreases i,
    {
        assert(assets@.take(i as int).drop_last() =~= assets@.take(i - 1));
        if assets[i - 1].asset_id == id {
            return Some(assets[i - 1].digits);
        }
        i -= 1;
    }
    None
}

fn find_entity<'a>(entities: &'a Vec<SymbolEntity>, id: i64) -> (r: Option<&'a SymbolEntity>)
    ensures
        match r {
            Some(e) => entity_of_symbol(entities@, id) == Some(e.encoded@) && e.symbol_id == id,
            None => entity_of_symbol(entities@, id).is_none(),
        },
{
    let mut i: usize = entities.len();
    assert(entities@.take(i as int) =~= entities@);
    while i > 0
        invariant
            i <= entities@.len(),
            entity_of_symbol(entities@, id) == entity_of_symbol(entities@.take(i as int), id),
        decreases i,
    {
        assert(entities@.take(i as int).drop_last() =~= entities@.take(i - 1));
        if entities[i - 1].symbol_id == id {
            return Some(&entities[i - 1]);
        }
        i -= 1;
    }
    None
}

/// The views of a list of symbols.
pub open spec fn symbol_views(infos: Seq<SpotwareSymbolInfo>) -> Seq<SymbolInfoView> {
    infos.map_values(|i: SpotwareSymbolInfo| i@)
}

/// Joins the enabled symbols of the symbol list with their asset class,
/// their full entity and the decimals of their assets, sorted by id: see
/// [`joined_sorted`]. Returns `None` where a symbol names a category, an
/// asset class, an asset or an entity that the lists do not hold.
pub fn get_symbol_infos(
    asset_classes: &Vec<AssetClass>,
    assets: &Vec<Asset>,
    categories: &Vec<SymbolCategory>,
    symbols: &Vec<LightSymbol>,
    entities: &Vec<SymbolEntity>,
) -> (r: Option<Vec<SpotwareSymbolInfo>>)
    ensures
        match r {
            Some(list) => joined_sorted(
                Catalogue {
                    asset_classes: asset_classes@,
                    assets: assets@,
                    categories: categories@,
                    entities: entities@,
                },
                symbols@,
            ) == Some(symbol_views(list@)),
            None => joined_sorted(
                Catalogue {
                    asset_classes: asset_classes@,
                    assets: assets@,
                    categories: categories@,
                    entities: entities@,
                },
                symbols@,
            ).is_none(),
        },
{
    let ghost c = Catalogue {
        asset_classes: asset_classes@,
        assets: assets@,
        categories: categories@,
        entities: entities@,
    };
    let mut list: Vec<SpotwareSymbolInfo> = Vec::new();
    let mut i: usize = 0;
    assert(symbols@.take(0) =~= Seq::empty());
    assert(symbol_views(list@) =~= Seq::empty());
    while i < symbols.len()
        invariant
            i <= symbols@.len(),
            c == (Catalogue {
                asset_classes: asset_classes@,
                assets: assets@,
                categories: categories@,
                entities: entities@,
            }),
            joined_sorted(c, symbols@.take(i as int)) == Some(symbol_views(list@)),
        decreases symbols@.len() - i,
    {
        let symbol = &symbols[i];
        assert(symbols@.take(i + 1).drop_last() =~= symbols@.take(i as int));
        assert(symbols@.take(i + 1).last() == *symbol);
        proof {
            lemma_none_stays_none(c, symbols@, i + 1);
        }
        if symbol.enabled {
            let class_id = match find_category(categories, symbol.symbol_category_id) {
                Some(id) => id,
                None => { return None; },
            };
            let class_name = match find_class(asset_classes, class_id) {
                Some(name) => name,
                None => { return None; },
            };
            let entity = match find_entity(entities, symbol.symbol_id) {
                Some(e) => e,
                None => { return None; },
            };
            let base = match find_asset(assets, symbol.base_asset_id) {
                Some(d) => d,
                None => { return None; },
            };
            let quote = match find_asset(assets, symbol.quote_asset_id) {
                Some(d) => d,
                None => { return None; },
            };
            let info = SpotwareSymbolInfo {
                name: symbol.symbol_name.clone(),
                asset_class: class_name.clone(),
                info: SymbolEntity {
                    symbol_id: symbol.symbol_id,
                    encoded: vstd::slice::slice_to_vec(entity.encoded.as_slice()),
                },
                base_decimals: #[verifier::truncate]
                (base as u8),
                quote_decimals: #[verifier::truncate]
                (quote as u8),
            };
            assert(joined_symbol(c, *symbol) == Some(info@));
            let ghost before = symbol_views(list@);
            let mut p: usize = 0;
            assert(before.skip(0) =~= before);
            while p < list.len() && list[p].info.symbol_id <= symbol.symbol_id
                invariant
                    p <= list@.len(),
                    before == symbol_views(list@),
                    info@.symbol_id == symbol.symbol_id,
                    place(before, info@) == p + place(before.skip(p as int), info@),
                decreases list@.len() - p,
            {
                assert(before.skip(p as int)[0] == list@[p as int]@);
                assert(before.skip(p as int).drop_first() =~= before.skip(p + 1));
                p += 1;
            }
            assert(place(before, info@) == p) by {
                if p < list@.len() {
                    assert(before.skip(p as int)[0] == list@[p as int]@);
                }
            }
            list.insert(p, info);
            assert(symbol_views(list@) =~= before.insert(p as int, info@));
        }
        i += 1;
    }
    assert(symbols@.take(i as int) =~= symbols@);
    Some(list)
}

proof fn lemma_none_stays_none(c: Catalogue, symbols: Seq<LightSymbol>, k: int)
    requires
        0 <= k <= symbols.len(),
    ensures
        joined_sorted(c, symbols.take(k)).is_none() ==> joined_sorted(c, symbols).is_none(),
    decreases symbols.len() - k,
{
    if k < symbols.len() {
        assert(symbols.take(k + 1).drop_last() =~= symbols.take(k));
        lemma_none_stays_none(c, symbols, k + 1);
    } else {
        assert(symbols.take(k) =~= symbols);
    }
}

} // verus!
