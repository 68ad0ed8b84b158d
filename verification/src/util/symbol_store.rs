//! Lookup of symbols by name and by id.

use crate::util::symbol_info::{SpotwareSymbolInfo, SymbolInfoView};
use vstd::hash_map::{HashMapWithView, StringHashMap};
use vstd::prelude::*;

verus! {

broadcast use vstd::std_specs::hash::group_hash_axioms;

/// Mathematical value of a [`SymbolStore`]: its three maps.
pub struct SymbolStoreView {
    pub symbol_to_id: Map<Seq<char>, i64>,
    pub id_to_symbol: Map<i64, Seq<char>>,
    pub symbol_to_info: Map<Seq<char>, SymbolInfoView>,
    /// The ids, each once, in the order in which they were first added.
    pub ids: Seq<i64>,
}

/// The empty store.
pub open spec fn empty_store() -> SymbolStoreView {
    SymbolStoreView {
        symbol_to_id: Map::empty(),
        id_to_symbol: Map::empty(),
        symbol_to_info: Map::empty(),
        ids: Seq::empty(),
    }
}

/// The store with one more symbol: its name leads to its id and to the
/// symbol, its id to its name. An earlier entry under the same key is
/// replaced. An id that the store did not know joins the list of ids at
/// its end.
pub open spec fn with_info(v: SymbolStoreView, info: SymbolInfoView) -> SymbolStoreView {
    SymbolStoreView {
        symbol_to_id: v.symbol_to_id.insert(info.name, info.symbol_id),
        id_to_symbol: v.id_to_symbol.insert(info.symbol_id, info.name),
        symbol_to_info: v.symbol_to_info.insert(info.name, info),
        ids: if v.id_to_symbol.contains_key(info.symbol_id) {
            v.ids
        } else {
            v.ids.push(info.symbol_id)
        },
    }
}

/// The store with the symbols of `infos` added in their order.
pub open spec fn with_infos(v: SymbolStoreView, infos: Seq<SymbolInfoView>) -> SymbolStoreView
    decreases infos.len(),
{
    if infos.len() == 0 {
        v
    } else {
        with_info(with_infos(v, infos.drop_last()), infos.last())
    }
}

/// The views of a list of symbols.
pub open spec fn info_views(infos: Seq<SpotwareSymbolInfo>) -> Seq<SymbolInfoView> {
    infos.map_values(|i: SpotwareSymbolInfo| i@)
}

/// Symbols by name and by id.
pub struct SymbolStore {
    symbol_to_id: StringHashMap<i64>,
    id_to_symbol: HashMapWithView<i64, String>,
    symbol_to_info: StringHashMap<SpotwareSymbolInfo>,
    ids: Vec<i64>,
}

spec fn ids_match(ids: Seq<i64>, by_id: Map<i64, String>) -> bool {
    &&& ids.no_duplicates()
    &&& forall|id: i64| ids.contains(id) <==> by_id.contains_key(id)
}

impl View for SymbolStore {
    type V = SymbolStoreView;

    closed spec fn view(&self) -> SymbolStoreView {
        SymbolStoreView {
            symbol_to_id: self.symbol_to_id@,
            id_to_symbol: self.id_to_symbol@.map_values(|s: String| s@),
            symbol_to_info: self.symbol_to_info@.map_values(|i: SpotwareSymbolInfo| i@),
            ids: self.ids@,
        }
    }
}

impl SymbolStore {
    #[verifier::type_invariant]
    spec fn well_formed(&self) -> bool {
        ids_match(self.ids@, self.id_to_symbol@)
    }

    /// The empty store.
    pub fn new() -> (s: Self)
        ensures
            s@ == empty_store(),
    {
        let s = SymbolStore {
            symbol_to_id: StringHashMap::new(),
            id_to_symbol: HashMapWithView::new(),
            symbol_to_info: StringHashMap::new(),
            ids: Vec::new(),
        };
        assert(s@.id_to_symbol =~= Map::empty());
        assert(s@.symbol_to_info =~= Map::empty());
        s
    }

    /// Adds the symbols of `infos` in their order.
    pub fn from_symbol_infos(&mut self, infos: &Vec<SpotwareSymbolInfo>)
        ensures
            final(self)@ == with_infos(old(self)@, info_views(infos@)),
    {
        proof {
            use_type_invariant(&*self);
        }
        let mut store = SymbolStore::new();
        std::mem::swap(self, &mut store);
        let SymbolStore { mut symbol_to_id, mut id_to_symbol, mut symbol_to_info, mut ids } = store;
        let ghost views = info_views(infos@);
        let mut k: usize = 0;
        assert(views.take(0) =~= Seq::empty());
        while k < infos.len()
            invariant
                k <= infos@.len(),
                views == info_views(infos@),
                ids_match(ids@, id_to_symbol@),
                (SymbolStoreView {
                    symbol_to_id: symbol_to_id@,
                    id_to_symbol: id_to_symbol@.map_values(|s: String| s@),
                    symbol_to_info: symbol_to_info@.map_values(|i: SpotwareSymbolInfo| i@),
                    ids: ids@,
                }) == with_infos(old(self)@, views.take(k as int)),
            decreases infos@.len() - k,
        {
            let info = &infos[k];
            let id = info.info.symbol_id;
            let ghost before_ids = id_to_symbol@;
            let ghost before_infos = symbol_to_info@;
            let ghost before_list = ids@;
            if !id_to_symbol.contains_key(&id) {
                ids.push(id);
            }
            symbol_to_id.insert(info.name.clone(), id);
            id_to_symbol.insert(id, info.name.clone());
            let copy = info.duplicate();
            symbol_to_info.insert(info.name.clone(), copy);
            proof {
                assert(views.take(k + 1).drop_last() =~= views.take(k as int));
                assert(views.take(k + 1).last() == info@);
                assert(id_to_symbol@.map_values(|s: String| s@) =~= before_ids.map_values(
                    |s: String| s@,
                ).insert(id, info.name@));
                assert(symbol_to_info@.map_values(|i: SpotwareSymbolInfo| i@)
                    =~= before_infos.map_values(|i: SpotwareSymbolInfo| i@).insert(
                    info.name@,
                    info@,
                ));
                assert(forall|x: i64|
                    id_to_symbol@.contains_key(x) <==> (x == id || before_ids.contains_key(x)));
                if before_ids.contains_key(id) {
                    assert(ids@ == before_list);
                } else {
                    assert(ids@ == before_list.push(id));
                    assert(!before_list.contains(id));
                    assert forall|i: int, j: int|
                        0 <= i < ids@.len() && 0 <= j < ids@.len() && i != j implies ids@[i]
                        != ids@[j] by {
                        if i < before_list.len() {
                            assert(before_list.contains(ids@[i]));
                        }
                        if j < before_list.len() {
                            assert(before_list.contains(ids@[j]));
                        }
                    }
                    assert forall|x: i64| ids@.contains(x) <==> id_to_symbol@.contains_key(x) by {
                        if ids@.contains(x) {
                            let i = choose|i: int| 0 <= i < ids@.len() && ids@[i] == x;
                            if i < before_list.len() {
                                assert(before_list.contains(x));
                            }
                        }
                        if id_to_symbol@.contains_key(x) {
                            if x == id {
                                assert(ids@[ids@.len() - 1] == x);
                            } else {
                                assert(before_list.contains(x));
                                let i = choose|i: int|
                                    0 <= i < before_list.len() && before_list[i] == x;
                                assert(ids@[i] == x);
                            }
                        }
                    }
                }
            }
            k += 1;
        }
        assert(views.take(k as int) =~= views);
        *self = SymbolStore { symbol_to_id, id_to_symbol, symbol_to_info, ids };
    }

    /// A store of the symbols of `infos`.
    pub fn build_from_symbol_infos(infos: Vec<SpotwareSymbolInfo>) -> (s: Self)
        ensures
            s@ == with_infos(empty_store(), info_views(infos@)),
    {
        let mut result = Self::new();
        result.from_symbol_infos(&infos);
        result
    }

    /// The ids of all symbols, each once, in the order in which they were
    /// first added.
    pub fn get_ids(&self) -> (r: Vec<i64>)
        ensures
            r@ == self@.ids,
            r@.no_duplicates(),
            forall|id: i64| r@.contains(id) <==> self@.id_to_symbol.contains_key(id),
    {
        proof {
            use_type_invariant(self);
        }
        let r = vstd::slice::slice_to_vec(self.ids.as_slice());
        r
    }

    /// The name of the symbol with this id.
    pub fn get_name_by_id(&self, id: i64) -> (r: Option<&String>)
        ensures
            match r {
                Some(name) => self@.id_to_symbol.contains_key(id) && self@.id_to_symbol[id]
                    == name@,
                None => !self@.id_to_symbol.contains_key(id),
            },
    {
        self.id_to_symbol.get(&id)
    }

    /// The id of the symbol with this name.
    pub fn get_id_by_name(&self, symbol_name: &str) -> (r: Option<i64>)
        ensures
            match r {
                Some(id) => self@.symbol_to_id.contains_key(symbol_name@)
                    && self@.symbol_to_id[symbol_name@] == id,
                None => !self@.symbol_to_id.contains_key(symbol_name@),
            },
    {
        match self.symbol_to_id.get(symbol_name) {
            Some(id) => Some(*id),
            None => None,
        }
    }

    /// The symbol with this name.
    pub fn get_info_by_name<'a>(&'a self, symbol_name: &str) -> (r: Option<
        &'a SpotwareSymbolInfo,
    >)
        ensures
            match r {
                Some(info) => self@.symbol_to_info.contains_key(symbol_name@)
                    && self@.symbol_to_info[symbol_name@] == info@,
                None => !self@.symbol_to_info.contains_key(symbol_name@),
            },
    {
        self.symbol_to_info.get(symbol_name)
    }

    /// The symbol that the name of this id leads to.
    pub fn get_info_by_id(&self, id: i64) -> (r: Option<&SpotwareSymbolInfo>)
        ensures
            match r {
                Some(info) => {
                    &&& self@.id_to_symbol.contains_key(id)
                    &&& self@.symbol_to_info.contains_key(self@.id_to_symbol[id])
                    &&& self@.symbol_to_info[self@.id_to_symbol[id]] == info@
                },
                None => !self@.id_to_symbol.contains_key(id) || !self@.symbol_to_info.contains_key(
                    self@.id_to_symbol[id],
                ),
            },
    {
        let name = self.get_name_by_id(id);
        if let Some(symbol_name) = name {
            return self.symbol_to_info.get(symbol_name.as_str());
        }
        None
    }
}

} // verus!
