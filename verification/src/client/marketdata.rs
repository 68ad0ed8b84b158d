//! The subscriptions of a session: what was subscribed, in the order in
//! which it was first subscribed, each entry once.

use crate::client::request::{request_views, ApiRequest, ApiRequestView};
use vstd::prelude::*;

verus! {

/// One live-bar subscription: period and symbol.
pub type BarKey = (i32, i64);

/// `s` with `x` at its end, unless `s` holds it already.
pub open spec fn with_entry<T>(s: Seq<T>, x: T) -> Seq<T> {
    if s.contains(x) {
        s
    } else {
        s.push(x)
    }
}

/// `s` with the entries of `xs` added one by one.
pub open spec fn with_entries<T>(s: Seq<T>, xs: Seq<T>) -> Seq<T>
    decreases xs.len(),
{
    if xs.len() == 0 {
        s
    } else {
        with_entry(with_entries(s, xs.drop_last()), xs.last())
    }
}

/// `s` without `x`, for a list that holds no entry twice.
pub open spec fn without_entry<T>(s: Seq<T>, x: T) -> Seq<T> {
    if s.contains(x) {
        s.remove(s.index_of(x))
    } else {
        s
    }
}

/// `s` with the entries of `xs` taken out one by one.
pub open spec fn without_entries<T>(s: Seq<T>, xs: Seq<T>) -> Seq<T>
    decreases xs.len(),
{
    if xs.len() == 0 {
        s
    } else {
        without_entry(without_entries(s, xs.drop_last()), xs.last())
    }
}

/// Mathematical value of [`Subscriptions`].
pub struct SubscriptionsView {
    pub spots: Seq<i64>,
    pub bars: Seq<BarKey>,
    pub depths: Seq<i64>,
}

/// The requests that restore the subscriptions after a reconnect: one for
/// all spot symbols, one for all depth symbols, then one for each live
/// bar, each list in the order in which it was recorded. An empty list
/// has no request.
pub open spec fn replay(account_id: i64, v: SubscriptionsView) -> Seq<ApiRequestView> {
    let spots = if v.spots.len() > 0 {
        seq![
            ApiRequestView::SubscribeSpots {
                account_id,
                symbol_ids: v.spots,
                with_timestamp: true,
            },
        ]
    } else {
        Seq::empty()
    };
    let depths = if v.depths.len() > 0 {
        seq![ApiRequestView::SubscribeDepthQuotes { account_id, symbol_ids: v.depths }]
    } else {
        Seq::empty()
    };
    spots + depths + Seq::new(
        v.bars.len(),
        |i: int|
            ApiRequestView::SubscribeLiveTrendbar {
                account_id,
                period: v.bars[i].0,
                symbol_id: v.bars[i].1,
            },
    )
}

/// The three subscription lists of a session.
#[derive(Debug)]
pub struct Subscriptions {
    spots: Vec<i64>,
    bars: Vec<BarKey>,
    depths: Vec<i64>,
}

impl View for Subscriptions {
    type V = SubscriptionsView;

    closed spec fn view(&self) -> SubscriptionsView {
        SubscriptionsView { spots: self.spots@, bars: self.bars@, depths: self.depths@ }
    }
}

fn position_of(list: &Vec<i64>, x: i64) -> (r: Option<usize>)
    requires
        list@.no_duplicates(),
    ensures
        match r {
            Some(i) => i < list@.len() && list@[i as int] == x && list@.index_of(x) == i,
            None => !list@.contains(x),
        },
{
    let mut i: usize = 0;
    while i < list.len()
        invariant
            i <= list@.len(),
            list@.no_duplicates(),
            forall|k: int| 0 <= k < i ==> list@[k] != x,
        decreases list@.len() - i,
    {
        if list[i] == x {
            proof {
                assert(list@.contains(x));
                let j = list@.index_of(x);
                assert(0 <= j < list@.len() && list@[j] == x);
            }
            return Some(i);
        }
        i += 1;
    }
    None
}

fn add_ids(list: &mut Vec<i64>, ids: &Vec<i64>)
    requires
        old(list)@.no_duplicates(),
    ensures
        final(list)@ == with_entries(old(list)@, ids@),
        final(list)@.no_duplicates(),
{
    let mut k: usize = 0;
    assert(ids@.take(0) =~= Seq::empty());
    while k < ids.len()
        invariant
            k <= ids@.len(),
            list@ == with_entries(old(list)@, ids@.take(k as int)),
            list@.no_duplicates(),
        decreases ids@.len() - k,
    {
        let id = ids[k];
        assert(ids@.take(k + 1).drop_last() =~= ids@.take(k as int));
        if position_of(list, id).is_none() {
            list.push(id);
        }
        k += 1;
    }
    assert(ids@.take(k as int) =~= ids@);
}

fn remove_ids(list: &mut Vec<i64>, ids: &Vec<i64>)
    requires
        old(list)@.no_duplicates(),
    ensures
        final(list)@ == without_entries(old(list)@, ids@),
        final(list)@.no_duplicates(),
{
    let mut k: usize = 0;
    assert(ids@.take(0) =~= Seq::empty());
    while k < ids.len()
        invariant
            k <= ids@.len(),
            list@ == without_entries(old(list)@, ids@.take(k as int)),
            list@.no_duplicates(),
        decreases ids@.len() - k,
    {
        let id = ids[k];
        assert(ids@.take(k + 1).drop_last() =~= ids@.take(k as int));
        match position_of(list, id) {
            Some(i) => {
                let ghost before = list@;
                list.remove(i);
                proof {
                    lemma_remove_keeps_distinct(before, i as int);
                }
            },
            None => {},
        }
        k += 1;
    }
    assert(ids@.take(k as int) =~= ids@);
}

proof fn lemma_remove_keeps_distinct<T>(s: Seq<T>, i: int)
    requires
        s.no_duplicates(),
        0 <= i < s.len(),
    ensures
        s.remove(i).no_duplicates(),
        !s.remove(i).contains(s[i]),
{
    let r = s.remove(i);
    assert forall|a: int, b: int| 0 <= a < r.len() && 0 <= b < r.len() && a != b implies r[a]
        != r[b] by {
        let a2 = if a < i { a } else { a + 1 };
        let b2 = if b < i { b } else { b + 1 };
        assert(r[a] == s[a2] && r[b] == s[b2]);
    }
    if r.contains(s[i]) {
        let a = choose|a: int| 0 <= a < r.len() && r[a] == s[i];
        let a2 = if a < i { a } else { a + 1 };
        assert(r[a] == s[a2]);
    }
}

fn position_of_bar(list: &Vec<BarKey>, period: i32, symbol_id: i64) -> (r: Option<usize>)
    requires
        list@.no_duplicates(),
    ensures
        match r {
            Some(i) => i < list@.len() && list@[i as int] == (period, symbol_id) && list@.index_of(
                (period, symbol_id),
            ) == i,
            None => !list@.contains((period, symbol_id)),
        },
{
    let mut i: usize = 0;
    while i < list.len()
        invariant
            i <= list@.len(),
            list@.no_duplicates(),
            forall|k: int| 0 <= k < i ==> list@[k] != (period, symbol_id),
        decreases list@.len() - i,
    {
        if list[i].0 == period && list[i].1 == symbol_id {
            proof {
                let x = (period, symbol_id);
                assert(list@[i as int] == x);
                assert(list@.contains(x));
                let j = list@.index_of(x);
                assert(0 <= j < list@.len() && list@[j] == x);
            }
            return Some(i);
        }
        i += 1;
    }
    None
}

impl Subscriptions {
    #[verifier::type_invariant]
    spec fn distinct(&self) -> bool {
        &&& self.spots@.no_duplicates()
        &&& self.bars@.no_duplicates()
        &&& self.depths@.no_duplicates()
    }

    /// No subscription.
    pub fn new() -> (s: Self)
        ensures
            s@ == (SubscriptionsView {
                spots: Seq::empty(),
                bars: Seq::empty(),
                depths: Seq::empty(),
            }),
    {
        Subscriptions { spots: Vec::new(), bars: Vec::new(), depths: Vec::new() }
    }

    /// The spot symbols, in the order in which they were subscribed.
    pub fn spots(&self) -> (r: Vec<i64>)
        ensures
            r@ == self@.spots,
            r@.no_duplicates(),
    {
        proof {
            use_type_invariant(self);
        }
        vstd::slice::slice_to_vec(self.spots.as_slice())
    }

    /// The depth symbols, in the order in which they were subscribed.
    pub fn depths(&self) -> (r: Vec<i64>)
        ensures
            r@ == self@.depths,
            r@.no_duplicates(),
    {
        proof {
            use_type_invariant(self);
        }
        vstd::slice::slice_to_vec(self.depths.as_slice())
    }

    /// The live bars, in the order in which they were subscribed.
    pub fn bars(&self) -> (r: Vec<BarKey>)
        ensures
            r@ == self@.bars,
            r@.no_duplicates(),
    {
        proof {
            use_type_invariant(self);
        }
        vstd::slice::slice_to_vec(self.bars.as_slice())
    }

    /// Records that the server acknowledged a subscription to
    /// (`add_or_delete`) or an unsubscription from the spot events of
    /// `symbol_ids`. A symbol already recorded is not recorded again; one
    /// not recorded is not missed.
    pub fn update_subscribe_spot(&mut self, symbol_ids: &Vec<i64>, add_or_delete: bool)
        ensures
            final(self)@ == (SubscriptionsView {
                spots: if add_or_delete {
                    with_entries(old(self)@.spots, symbol_ids@)
                } else {
                    without_entries(old(self)@.spots, symbol_ids@)
                },
                ..old(self)@
            }),
    {
        proof {
            use_type_invariant(&*self);
        }
        let mut taken = Subscriptions::new();
        std::mem::swap(self, &mut taken);
        let Subscriptions { mut spots, bars, depths } = taken;
        if add_or_delete {
            add_ids(&mut spots, symbol_ids);
        } else {
            remove_ids(&mut spots, symbol_ids);
        }
        *self = Subscriptions { spots, bars, depths };
    }

    /// Records that the server acknowledged a subscription to
    /// (`add_or_delete`) or an unsubscription from the depth of market of
    /// `symbol_ids`.
    pub fn update_subscribe_depth(&mut self, symbol_ids: &Vec<i64>, add_or_delete: bool)
        ensures
            final(self)@ == (SubscriptionsView {
                depths: if add_or_delete {
                    with_entries(old(self)@.depths, symbol_ids@)
                } else {
                    without_entries(old(self)@.depths, symbol_ids@)
                },
                ..old(self)@
            }),
    {
        proof {
            use_type_invariant(&*self);
        }
        let mut taken = Subscriptions::new();
        std::mem::swap(self, &mut taken);
        let Subscriptions { spots, bars, mut depths } = taken;
        if add_or_delete {
            add_ids(&mut depths, symbol_ids);
        } else {
            remove_ids(&mut depths, symbol_ids);
        }
        *self = Subscriptions { spots, bars, depths };
    }

    /// Records that the server acknowledged a subscription to
    /// (`add_or_delete`) or an unsubscription from the live bars of one
    /// period and symbol.
    pub fn update_subscribe_bar(&mut self, period: i32, symbol_id: i64, add_or_delete: bool)
        ensures
            final(self)@ == (SubscriptionsView {
                bars: if add_or_delete {
                    with_entry(old(self)@.bars, (period, symbol_id))
                } else {
                    without_entry(old(self)@.bars, (period, symbol_id))
                },
                ..old(self)@
            }),
    {
        proof {
            use_type_invariant(&*self);
        }
        let mut taken = Subscriptions::new();
        std::mem::swap(self, &mut taken);
        let Subscriptions { spots, mut bars, depths } = taken;
        let found = position_of_bar(&bars, period, symbol_id);
        if add_or_delete {
            if found.is_none() {
                bars.push((period, symbol_id));
            }
        } else {
            match found {
                Some(i) => {
                    let ghost before = bars@;
                    bars.remove(i);
                    proof {
                        lemma_remove_keeps_distinct(before, i as int);
                    }
                },
                None => {},
            }
        }
        *self = Subscriptions { spots, bars, depths };
    }

    /// The requests that restore the subscriptions: see [`replay`].
    pub fn resume_subscribe(&self, account_id: i64) -> (requests: Vec<ApiRequest>)
        ensures
            request_views(requests@) == replay(account_id, self@),
    {
        let mut requests: Vec<ApiRequest> = Vec::new();
        if self.spots.len() > 0 {
            requests.push(
                ApiRequest::SubscribeSpots {
                    account_id,
                    symbol_ids: self.spots(),
                    with_timestamp: true,
                },
            );
        }
        if self.depths.len() > 0 {
            requests.push(
                ApiRequest::SubscribeDepthQuotes { account_id, symbol_ids: self.depths() },
            );
        }
        let ghost head = request_views(requests@);
        let mut i: usize = 0;
        while i < self.bars.len()
            invariant
                i <= self.bars@.len(),
                request_views(requests@) == head + Seq::new(
                    i as nat,
                    |k: int|
                        ApiRequestView::SubscribeLiveTrendbar {
                            account_id,
                            period: self.bars@[k].0,
                            symbol_id: self.bars@[k].1,
                        },
                ),
            decreases self.bars@.len() - i,
        {
            let (period, symbol_id) = self.bars[i];
            let ghost before = request_views(requests@);
            requests.push(ApiRequest::SubscribeLiveTrendbar { account_id, period, symbol_id });
            i += 1;
            assert(request_views(requests@) =~= before.push(
                ApiRequestView::SubscribeLiveTrendbar { account_id, period, symbol_id },
            ));
            assert(request_views(requests@) =~= head + Seq::new(
                i as nat,
                |k: int|
                    ApiRequestView::SubscribeLiveTrendbar {
                        account_id,
                        period: self.bars@[k].0,
                        symbol_id: self.bars@[k].1,
                    },
            ));
        }
        assert(request_views(requests@) =~= replay(account_id, self@));
        requests
    }
}

/// Adding entries keeps what was recorded, in its order, at the front.
pub proof fn law_added_keeps_order<T>(s: Seq<T>, xs: Seq<T>)
    ensures
        s.is_prefix_of(with_entries(s, xs)),
        s.no_duplicates() ==> with_entries(s, xs).no_duplicates(),
        forall|x: T| with_entries(s, xs).contains(x) <==> s.contains(x) || xs.contains(x),
    decreases xs.len(),
{
    if xs.len() > 0 {
        let t = with_entries(s, xs.drop_last());
        law_added_keeps_order(s, xs.drop_last());
        let r = with_entry(t, xs.last());
        assert(s.is_prefix_of(r)) by {
            assert(s.len() <= r.len());
            assert forall|i: int| 0 <= i < s.len() implies s[i] == r[i] by {
                assert(s[i] == t[i]);
            }
            assert(s =~= r.subrange(0, s.len() as int));
        }
        if s.no_duplicates() && !t.contains(xs.last()) {
            assert forall|a: int, b: int| 0 <= a < r.len() && 0 <= b < r.len() && a != b implies r[a]
                != r[b] by {
                if a < t.len() {
                    assert(t.contains(r[a]));
                }
                if b < t.len() {
                    assert(t.contains(r[b]));
                }
            }
        }
        assert forall|x: T| r.contains(x) <==> s.contains(x) || xs.contains(x) by {
            if r.contains(x) {
                let i = choose|i: int| 0 <= i < r.len() && r[i] == x;
                if i < t.len() {
                    assert(t[i] == x);
                    assert(t.contains(x));
                    if xs.drop_last().contains(x) {
                        let j = choose|j: int| 0 <= j < xs.drop_last().len() && xs.drop_last()[j] == x;
                        assert(xs[j] == x);
                    }
                } else {
                    assert(x == xs.last());
                    assert(xs[xs.len() - 1] == x);
                }
            }
            if s.contains(x) || xs.contains(x) {
                if s.contains(x) {
                    assert(t.contains(x));
                } else {
                    let j = choose|j: int| 0 <= j < xs.len() && xs[j] == x;
                    if j < xs.len() - 1 {
                        assert(xs.drop_last()[j] == x);
                        assert(t.contains(x));
                    }
                }
                if t.contains(x) {
                    let i = choose|i: int| 0 <= i < t.len() && t[i] == x;
                    assert(r[i] == x);
                } else {
                    assert(x == xs.last());
                    assert(r[r.len() - 1] == x);
                }
            }
        }
    } else {
        assert(s =~= s.subrange(0, s.len() as int));
    }
}

/// Reconnect replay: the replay names every recorded subscription, each
/// list in the order in which it was recorded.
pub proof fn law_replay_in_insertion_order(account_id: i64, v: SubscriptionsView)
    ensures
        v.spots.len() > 0 ==> replay(account_id, v)[0] == (ApiRequestView::SubscribeSpots {
            account_id,
            symbol_ids: v.spots,
            with_timestamp: true,
        }),
        v.depths.len() > 0 ==> replay(account_id, v)[if v.spots.len() > 0 {
            1int
        } else {
            0int
        }] == (ApiRequestView::SubscribeDepthQuotes { account_id, symbol_ids: v.depths }),
        replay(account_id, v).len() == (if v.spots.len() > 0 {
            1nat
        } else {
            0nat
        }) + (if v.depths.len() > 0 {
            1nat
        } else {
            0nat
        }) + v.bars.len(),
        forall|i: int|
            0 <= i < v.bars.len() ==> #[trigger] replay(account_id, v)[replay(account_id, v).len()
                - v.bars.len() + i] == (ApiRequestView::SubscribeLiveTrendbar {
                account_id,
                period: v.bars[i].0,
                symbol_id: v.bars[i].1,
            }),
{
}

} // verus!
