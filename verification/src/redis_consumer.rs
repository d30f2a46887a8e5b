use vstd::prelude::*;
use crate::consumer::Consumer;
use crate::data_model::{
    order_model, orders_model, Order, OrderModel, OrderbookDataElement, OrderbookSide, PushModel,
    SnapshotModel, WebsocketPushData,
};

verus! {

/// One hash-set: under `key`, the field `field` takes `value`.
#[derive(Debug, PartialEq, Eq)]
pub struct HashWrite {
    pub key: String,
    pub field: String,
    pub value: String,
}

/// Mathematical value of a hash-set.
pub struct HashWriteModel {
    pub key: Seq<char>,
    pub field: Seq<char>,
    pub value: Seq<char>,
}

impl View for HashWrite {
    type V = HashWriteModel;

    open spec fn view(&self) -> HashWriteModel {
        HashWriteModel { key: self.key@, field: self.field@, value: self.value@ }
    }
}

pub open spec fn writes_model(writes: Seq<HashWrite>) -> Seq<HashWriteModel> {
    Seq::new(writes.len(), |i: int| writes[i]@)
}

pub open spec fn side_name(side: OrderbookSide) -> Seq<char> {
    match side {
        OrderbookSide::Ask => "asks"@,
        OrderbookSide::Bid => "bids"@,
    }
}

/// The key of one side of one instrument: `orderbook:{instrument}:{side}`.
pub open spec fn side_key(instrument: Seq<char>, side: OrderbookSide) -> Seq<char> {
    "orderbook"@ + ":"@ + instrument + ":"@ + side_name(side)
}

/// The value stored for a level: size, liquidated orders and total orders,
/// with commas between.
pub open spec fn level_value(order: OrderModel) -> Seq<char> {
    order.1 + ","@ + order.2 + ","@ + order.3
}

/// The hash-set of one level: the field is the price.
pub open spec fn level_write(
    instrument: Seq<char>,
    side: OrderbookSide,
    order: OrderModel,
) -> HashWriteModel {
    HashWriteModel { key: side_key(instrument, side), field: order.0, value: level_value(order) }
}

/// The hash-sets of one side: one for each level, in feed order.
pub open spec fn side_writes(
    instrument: Seq<char>,
    side: OrderbookSide,
    orders: Seq<OrderModel>,
) -> Seq<HashWriteModel> {
    Seq::new(orders.len(), |i: int| level_write(instrument, side, orders[i]))
}

/// The hash-sets of a snapshot: the asks, then the bids.
pub open spec fn snapshot_writes(instrument: Seq<char>, snapshot: SnapshotModel) -> Seq<
    HashWriteModel,
> {
    side_writes(instrument, OrderbookSide::Ask, snapshot.asks) + side_writes(
        instrument,
        OrderbookSide::Bid,
        snapshot.bids,
    )
}

/// A key-value store of hashes: key, then field, then value.
pub type Store = Map<Seq<char>, Map<Seq<char>, Seq<char>>>;

/// The value of a field, if the store has it.
pub open spec fn field_at(store: Store, key: Seq<char>, field: Seq<char>) -> Option<Seq<char>> {
    if store.dom().contains(key) && store[key].dom().contains(field) {
        Some(store[key][field])
    } else {
        None
    }
}

/// The store after one hash-set: the field takes the value, whatever it held.
pub open spec fn apply_write(store: Store, write: HashWriteModel) -> Store {
    let hash = if store.dom().contains(write.key) {
        store[write.key]
    } else {
        Map::empty()
    };
    store.insert(write.key, hash.insert(write.field, write.value))
}

/// The store after a run of hash-sets, first to last.
pub open spec fn apply_writes(store: Store, writes: Seq<HashWriteModel>) -> Store
    decreases writes.len(),
{
    if writes.len() == 0 {
        store
    } else {
        apply_write(apply_writes(store, writes.drop_last()), writes.last())
    }
}

/// The value that the last hash-set of `writes` on a field gives it.
pub open spec fn last_value(writes: Seq<HashWriteModel>, key: Seq<char>, field: Seq<char>) -> Option<
    Seq<char>,
>
    decreases writes.len(),
{
    if writes.len() == 0 {
        None
    } else if writes.last().key == key && writes.last().field == field {
        Some(writes.last().value)
    } else {
        last_value(writes.drop_last(), key, field)
    }
}

/// After a run of hash-sets a field holds what the last of them on it wrote,
/// and what it held before where none wrote it.
pub proof fn lemma_last_write_wins(
    store: Store,
    writes: Seq<HashWriteModel>,
    key: Seq<char>,
    field: Seq<char>,
)
    ensures
        field_at(apply_writes(store, writes), key, field) == match last_value(writes, key, field) {
            Some(value) => Some(value),
            None => field_at(store, key, field),
        },
    decreases writes.len(),
{
    if writes.len() > 0 {
        lemma_last_write_wins(store, writes.drop_last(), key, field);
    }
}

/// Writing the same hash-sets a second time changes no field: every field
/// holds after the second run what it held after the first.
pub proof fn lemma_write_twice_is_write_once(
    store: Store,
    writes: Seq<HashWriteModel>,
    key: Seq<char>,
    field: Seq<char>,
)
    ensures
        field_at(apply_writes(apply_writes(store, writes), writes), key, field) == field_at(
            apply_writes(store, writes),
            key,
            field,
        ),
{
    lemma_last_write_wins(store, writes, key, field);
    lemma_last_write_wins(apply_writes(store, writes), writes, key, field);
}

/// Writing the same snapshot of the same instrument twice leaves every
/// field as writing it once does.
pub proof fn lemma_snapshot_twice_is_once(
    store: Store,
    instrument: Seq<char>,
    snapshot: SnapshotModel,
    key: Seq<char>,
    field: Seq<char>,
)
    ensures
        field_at(
            apply_writes(
                apply_writes(store, snapshot_writes(instrument, snapshot)),
                snapshot_writes(instrument, snapshot),
            ),
            key,
            field,
        ) == field_at(apply_writes(store, snapshot_writes(instrument, snapshot)), key, field),
{
    lemma_write_twice_is_write_once(store, snapshot_writes(instrument, snapshot), key, field);
}

/// A run of hash-sets leaves every field of a key that none of them names
/// as it was.
pub proof fn lemma_other_keys_untouched(
    store: Store,
    writes: Seq<HashWriteModel>,
    key: Seq<char>,
    field: Seq<char>,
)
    requires
        forall|i: int| 0 <= i < writes.len() ==> (#[trigger] writes[i]).key != key,
    ensures
        field_at(apply_writes(store, writes), key, field) == field_at(store, key, field),
    decreases writes.len(),
{
    if writes.len() > 0 {
        let rest = writes.drop_last();
        assert forall|i: int| 0 <= i < rest.len() implies (#[trigger] rest[i]).key != key by {
            assert(rest[i] == writes[i]);
        }
        lemma_other_keys_untouched(store, rest, key, field);
        assert(writes.last() == writes[writes.len() - 1]);
    }
}

/// Writing the levels of one side changes no field of the other side.
pub proof fn lemma_sides_do_not_mix(
    store: Store,
    instrument: Seq<char>,
    orders: Seq<OrderModel>,
    field: Seq<char>,
)
    ensures
        field_at(
            apply_writes(store, side_writes(instrument, OrderbookSide::Ask, orders)),
            side_key(instrument, OrderbookSide::Bid),
            field,
        ) == field_at(store, side_key(instrument, OrderbookSide::Bid), field),
        field_at(
            apply_writes(store, side_writes(instrument, OrderbookSide::Bid, orders)),
            side_key(instrument, OrderbookSide::Ask),
            field,
        ) == field_at(store, side_key(instrument, OrderbookSide::Ask), field),
{
    lemma_side_keys_differ(instrument);
    lemma_other_keys_untouched(
        store,
        side_writes(instrument, OrderbookSide::Ask, orders),
        side_key(instrument, OrderbookSide::Bid),
        field,
    );
    lemma_other_keys_untouched(
        store,
        side_writes(instrument, OrderbookSide::Bid, orders),
        side_key(instrument, OrderbookSide::Ask),
        field,
    );
}

/// A field is written by a run of hash-sets exactly when one of them names
/// it.
pub proof fn lemma_written_fields(writes: Seq<HashWriteModel>, key: Seq<char>, field: Seq<char>)
    ensures
        last_value(writes, key, field) is Some <==> exists|i: int|
            0 <= i < writes.len() && (#[trigger] writes[i]).key == key && writes[i].field == field,
    decreases writes.len(),
{
    if writes.len() > 0 {
        let rest = writes.drop_last();
        let last = writes.len() - 1;
        lemma_written_fields(rest, key, field);
        if writes.last().key == key && writes.last().field == field {
            assert(writes[last].key == key && writes[last].field == field);
        } else {
            if last_value(rest, key, field) is Some {
                let i = choose|i: int|
                    0 <= i < rest.len() && (#[trigger] rest[i]).key == key && rest[i].field
                        == field;
                assert(writes[i] == rest[i]);
            }
            if exists|i: int|
                0 <= i < writes.len() && (#[trigger] writes[i]).key == key && writes[i].field
                    == field {
                let i = choose|i: int|
                    0 <= i < writes.len() && (#[trigger] writes[i]).key == key && writes[i].field
                        == field;
                assert(rest[i] == writes[i]);
            }
        }
    }
}

/// After the levels of one side are written, the fields under that side's
/// key are the prices of those levels and the fields that were there before,
/// and no others.
pub proof fn lemma_side_fields_are_prices(
    store: Store,
    instrument: Seq<char>,
    side: OrderbookSide,
    orders: Seq<OrderModel>,
    field: Seq<char>,
)
    ensures
        field_at(
            apply_writes(store, side_writes(instrument, side, orders)),
            side_key(instrument, side),
            field,
        ) is Some <==> (field_at(store, side_key(instrument, side), field) is Some || exists|
            i: int,
        |
            0 <= i < orders.len() && (#[trigger] orders[i]).0 == field),
{
    let writes = side_writes(instrument, side, orders);
    let key = side_key(instrument, side);
    lemma_last_write_wins(store, writes, key, field);
    lemma_written_fields(writes, key, field);
    if exists|i: int| 0 <= i < orders.len() && (#[trigger] orders[i]).0 == field {
        let i = choose|i: int| 0 <= i < orders.len() && (#[trigger] orders[i]).0 == field;
        assert(writes[i].key == key && writes[i].field == field);
    }
    if exists|i: int|
        0 <= i < writes.len() && (#[trigger] writes[i]).key == key && writes[i].field == field {
        let i = choose|i: int|
            0 <= i < writes.len() && (#[trigger] writes[i]).key == key && writes[i].field == field;
        assert(orders[i].0 == field);
    }
}

/// The two sides of an instrument never share a key.
pub proof fn lemma_side_keys_differ(instrument: Seq<char>)
    ensures
        side_key(instrument, OrderbookSide::Ask) != side_key(instrument, OrderbookSide::Bid),
{
    reveal_strlit("asks");
    reveal_strlit("bids");
    let head = "orderbook"@ + ":"@ + instrument + ":"@;
    let asks = side_key(instrument, OrderbookSide::Ask);
    let bids = side_key(instrument, OrderbookSide::Bid);
    assert(asks[head.len() as int] == 'a');
    assert(bids[head.len() as int] == 'b');
}

/// A snapshot with N ask levels and M bid levels gives N hash-sets under the
/// key of the asks, one for each ask level with its price as the field, then
/// M under the key of the bids, and the two keys differ.
pub proof fn lemma_sides_are_separate(instrument: Seq<char>, snapshot: SnapshotModel)
    ensures
        snapshot_writes(instrument, snapshot).len() == snapshot.asks.len() + snapshot.bids.len(),
        forall|i: int|
            0 <= i < snapshot.asks.len() ==> (#[trigger] snapshot_writes(instrument, snapshot)[i])
                == level_write(instrument, OrderbookSide::Ask, snapshot.asks[i]),
        forall|i: int|
            0 <= i < snapshot.bids.len() ==> (#[trigger] snapshot_writes(
                instrument,
                snapshot,
            )[snapshot.asks.len() + i]) == level_write(
                instrument,
                OrderbookSide::Bid,
                snapshot.bids[i],
            ),
        side_key(instrument, OrderbookSide::Ask) != side_key(instrument, OrderbookSide::Bid),
{
    lemma_side_keys_differ(instrument);
}

/// The key-value sink. It turns each message into the hash-sets of its first
/// snapshot and keeps them, in order, for the backend session to perform.
pub struct Redis {
    pub url: String,
    pub pending: Vec<HashWrite>,
    pub history: Ghost<Seq<PushModel>>,
}

impl Redis {
    /// The name of a side in a key.
    pub fn side_label(side: OrderbookSide) -> (label: &'static str)
        ensures
            label@ == side_name(side),
    {
        match side {
            OrderbookSide::Ask => "asks",
            OrderbookSide::Bid => "bids",
        }
    }

    /// The hash-set of one level.
    pub fn write_level(instrument: &str, side: OrderbookSide, order: &Order) -> (write: HashWrite)
        ensures
            write@ == level_write(instrument@, side, order_model(*order)),
    {
        let mut key = String::from_str("orderbook");
        key.append(":");
        key.append(instrument);
        key.append(":");
        key.append(Redis::side_label(side));
        let mut value = order.1.clone();
        value.append(",");
        value.append(order.2.as_str());
        value.append(",");
        value.append(order.3.as_str());
        HashWrite { key, field: order.0.clone(), value }
    }

    /// Adds the hash-sets of one side to the pending ones: one for each level,
    /// in feed order. Nothing is sorted, merged or left out.
    pub fn write_side(&mut self, instrument: &str, side: OrderbookSide, orders: &Vec<Order>)
        ensures
            writes_model(final(self).pending@) == writes_model(old(self).pending@) + side_writes(
                instrument@,
                side,
                orders_model(orders@),
            ),
            final(self).history == old(self).history,
            final(self).url == old(self).url,
    {
        let mut next: usize = 0;
        while next < orders.len()
            invariant
                next <= orders@.len(),
                self.pending@.len() == old(self).pending@.len() + next,
                forall|i: int|
                    0 <= i < old(self).pending@.len() ==> self.pending@[i] == old(
                        self,
                    ).pending@[i],
                forall|i: int|
                    0 <= i < next ==> (#[trigger] self.pending@[old(self).pending@.len() + i])@
                        == level_write(instrument@, side, order_model(orders@[i])),
                self.history == old(self).history,
                self.url == old(self).url,
            decreases orders@.len() - next,
        {
            let write = Redis::write_level(instrument, side, &orders[next]);
            self.pending.push(write);
            next = next + 1;
        }
        let ghost before = old(self).pending@.len() as int;
        let ghost joined = writes_model(old(self).pending@) + side_writes(
            instrument@,
            side,
            orders_model(orders@),
        );
        assert forall|k: int| 0 <= k < self.pending@.len() implies writes_model(self.pending@)[k]
            == joined[k] by {
            if k >= before {
                assert(self.pending@[before + (k - before)]@ == level_write(
                    instrument@,
                    side,
                    order_model(orders@[k - before]),
                ));
            }
        }
        assert(writes_model(self.pending@) =~= joined);
    }

    /// Adds the hash-sets of a snapshot: the asks, then the bids.
    pub fn write_orderbook(&mut self, instrument: &str, data: &OrderbookDataElement)
        ensures
            writes_model(final(self).pending@) == writes_model(old(self).pending@)
                + snapshot_writes(instrument@, data@),
            final(self).history == old(self).history,
            final(self).url == old(self).url,
    {
        self.write_side(instrument, OrderbookSide::Ask, &data.asks);
        self.write_side(instrument, OrderbookSide::Bid, &data.bids);
        assert(writes_model(self.pending@) =~= writes_model(old(self).pending@) + snapshot_writes(
            instrument@,
            data@,
        ));
    }

    /// Hands out the pending hash-sets, oldest first, and keeps none.
    pub fn take_pending(&mut self) -> (writes: Vec<HashWrite>)
        ensures
            writes@ == old(self).pending@,
            final(self).pending@.len() == 0,
            final(self).history == old(self).history,
            final(self).url == old(self).url,
    {
        let mut writes: Vec<HashWrite> = Vec::new();
        std::mem::swap(&mut writes, &mut self.pending);
        writes
    }
}

impl Consumer for Redis {
    open spec fn delivered(&self) -> Seq<PushModel> {
        self.history@
    }

    fn connect(url: &str) -> (sink: Redis)
        ensures
            sink.url@ == url@,
            sink.pending@.len() == 0,
    {
        Redis { url: String::from_str(url), pending: Vec::new(), history: Ghost(Seq::empty()) }
    }

    fn write(&mut self, data: &WebsocketPushData)
        ensures
            writes_model(final(self).pending@) == writes_model(old(self).pending@)
                + snapshot_writes(data@.inst_id, data@.data[0]),
            final(self).url == old(self).url,
    {
        self.write_orderbook(data.instrument().as_str(), data.first_snapshot());
        self.history = Ghost(self.history@.push(data@));
    }
}

} // verus!
