use vstd::prelude::*;

verus! {

/// One side of the book.
#[derive(Clone, Copy, Debug, PartialEq, Eq)]
pub enum OrderbookSide {
    Ask,
    Bid,
}

/// The subscription that a push message answers.
#[derive(PartialEq, Debug)]
pub struct OrderbookArg {
    pub channel: String,
    pub inst_id: String,
}

/// One price level: price, size, liquidated-order count, total order count.
/// All four are kept as the exact decimal text that the feed sent.
pub type Order = (String, String, String, String);

/// One complete state of the book.
#[derive(PartialEq, Debug)]
pub struct OrderbookDataElement {
    pub asks: Vec<Order>,
    pub bids: Vec<Order>,
    pub ts: String,
    pub checksum: i64,
}

pub type OrderbookData = Vec<OrderbookDataElement>;

/// What the feed pushes. Today there is one variant.
#[derive(PartialEq, Debug)]
pub enum WebsocketPushData {
    Orderbook { arg: OrderbookArg, action: String, data: OrderbookData },
}

/// A level as four character sequences, in wire order.
pub type OrderModel = (Seq<char>, Seq<char>, Seq<char>, Seq<char>);

pub open spec fn order_model(order: Order) -> OrderModel {
    (order.0@, order.1@, order.2@, order.3@)
}

/// The levels of one side, in feed order.
pub open spec fn orders_model(orders: Seq<Order>) -> Seq<OrderModel> {
    Seq::new(orders.len(), |i: int| order_model(orders[i]))
}

/// Mathematical value of a snapshot.
pub struct SnapshotModel {
    pub asks: Seq<OrderModel>,
    pub bids: Seq<OrderModel>,
    pub ts: Seq<char>,
    pub checksum: i64,
}

/// A copy of the levels of one side, in the same order.
pub fn copy_orders(orders: &Vec<Order>) -> (copy: Vec<Order>)
    ensures
        orders_model(copy@) == orders_model(orders@),
{
    let mut copy: Vec<Order> = Vec::new();
    let mut next: usize = 0;
    while next < orders.len()
        invariant
            next <= orders@.len(),
            copy@.len() == next,
            forall|i: int| 0 <= i < next ==> order_model(#[trigger] copy@[i]) == order_model(orders@[i]),
        decreases orders@.len() - next,
    {
        let order = &orders[next];
        copy.push((order.0.clone(), order.1.clone(), order.2.clone(), order.3.clone()));
        next = next + 1;
    }
    assert(orders_model(copy@) =~= orders_model(orders@));
    copy
}

impl OrderbookDataElement {
    /// A copy of the snapshot: the same levels in the same order, the same
    /// timestamp and checksum.
    pub fn duplicate(&self) -> (copy: OrderbookDataElement)
        ensures
            copy@ == self@,
    {
        OrderbookDataElement {
            asks: copy_orders(&self.asks),
            bids: copy_orders(&self.bids),
            ts: self.ts.clone(),
            checksum: self.checksum,
        }
    }
}

impl View for OrderbookDataElement {
    type V = SnapshotModel;

    open spec fn view(&self) -> SnapshotModel {
        SnapshotModel {
            asks: orders_model(self.asks@),
            bids: orders_model(self.bids@),
            ts: self.ts@,
            checksum: self.checksum,
        }
    }
}

pub open spec fn snapshots_model(data: Seq<OrderbookDataElement>) -> Seq<SnapshotModel> {
    Seq::new(data.len(), |i: int| data[i]@)
}

/// Mathematical value of a push message.
pub struct PushModel {
    pub channel: Seq<char>,
    pub inst_id: Seq<char>,
    pub action: Seq<char>,
    pub data: Seq<SnapshotModel>,
}

impl View for WebsocketPushData {
    type V = PushModel;

    open spec fn view(&self) -> PushModel {
        match *self {
            WebsocketPushData::Orderbook { arg, action, data } => PushModel {
                channel: arg.channel@,
                inst_id: arg.inst_id@,
                action: action@,
                data: snapshots_model(data@),
            },
        }
    }
}

impl WebsocketPushData {
    /// A message is well formed when it carries at least one snapshot.
    pub open spec fn well_formed(&self) -> bool {
        self@.data.len() > 0
    }

    /// Whether the message carries a snapshot to persist.
    pub fn has_snapshot(&self) -> (present: bool)
        ensures
            present == self.well_formed(),
    {
        match self {
            WebsocketPushData::Orderbook { data, .. } => data.len() > 0,
        }
    }

    /// The instrument that the message is about.
    pub fn instrument(&self) -> (id: &String)
        ensures
            id@ == self@.inst_id,
    {
        match self {
            WebsocketPushData::Orderbook { arg, .. } => &arg.inst_id,
        }
    }

    /// The snapshot that the sinks persist: the first one. Later ones are
    /// not consumed.
    pub fn first_snapshot(&self) -> (snapshot: &OrderbookDataElement)
        requires
            self.well_formed(),
        ensures
            snapshot@ == self@.data[0],
    {
        match self {
            WebsocketPushData::Orderbook { data, .. } => &data[0],
        }
    }
}

} // verus!
