use vstd::prelude::*;
use crate::consumer::Consumer;
use crate::data_model::{OrderbookDataElement, PushModel, SnapshotModel, WebsocketPushData};

verus! {

/// The logical database that holds every collection of the sink.
pub const DATABASE: &'static str = "orderbook";

/// One insert: a document for a collection of a database.
#[derive(Debug, PartialEq)]
pub struct Insert {
    pub database: String,
    pub collection: String,
    pub document: OrderbookDataElement,
}

/// Mathematical value of an insert.
pub struct InsertModel {
    pub database: Seq<char>,
    pub collection: Seq<char>,
    pub document: SnapshotModel,
}

impl View for Insert {
    type V = InsertModel;

    open spec fn view(&self) -> InsertModel {
        InsertModel {
            database: self.database@,
            collection: self.collection@,
            document: self.document@,
        }
    }
}

pub open spec fn inserts_model(inserts: Seq<Insert>) -> Seq<InsertModel> {
    Seq::new(inserts.len(), |i: int| inserts[i]@)
}

/// The insert that a snapshot of an instrument becomes: the snapshot as it
/// is, into the collection named after the instrument.
pub open spec fn snapshot_insert(instrument: Seq<char>, snapshot: SnapshotModel) -> InsertModel {
    InsertModel { database: DATABASE@, collection: instrument, document: snapshot }
}

/// The document-store sink. It turns each message into one insert and keeps
/// the inserts, in order, for the backend session to perform.
pub struct MongoDB {
    pub url: String,
    pub pending: Vec<Insert>,
    pub history: Ghost<Seq<PushModel>>,
}

impl MongoDB {
    /// Adds the insert of one snapshot. Nothing that is pending is replaced
    /// or merged: each snapshot is a document of its own.
    pub fn write_orderbook(&mut self, instrument: &str, data: &OrderbookDataElement)
        ensures
            inserts_model(final(self).pending@) == inserts_model(old(self).pending@).push(
                snapshot_insert(instrument@, data@),
            ),
            final(self).history == old(self).history,
            final(self).url == old(self).url,
    {
        let insert = Insert {
            database: String::from_str(DATABASE),
            collection: String::from_str(instrument),
            document: data.duplicate(),
        };
        self.pending.push(insert);
        assert(inserts_model(self.pending@) =~= inserts_model(old(self).pending@).push(
            snapshot_insert(instrument@, data@),
        ));
    }

    /// Hands out the pending inserts, oldest first, and keeps none.
    pub fn take_pending(&mut self) -> (inserts: Vec<Insert>)
        ensures
            inserts@ == old(self).pending@,
            final(self).pending@.len() == 0,
            final(self).history == old(self).history,
            final(self).url == old(self).url,
    {
        let mut inserts: Vec<Insert> = Vec::new();
        std::mem::swap(&mut inserts, &mut self.pending);
        inserts
    }
}

impl Consumer for MongoDB {
    open spec fn delivered(&self) -> Seq<PushModel> {
        self.history@
    }

    fn connect(url: &str) -> (sink: MongoDB)
        ensures
            sink.url@ == url@,
            sink.pending@.len() == 0,
    {
        MongoDB { url: String::from_str(url), pending: Vec::new(), history: Ghost(Seq::empty()) }
    }

    fn write(&mut self, data: &WebsocketPushData)
        ensures
            inserts_model(final(self).pending@) == inserts_model(old(self).pending@).push(
                snapshot_insert(data@.inst_id, data@.data[0]),
            ),
            final(self).url == old(self).url,
    {
        self.write_orderbook(data.instrument().as_str(), data.first_snapshot());
        self.history = Ghost(self.history@.push(data@));
    }
}

} // verus!
