use vstd::prelude::*;
use crate::data_model::{PushModel, WebsocketPushData};

verus! {

/// A storage backend. The pipeline knows nothing of a sink but this.
pub trait Consumer {
    /// Every message that the sink was handed since it was connected, oldest
    /// first. A write that the backend refused is in it as well: the sink
    /// reports such a failure itself and hands nothing back. A sink states
    /// here how it keeps that record; of one that states nothing, nothing is
    /// proved.
    open spec fn delivered(&self) -> Seq<PushModel> {
        Seq::empty()
    }

    /// Opens the backend session.
    fn connect(url: &str) -> (sink: Self) where Self: Sized
        ensures
            sink.delivered() == Seq::<PushModel>::empty(),
    ;

    /// Persists the first snapshot of `data`.
    fn write(&mut self, data: &WebsocketPushData)
        requires
            data.well_formed(),
        ensures
            final(self).delivered() == old(self).delivered().push(data@),
    ;
}

/// What each sink of `sinks` has been handed, sink by sink.
pub open spec fn deliveries<C: Consumer>(sinks: Seq<C>) -> Seq<Seq<PushModel>> {
    Seq::new(sinks.len(), |i: int| sinks[i].delivered())
}

/// One dispatch cycle: hands `data` to every sink, in registration order.
/// No sink is skipped, whatever became of the writes before it.
pub fn dispatch<C: Consumer>(consumers: &mut Vec<C>, data: &WebsocketPushData)
    requires
        data.well_formed(),
    ensures
        final(consumers)@.len() == old(consumers)@.len(),
        forall|i: int|
            0 <= i < old(consumers)@.len() ==> #[trigger] final(consumers)@[i].delivered()
                == old(consumers)@[i].delivered().push(data@),
{
    let count: usize = consumers.len();
    let mut next: usize = 0;
    while next < count
        invariant
            next <= count,
            consumers@.len() == count,
            count == old(consumers)@.len(),
            data.well_formed(),
            forall|i: int|
                0 <= i < next ==> #[trigger] consumers@[i].delivered() == old(
                    consumers,
                )@[i].delivered().push(data@),
            forall|i: int| next <= i < count ==> #[trigger] consumers@[i] == old(consumers)@[i],
        decreases count - next,
    {
        consumers[next].write(data);
        next = next + 1;
    }
}

} // verus!
