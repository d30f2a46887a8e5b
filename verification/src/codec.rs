use vstd::prelude::*;
use crate::data_model::{
    order_model, orders_model, snapshots_model, Order, OrderModel, OrderbookArg,
    OrderbookDataElement, PushModel, SnapshotModel, WebsocketPushData,
};

verus! {

/// `serde_json::Value`, a JSON value. Nothing is known of one but what the
/// functions below say.
#[verifier::external_type_specification]
#[verifier::external_body]
pub struct ExJsonValue(serde_json::Value);

/// `serde_json::Error`, why a text was refused. It is only carried.
#[verifier::external_type_specification]
#[verifier::external_body]
pub struct ExJsonError(serde_json::Error);

/// The JSON value that `text` is, where it is one JSON value and nothing more.
pub uninterp spec fn json_document(text: Seq<char>) -> Option<serde_json::Value>;

/// The member `key` of `value`, where `value` is an object that has one.
pub uninterp spec fn json_member(value: serde_json::Value, key: Seq<char>) -> Option<
    serde_json::Value,
>;

/// The elements of `value`, where `value` is an array.
pub uninterp spec fn json_elements(value: serde_json::Value) -> Option<Seq<serde_json::Value>>;

/// The characters of `value`, where `value` is a string.
pub uninterp spec fn json_string(value: serde_json::Value) -> Option<Seq<char>>;

/// The number `value`, where `value` is an integer that a signed 64-bit
/// integer holds.
pub uninterp spec fn json_integer(value: serde_json::Value) -> Option<i64>;

/// `serde_json::from_str`, read as a `serde_json::Value`. Trusted: the same
/// text gives the same value, and a text that is refused gives none.
#[verifier::external_body]
fn read_document(text: &str) -> (outcome: Result<serde_json::Value, serde_json::Error>)
    ensures
        match outcome {
            Ok(value) => json_document(text@) == Some(value),
            Err(_) => json_document(text@) is None,
        },
{
    serde_json::from_str::<serde_json::Value>(text)
}

/// `serde_json::Value::get` with a string index. Trusted: it hands out the
/// member of an object under that key, and nothing for a missing key or for a
/// value that is no object.
#[verifier::external_body]
fn member<'a>(value: &'a serde_json::Value, key: &str) -> (found: Option<&'a serde_json::Value>)
    ensures
        match found {
            Some(inner) => json_member(*value, key@) == Some(*inner),
            None => json_member(*value, key@) is None,
        },
{
    value.get(key)
}

/// `serde_json::Value::as_array`. Trusted: it hands out the elements of an
/// array in their order, and nothing for any other value.
#[verifier::external_body]
fn elements<'a>(value: &'a serde_json::Value) -> (found: Option<&'a Vec<serde_json::Value>>)
    ensures
        match found {
            Some(items) => json_elements(*value) == Some(items@),
            None => json_elements(*value) is None,
        },
{
    value.as_array()
}

/// `serde_json::Value::as_str`, copied into a `String`. Trusted: it hands out
/// the characters of a string, and nothing for any other value.
#[verifier::external_body]
fn string_of(value: &serde_json::Value) -> (found: Option<String>)
    ensures
        match found {
            Some(text) => json_string(*value) == Some(text@),
            None => json_string(*value) is None,
        },
{
    value.as_str().map(String::from)
}

/// `serde_json::Value::as_i64`. Trusted: it hands out an integer that fits,
/// and nothing for any other value.
#[verifier::external_body]
fn integer_of(value: &serde_json::Value) -> (found: Option<i64>)
    ensures
        found == json_integer(*value),
{
    value.as_i64()
}

/// A level is an array of exactly four strings.
pub open spec fn decode_order(value: serde_json::Value) -> Option<OrderModel> {
    match json_elements(value) {
        Some(items) => if items.len() == 4 && json_string(items[0]) is Some && json_string(
            items[1],
        ) is Some && json_string(items[2]) is Some && json_string(items[3]) is Some {
            Some(
                (
                    json_string(items[0])->Some_0,
                    json_string(items[1])->Some_0,
                    json_string(items[2])->Some_0,
                    json_string(items[3])->Some_0,
                ),
            )
        } else {
            None
        },
        None => None,
    }
}

/// A side is an array of levels; their order is kept.
pub open spec fn decode_orders(value: serde_json::Value) -> Option<Seq<OrderModel>> {
    match json_elements(value) {
        Some(items) => if forall|i: int|
            0 <= i < items.len() ==> (#[trigger] decode_order(items[i])) is Some {
            Some(Seq::new(items.len(), |i: int| decode_order(items[i])->Some_0))
        } else {
            None
        },
        None => None,
    }
}

/// A snapshot is an object with the members `asks`, `bids`, `ts` and
/// `checksum`.
pub open spec fn decode_snapshot(value: serde_json::Value) -> Option<SnapshotModel> {
    match (
        json_member(value, "asks"@),
        json_member(value, "bids"@),
        json_member(value, "ts"@),
        json_member(value, "checksum"@),
    ) {
        (Some(asks), Some(bids), Some(ts), Some(checksum)) => match (
            decode_orders(asks),
            decode_orders(bids),
            json_string(ts),
            json_integer(checksum),
        ) {
            (Some(asks), Some(bids), Some(ts), Some(checksum)) => Some(
                SnapshotModel { asks, bids, ts, checksum },
            ),
            _ => None,
        },
        _ => None,
    }
}

/// The payload is an array of snapshots; it may be empty.
pub open spec fn decode_snapshots(value: serde_json::Value) -> Option<Seq<SnapshotModel>> {
    match json_elements(value) {
        Some(items) => if forall|i: int|
            0 <= i < items.len() ==> (#[trigger] decode_snapshot(items[i])) is Some {
            Some(Seq::new(items.len(), |i: int| decode_snapshot(items[i])->Some_0))
        } else {
            None
        },
        None => None,
    }
}

/// A push message is an object with the members `arg` (an object with the
/// strings `channel` and `instId`), `action` (a string) and `data`. No member
/// names the variant: the shape alone does.
pub open spec fn decode_push(value: serde_json::Value) -> Option<PushModel> {
    match (json_member(value, "arg"@), json_member(value, "action"@), json_member(value, "data"@)) {
        (Some(arg), Some(action), Some(data)) => match (
            json_member(arg, "channel"@),
            json_member(arg, "instId"@),
        ) {
            (Some(channel), Some(inst_id)) => match (
                json_string(channel),
                json_string(inst_id),
                json_string(action),
                decode_snapshots(data),
            ) {
                (Some(channel), Some(inst_id), Some(action), Some(data)) => Some(
                    PushModel { channel, inst_id, action, data },
                ),
                _ => None,
            },
            _ => None,
        },
        _ => None,
    }
}

/// The push message that a text holds, if it holds one.
pub open spec fn decode_text(text: Seq<char>) -> Option<PushModel> {
    match json_document(text) {
        Some(value) => decode_push(value),
        None => None,
    }
}

fn read_order(value: &serde_json::Value) -> (found: Option<Order>)
    ensures
        match found {
            Some(order) => decode_order(*value) == Some(order_model(order)),
            None => decode_order(*value) is None,
        },
{
    match elements(value) {
        None => None,
        Some(items) => {
            if items.len() != 4 {
                return None;
            }
            match (
                string_of(&items[0]),
                string_of(&items[1]),
                string_of(&items[2]),
                string_of(&items[3]),
            ) {
                (Some(price), Some(size), Some(liquidated), Some(total)) => Some(
                    (price, size, liquidated, total),
                ),
                _ => None,
            }
        },
    }
}

fn read_orders(value: &serde_json::Value) -> (found: Option<Vec<Order>>)
    ensures
        match found {
            Some(orders) => decode_orders(*value) == Some(orders_model(orders@)),
            None => decode_orders(*value) is None,
        },
{
    match elements(value) {
        None => None,
        Some(items) => {
            let mut orders: Vec<Order> = Vec::new();
            let mut next: usize = 0;
            while next < items.len()
                invariant
                    next <= items@.len(),
                    orders@.len() == next,
                    json_elements(*value) == Some(items@),
                    forall|i: int|
                        0 <= i < next ==> (#[trigger] decode_order(items@[i])) == Some(
                            order_model(orders@[i]),
                        ),
                decreases items@.len() - next,
            {
                match read_order(&items[next]) {
                    None => {
                        return None;
                    },
                    Some(order) => {
                        orders.push(order);
                    },
                }
                next = next + 1;
            }
            assert(Seq::new(items@.len(), |i: int| decode_order(items@[i])->Some_0)
                =~= orders_model(orders@));
            Some(orders)
        },
    }
}

fn read_snapshot(value: &serde_json::Value) -> (found: Option<OrderbookDataElement>)
    ensures
        match found {
            Some(snapshot) => decode_snapshot(*value) == Some(snapshot@),
            None => decode_snapshot(*value) is None,
        },
{
    match (member(value, "asks"), member(value, "bids"), member(value, "ts"), member(
        value,
        "checksum",
    )) {
        (Some(asks), Some(bids), Some(ts), Some(checksum)) => match (
            read_orders(asks),
            read_orders(bids),
            string_of(ts),
            integer_of(checksum),
        ) {
            (Some(asks), Some(bids), Some(ts), Some(checksum)) => Some(
                OrderbookDataElement { asks, bids, ts, checksum },
            ),
            _ => None,
        },
        _ => None,
    }
}

fn read_snapshots(value: &serde_json::Value) -> (found: Option<Vec<OrderbookDataElement>>)
    ensures
        match found {
            Some(data) => decode_snapshots(*value) == Some(snapshots_model(data@)),
            None => decode_snapshots(*value) is None,
        },
{
    match elements(value) {
        None => None,
        Some(items) => {
            let mut data: Vec<OrderbookDataElement> = Vec::new();
            let mut next: usize = 0;
            while next < items.len()
                invariant
                    next <= items@.len(),
                    data@.len() == next,
                    json_elements(*value) == Some(items@),
                    forall|i: int|
                        0 <= i < next ==> (#[trigger] decode_snapshot(items@[i])) == Some(
                            data@[i]@,
                        ),
                decreases items@.len() - next,
            {
                match read_snapshot(&items[next]) {
                    None => {
                        return None;
                    },
                    Some(snapshot) => {
                        data.push(snapshot);
                    },
                }
                next = next + 1;
            }
            assert(Seq::new(items@.len(), |i: int| decode_snapshot(items@[i])->Some_0)
                =~= snapshots_model(data@));
            Some(data)
        },
    }
}

/// Reads a push message out of a JSON value, by its shape.
fn read_push(value: &serde_json::Value) -> (found: Option<WebsocketPushData>)
    ensures
        match found {
            Some(message) => decode_push(*value) == Some(message@),
            None => decode_push(*value) is None,
        },
{
    match (member(value, "arg"), member(value, "action"), member(value, "data")) {
        (Some(arg), Some(action), Some(data)) => match (
            member(arg, "channel"),
            member(arg, "instId"),
        ) {
            (Some(channel), Some(inst_id)) => match (
                string_of(channel),
                string_of(inst_id),
                string_of(action),
                read_snapshots(data),
            ) {
                (Some(channel), Some(inst_id), Some(action), Some(data)) => Some(
                    WebsocketPushData::Orderbook {
                        arg: OrderbookArg { channel, inst_id },
                        action,
                        data,
                    },
                ),
                _ => None,
            },
            _ => None,
        },
        _ => None,
    }
}

/// Reads the push message that `text` holds. `None` where `text` is no JSON
/// or has not the shape of a push message.
pub fn decode(text: &str) -> (found: Option<WebsocketPushData>)
    ensures
        match found {
            Some(message) => decode_text(text@) == Some(message@),
            None => decode_text(text@) is None,
        },
{
    match read_document(text) {
        Ok(value) => read_push(&value),
        Err(_) => None,
    }
}

/// Whether a text is JSON that lacks one of the members `arg`, `action` and
/// `data`.
pub open spec fn lacks_member(text: Seq<char>) -> bool {
    json_document(text) matches Some(value) && (json_member(value, "arg"@) is None || json_member(
        value,
        "action"@,
    ) is None || json_member(value, "data"@) is None)
}

/// A text whose JSON value lacks one of the members `arg`, `action` and
/// `data` holds no push message.
pub proof fn lemma_missing_member_is_no_message(text: Seq<char>)
    ensures
        lacks_member(text) ==> decode_text(text) is None,
{
}

/// `serde_json::Map`, the members of a JSON object.
#[verifier::external_type_specification]
#[verifier::external_body]
#[verifier::reject_recursive_types(K)]
#[verifier::reject_recursive_types(V)]
pub struct ExJsonMap<K, V>(serde_json::Map<K, V>);

/// The member `key` among `members`, if there is one.
pub uninterp spec fn members_get(
    members: serde_json::Map<String, serde_json::Value>,
    key: Seq<char>,
) -> Option<serde_json::Value>;

/// The text that a JSON value is written as.
pub uninterp spec fn json_text(value: serde_json::Value) -> Seq<char>;

/// `serde_json::Map::new`. Trusted: the new map has no member.
#[verifier::external_body]
fn no_members() -> (members: serde_json::Map<String, serde_json::Value>)
    ensures
        forall|key: Seq<char>| (#[trigger] members_get(members, key)) is None,
{
    serde_json::Map::new()
}

/// `serde_json::Map::insert`. Trusted: the member under the key is then the
/// new value, and every other member is as it was.
#[verifier::external_body]
fn put_member(
    members: &mut serde_json::Map<String, serde_json::Value>,
    key: &str,
    value: serde_json::Value,
)
    ensures
        forall|other: Seq<char>| #[trigger]
            members_get(*final(members), other) == if other == key@ {
                Some(value)
            } else {
                members_get(*old(members), other)
            },
{
    members.insert(String::from(key), value);
}

/// The variant `Object` of `serde_json::Value`. Trusted: the members of the
/// object are those of the map.
#[verifier::external_body]
fn object_of(members: serde_json::Map<String, serde_json::Value>) -> (value: serde_json::Value)
    ensures
        forall|key: Seq<char>| #[trigger] json_member(value, key) == members_get(members, key),
{
    serde_json::Value::Object(members)
}

/// The variant `Array` of `serde_json::Value`. Trusted: the elements of the
/// array are the items, in their order.
#[verifier::external_body]
fn array_of(items: Vec<serde_json::Value>) -> (value: serde_json::Value)
    ensures
        json_elements(value) == Some(items@),
{
    serde_json::Value::Array(items)
}

/// `serde_json::Value::from` on a string slice. Trusted: the value is a
/// string of the same characters.
#[verifier::external_body]
fn string_value(text: &str) -> (value: serde_json::Value)
    ensures
        json_string(value) == Some(text@),
{
    serde_json::Value::from(text)
}

/// `serde_json::Value::from` on an `i64`. Trusted: the value is that
/// integer.
#[verifier::external_body]
fn integer_value(number: i64) -> (value: serde_json::Value)
    ensures
        json_integer(value) == Some(number),
{
    serde_json::Value::from(number)
}

/// `to_string` of a `serde_json::Value`. Trusted: the same value is written
/// as the same text.
#[verifier::external_body]
fn write_document(value: &serde_json::Value) -> (text: String)
    ensures
        text@ == json_text(*value),
{
    value.to_string()
}

/// The member names of the wire format are all different.
pub proof fn lemma_member_names_differ()
    ensures
        "asks"@ != "bids"@,
        "asks"@ != "ts"@,
        "asks"@ != "checksum"@,
        "bids"@ != "ts"@,
        "bids"@ != "checksum"@,
        "ts"@ != "checksum"@,
        "arg"@ != "action"@,
        "arg"@ != "data"@,
        "action"@ != "data"@,
        "channel"@ != "instId"@,
{
    reveal_strlit("asks");
    reveal_strlit("bids");
    reveal_strlit("ts");
    reveal_strlit("checksum");
    reveal_strlit("arg");
    reveal_strlit("action");
    reveal_strlit("data");
    reveal_strlit("channel");
    reveal_strlit("instId");
    assert("asks"@[0] == 'a');
    assert("bids"@[0] == 'b');
    assert("ts"@.len() == 2);
    assert("checksum"@.len() == 8);
    assert("arg"@.len() == 3);
    assert("action"@.len() == 6);
    assert("data"@.len() == 4);
    assert("channel"@.len() == 7);
    assert("instId"@.len() == 6);
}

fn write_order(order: &Order) -> (value: serde_json::Value)
    ensures
        decode_order(value) == Some(order_model(*order)),
{
    let mut items: Vec<serde_json::Value> = Vec::new();
    items.push(string_value(order.0.as_str()));
    items.push(string_value(order.1.as_str()));
    items.push(string_value(order.2.as_str()));
    items.push(string_value(order.3.as_str()));
    array_of(items)
}

fn write_orders(orders: &Vec<Order>) -> (value: serde_json::Value)
    ensures
        decode_orders(value) == Some(orders_model(orders@)),
{
    let mut items: Vec<serde_json::Value> = Vec::new();
    let mut next: usize = 0;
    while next < orders.len()
        invariant
            next <= orders@.len(),
            items@.len() == next,
            forall|i: int|
                0 <= i < next ==> (#[trigger] decode_order(items@[i])) == Some(
                    order_model(orders@[i]),
                ),
        decreases orders@.len() - next,
    {
        items.push(write_order(&orders[next]));
        next = next + 1;
    }
    assert(Seq::new(items@.len(), |i: int| decode_order(items@[i])->Some_0) =~= orders_model(
        orders@,
    ));
    array_of(items)
}

fn write_snapshot(snapshot: &OrderbookDataElement) -> (value: serde_json::Value)
    ensures
        decode_snapshot(value) == Some(snapshot@),
{
    proof {
        lemma_member_names_differ();
    }
    let mut members = no_members();
    put_member(&mut members, "asks", write_orders(&snapshot.asks));
    put_member(&mut members, "bids", write_orders(&snapshot.bids));
    put_member(&mut members, "ts", string_value(snapshot.ts.as_str()));
    put_member(&mut members, "checksum", integer_value(snapshot.checksum));
    object_of(members)
}

fn write_snapshots(data: &Vec<OrderbookDataElement>) -> (value: serde_json::Value)
    ensures
        decode_snapshots(value) == Some(snapshots_model(data@)),
{
    let mut items: Vec<serde_json::Value> = Vec::new();
    let mut next: usize = 0;
    while next < data.len()
        invariant
            next <= data@.len(),
            items@.len() == next,
            forall|i: int|
                0 <= i < next ==> (#[trigger] decode_snapshot(items@[i])) == Some(data@[i]@),
        decreases data@.len() - next,
    {
        items.push(write_snapshot(&data[next]));
        next = next + 1;
    }
    assert(Seq::new(items@.len(), |i: int| decode_snapshot(items@[i])->Some_0) =~= snapshots_model(
        data@,
    ));
    array_of(items)
}

/// Writes a push message as a JSON value. Reading that value gives the
/// message back, equal in every field.
fn write_push(message: &WebsocketPushData) -> (value: serde_json::Value)
    ensures
        decode_push(value) == Some(message@),
{
    proof {
        lemma_member_names_differ();
    }
    match message {
        WebsocketPushData::Orderbook { arg, action, data } => {
            let mut inner = no_members();
            put_member(&mut inner, "channel", string_value(arg.channel.as_str()));
            put_member(&mut inner, "instId", string_value(arg.inst_id.as_str()));
            let mut members = no_members();
            put_member(&mut members, "arg", object_of(inner));
            put_member(&mut members, "action", string_value(action.as_str()));
            put_member(&mut members, "data", write_snapshots(data));
            object_of(members)
        },
    }
}

/// Writes a push message as JSON text: the text of a JSON value that reads
/// back as the message.
pub fn encode(message: &WebsocketPushData) -> (text: String)
    ensures
        exists|value: serde_json::Value|
            #![trigger decode_push(value)]
            decode_push(value) == Some(message@) && text@ == json_text(value),
{
    let value = write_push(message);
    write_document(&value)
}

} // verus!
