//! The JSON document that carries a broadcast envelope.
//!
//! The document is written without white space, with its members in a fixed
//! order:
//! `{"method":..,"payload":{"channels":[..],"event_type":..,"data":..}}`.

use vstd::prelude::*;
use vstd::pervasive::unreached;
use vstd::string::StringExecFns;
use vstd::string::StrSliceExecFns;
use vstd::utf8::encode_utf8;
use crate::publisher::codec::{json_quote, json_string};
use crate::types::centrifugo::{CentrifugoMessage, CentrifugoMessageView};

verus! {

/// The JSON literals of `items`, separated by commas.
pub open spec fn json_list(items: Seq<Seq<char>>) -> Seq<char>
    decreases items.len(),
{
    if items.len() == 0 {
        Seq::<char>::empty()
    } else if items.len() == 1 {
        json_string(items.last())
    } else {
        json_list(items.drop_last()) + ","@ + json_string(items.last())
    }
}

/// The document of `message`.
pub open spec fn message_json(message: CentrifugoMessageView) -> Seq<char> {
    "{\"method\":\""@ + message.method.wire_name() + "\",\"payload\":{\"channels\":["@
        + json_list(message.payload.channels) + "],\"event_type\":\""@
        + message.payload.event_type.wire_name() + "\",\"data\":"@ + json_string(
        message.payload.data,
    ) + "}}"@
}

/// Writes `text` as a JSON string literal, quotes included.
fn quote(text: &str) -> (literal: String)
    ensures
        literal@ == json_string(text@),
{
    match json_quote(text) {
        Ok(literal) => literal,
        Err(_) => unreached(),
    }
}

/// Writes the channels of a broadcast envelope as JSON literals with commas
/// between them.
pub fn channel_list(channels: &Vec<String>) -> (list: String)
    ensures
        list@ == json_list(Seq::new(channels@.len(), |i: int| channels@[i]@)),
{
    let ghost all = Seq::new(channels@.len(), |i: int| channels@[i]@);
    let mut list = String::new();
    let mut i: usize = 0;
    while i < channels.len()
        invariant
            i <= channels@.len(),
            all == Seq::new(channels@.len(), |i: int| channels@[i]@),
            list@ == json_list(all.subrange(0, i as int)),
        decreases channels@.len() - i,
    {
        proof {
            assert(all.subrange(0, i + 1).drop_last() == all.subrange(0, i as int));
        }
        if i > 0 {
            list.append(",");
        }
        list.append(quote(channels[i].as_str()).as_str());
        i += 1;
    }
    proof {
        assert(all.subrange(0, i as int) == all);
    }
    list
}

/// Writes a broadcast envelope as its JSON document, in UTF-8. The strings
/// of the envelope are turned into JSON literals by `serde_json`.
pub fn encode_message(message: &CentrifugoMessage) -> (document: Vec<u8>)
    ensures
        document@ == encode_utf8(message_json(message@)),
{
    let channels = channel_list(&message.payload.channels);
    let data = quote(message.payload.data.as_str());
    let mut text = String::from_str("{\"method\":\"");
    text.append(message.method.as_str());
    text.append("\",\"payload\":{\"channels\":[");
    text.append(channels.as_str());
    text.append("],\"event_type\":\"");
    text.append(message.payload.event_type.as_str());
    text.append("\",\"data\":");
    text.append(data.as_str());
    text.append("}}");
    text.as_str().as_bytes_vec()
}

} // verus!
