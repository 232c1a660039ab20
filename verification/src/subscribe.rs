//! What the session sends first: the stream address and the subscription
//! request.

use vstd::prelude::*;
use vstd::string::*;
use crate::decimal::{append_nat, nat_text};

verus! {

/// The id that the standard request carries.
pub const STANDARD_ID: u64 = 1545910660740;

/// The depth level of the standard request.
pub const STANDARD_DEPTH: u8 = 5;

/// The request to subscribe to one topic.
#[derive(Clone, Debug, PartialEq, Eq)]
pub struct SubscriptionRequest {
    pub id: u64,
    pub topic: String,
    pub response: bool,
}

/// A request, its topic taken as a sequence of characters.
pub struct SubscriptionView {
    pub id: u64,
    pub topic: Seq<char>,
    pub response: bool,
}

impl View for SubscriptionRequest {
    type V = SubscriptionView;

    open spec fn view(&self) -> SubscriptionView {
        SubscriptionView { id: self.id, topic: self.topic@, response: self.response }
    }
}

/// The address of the stream for a token.
pub open spec fn stream_url_text(token: Seq<char>) -> Seq<char> {
    "wss://ws-api-spot.kucoin.com/?token="@ + token
}

/// The topic of the depth channel of an instrument.
pub open spec fn topic_text(symbol: Seq<char>, depth_level: u8) -> Seq<char> {
    "/contractMarket/level2Depth"@ + nat_text(depth_level as nat) + ":"@ + symbol
}

/// One hexadecimal digit, in lower case.
pub open spec fn hex_text(d: nat) -> Seq<char>
    recommends
        d < 16,
{
    if d == 0 {
        "0"@
    } else if d == 1 {
        "1"@
    } else if d == 2 {
        "2"@
    } else if d == 3 {
        "3"@
    } else if d == 4 {
        "4"@
    } else if d == 5 {
        "5"@
    } else if d == 6 {
        "6"@
    } else if d == 7 {
        "7"@
    } else if d == 8 {
        "8"@
    } else if d == 9 {
        "9"@
    } else if d == 10 {
        "a"@
    } else if d == 11 {
        "b"@
    } else if d == 12 {
        "c"@
    } else if d == 13 {
        "d"@
    } else if d == 14 {
        "e"@
    } else {
        "f"@
    }
}

/// How one character stands inside a JSON string: a quote and a backslash
/// behind a backslash, a control character as `\u00` and two hexadecimal
/// digits, any other character as itself.
pub open spec fn escaped_char(c: char) -> Seq<char> {
    if c == '"' {
        "\\\""@
    } else if c == '\\' {
        "\\\\"@
    } else if (c as u32) < 32 {
        "\\u00"@ + hex_text((c as u32 / 16) as nat) + hex_text((c as u32 % 16) as nat)
    } else {
        seq![c]
    }
}

/// A text with each character escaped.
pub open spec fn escaped(text: Seq<char>) -> Seq<char>
    decreases text.len(),
{
    if text.len() == 0 {
        Seq::empty()
    } else {
        escaped(text.drop_last()) + escaped_char(text.last())
    }
}

/// A text as a JSON string.
pub open spec fn quoted(text: Seq<char>) -> Seq<char> {
    "\""@ + escaped(text) + "\""@
}

/// A truth value as JSON.
pub open spec fn bool_text(value: bool) -> Seq<char> {
    if value {
        "true"@
    } else {
        "false"@
    }
}

/// The request as one JSON object.
pub open spec fn request_text(request: SubscriptionView) -> Seq<char> {
    "{\"id\":"@ + nat_text(request.id as nat) + ",\"type\":\"subscribe\",\"topic\":"@ + quoted(
        request.topic,
    ) + ",\"response\":"@ + bool_text(request.response) + "}"@
}

/// Builds the address of the stream for a token.
pub fn stream_url(token: &str) -> (res: String)
    ensures
        res@ == stream_url_text(token@),
{
    let mut out = String::from_str("wss://ws-api-spot.kucoin.com/?token=");
    out.append(token);
    out
}

/// Builds the topic of the depth channel of an instrument.
pub fn topic(symbol: &str, depth_level: u8) -> (res: String)
    ensures
        res@ == topic_text(symbol@, depth_level),
{
    let mut out = String::from_str("/contractMarket/level2Depth");
    append_nat(&mut out, depth_level as u64);
    out.append(":");
    out.append(symbol);
    out
}

/// The text of one hexadecimal digit.
pub fn hex_str(d: u8) -> (res: &'static str)
    requires
        d < 16,
    ensures
        res@ == hex_text(d as nat),
{
    if d == 0 {
        "0"
    } else if d == 1 {
        "1"
    } else if d == 2 {
        "2"
    } else if d == 3 {
        "3"
    } else if d == 4 {
        "4"
    } else if d == 5 {
        "5"
    } else if d == 6 {
        "6"
    } else if d == 7 {
        "7"
    } else if d == 8 {
        "8"
    } else if d == 9 {
        "9"
    } else if d == 10 {
        "a"
    } else if d == 11 {
        "b"
    } else if d == 12 {
        "c"
    } else if d == 13 {
        "d"
    } else if d == 14 {
        "e"
    } else {
        "f"
    }
}

/// Appends a text as a JSON string.
pub fn append_quoted(out: &mut String, text: &str)
    ensures
        final(out)@ == old(out)@ + quoted(text@),
{
    let ghost before = out@;
    out.append("\"");
    let len = text.unicode_len();
    let mut i: usize = 0;
    while i < len
        invariant
            len == text@.len(),
            i <= len,
            out@ == before + "\""@ + escaped(text@.take(i as int)),
        decreases len - i,
    {
        let c = text.get_char(i);
        proof {
            assert(text@.take(i + 1).drop_last() =~= text@.take(i as int));
            assert(text@.take(i + 1).last() == c);
        }
        let ghost so_far = out@;
        if c == '"' {
            out.append("\\\"");
        } else if c == '\\' {
            out.append("\\\\");
        } else if (c as u32) < 32 {
            let code: u8 = c as u32 as u8;
            out.append("\\u00");
            out.append(hex_str(code / 16));
            out.append(hex_str(code % 16));
        } else {
            let one = text.substring_char(i, i + 1);
            assert(one@ =~= seq![c]);
            out.append(one);
        }
        assert(out@ =~= so_far + escaped_char(c));
        assert(out@ =~= before + "\""@ + escaped(text@.take(i + 1)));
        i = i + 1;
    }
    assert(text@.take(len as int) =~= text@);
    out.append("\"");
    assert(out@ =~= before + quoted(text@));
}

impl SubscriptionRequest {
    /// The request for the depth channel of an instrument, asking for an
    /// acknowledgement.
    pub fn new(id: u64, symbol: &str, depth_level: u8) -> (res: SubscriptionRequest)
        ensures
            res@ == (SubscriptionView {
                id,
                topic: topic_text(symbol@, depth_level),
                response: true,
            }),
    {
        SubscriptionRequest { id, topic: topic(symbol, depth_level), response: true }
    }

    /// The request that the feed sends where nothing else is asked for: the
    /// five best levels of `ETHUSDTM`.
    pub fn standard() -> (res: SubscriptionRequest)
        ensures
            res@ == (SubscriptionView {
                id: STANDARD_ID,
                topic: topic_text("ETHUSDTM"@, STANDARD_DEPTH),
                response: true,
            }),
    {
        SubscriptionRequest::new(STANDARD_ID, "ETHUSDTM", STANDARD_DEPTH)
    }

    /// The request as the text of one frame.
    pub fn to_text(&self) -> (res: String)
        ensures
            res@ == request_text(self@),
    {
        let mut out = String::from_str("{\"id\":");
        append_nat(&mut out, self.id);
        out.append(",\"type\":\"subscribe\",\"topic\":");
        append_quoted(&mut out, self.topic.as_str());
        out.append(",\"response\":");
        if self.response {
            out.append("true");
        } else {
            out.append("false");
        }
        out.append("}");
        assert(out@ =~= request_text(self@));
        out
    }
}

} // verus!
