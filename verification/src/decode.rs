//! The record decoder: from one line of a trade log to a trade.

use vstd::prelude::*;
use vstd::string::StrSliceExecFns;
use vstd::string::StringExecFns;
use vstd::utf8::decode_utf8;
use vstd::utf8::valid_utf8;

use crate::error::WatchError;
use crate::text::chars_of;
use crate::text::field_bounds;
use crate::text::split_on;
use crate::trade::buy_token;
use crate::trade::Trade;
use crate::trade::TradeSide;
use crate::trade::TradeView;

verus! {

/// The character that separates the fields of a line.
pub const SEPARATOR: char = ',';

/// The field that holds the base asset.
pub const BASE_ASSET_FIELD: usize = 5;

/// The field that holds the quote asset.
pub const QUOTE_ASSET_FIELD: usize = 6;

/// The field that holds the side token.
pub const SIDE_FIELD: usize = 9;

/// The field that holds the price.
pub const PRICE_FIELD: usize = 11;

/// The field that holds the amount.
pub const AMOUNT_FIELD: usize = 12;

/// How many fields a line needs to hold a trade.
pub const REQUIRED_FIELDS: usize = 13;

/// The trade that a line stands for: the fields at the fixed positions, taken
/// as they are, or `MalformedRecord` where the line is too short to have them.
pub open spec fn decode_spec(line: Seq<char>) -> Result<TradeView, WatchError> {
    let fields = split_on(line, SEPARATOR);
    if fields.len() < REQUIRED_FIELDS {
        Err(WatchError::MalformedRecord)
    } else {
        Ok(
            TradeView {
                base_asset: fields[BASE_ASSET_FIELD as int],
                quote_asset: fields[QUOTE_ASSET_FIELD as int],
                amount: fields[AMOUNT_FIELD as int],
                price: fields[PRICE_FIELD as int],
                side: TradeSide::of_token(fields[SIDE_FIELD as int]),
            },
        )
    }
}

/// A line decodes exactly when it has thirteen fields or more, and then its
/// side is a buy exactly when the side field is the token `BUY`: every other
/// token, in any spelling, is a sell.
pub proof fn lemma_decoded_side(line: Seq<char>)
    ensures
        decode_spec(line) is Ok <==> split_on(line, SEPARATOR).len() >= REQUIRED_FIELDS,
        decode_spec(line) is Err <==> decode_spec(line) == Err::<TradeView, WatchError>(
            WatchError::MalformedRecord,
        ),
        decode_spec(line) matches Ok(trade) ==> (trade.side == TradeSide::Buy <==> split_on(
            line,
            SEPARATOR,
        )[SIDE_FIELD as int] == buy_token()),
        decode_spec(line) matches Ok(trade) ==> (trade.side == TradeSide::Sell <==> split_on(
            line,
            SEPARATOR,
        )[SIDE_FIELD as int] != buy_token()),
{
}

/// A decoding outcome with the trade, if there is one, as plain values.
pub open spec fn outcome_view(result: Result<Trade, WatchError>) -> Result<TradeView, WatchError> {
    match result {
        Ok(trade) => Ok(trade@),
        Err(error) => Err(error),
    }
}

/// The text that a run of bytes is read as: its UTF-8 decoding, with every
/// invalid sequence replaced by U+FFFD.
pub uninterp spec fn lossy_text(bytes: Seq<u8>) -> Seq<char>;

/// Calls `String::from_utf8_lossy` and takes ownership of what it returns.
/// Trusted: the result is a function of the bytes alone, named `lossy_text`,
/// and on valid UTF-8 it is the text that the bytes encode.
#[verifier::external_body]
fn text_of_bytes(bytes: &[u8]) -> (text: String)
    ensures
        text@ == lossy_text(bytes@),
        valid_utf8(bytes@) ==> text@ == decode_utf8(bytes@),
{
    String::from_utf8_lossy(bytes).into_owned()
}

/// Copies the field of `line` between the two character indices.
fn field_text(line: &str, bound: (usize, usize)) -> (text: String)
    requires
        bound.0 <= bound.1 <= line@.len(),
    ensures
        text@ == line@.subrange(bound.0 as int, bound.1 as int),
{
    String::from_str(line.substring_char(bound.0, bound.1))
}

/// Decodes one line of a trade log. The line is split at every comma; base
/// asset, quote asset, side, price and amount are read from their fixed
/// positions. A line with fewer than thirteen fields is malformed.
pub fn decode_line(line: &str) -> (result: Result<Trade, WatchError>)
    ensures
        outcome_view(result) == decode_spec(line@),
        result is Err <==> split_on(line@, SEPARATOR).len() < REQUIRED_FIELDS,
        result matches Err(error) ==> error == WatchError::MalformedRecord,
{
    let chars = chars_of(line);
    let bounds = field_bounds(&chars, SEPARATOR);
    if bounds.len() < REQUIRED_FIELDS {
        return Err(WatchError::MalformedRecord);
    }
    let side_token = field_text(line, bounds[SIDE_FIELD]);
    let trade = Trade {
        base_asset: field_text(line, bounds[BASE_ASSET_FIELD]),
        quote_asset: field_text(line, bounds[QUOTE_ASSET_FIELD]),
        amount: field_text(line, bounds[AMOUNT_FIELD]),
        price: field_text(line, bounds[PRICE_FIELD]),
        side: TradeSide::from_token(side_token.as_str()),
    };
    Ok(trade)
}

/// Decodes freshly read bytes as one line: the bytes are read as UTF-8,
/// lossily where they are not valid, and the text is decoded as a line.
pub fn decode_bytes(bytes: &[u8]) -> (result: Result<Trade, WatchError>)
    ensures
        outcome_view(result) == decode_spec(lossy_text(bytes@)),
        valid_utf8(bytes@) ==> outcome_view(result) == decode_spec(decode_utf8(bytes@)),
        result is Err <==> split_on(lossy_text(bytes@), SEPARATOR).len() < REQUIRED_FIELDS,
        result matches Err(error) ==> error == WatchError::MalformedRecord,
{
    let text = text_of_bytes(bytes);
    decode_line(text.as_str())
}

} // verus!
