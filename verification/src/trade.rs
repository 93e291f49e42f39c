//! Trade records and the side of a trade.

use vstd::prelude::*;

use crate::text::chars_of;

verus! {

/// Which side of the book a trade was on.
#[derive(Clone, Copy, Debug, PartialEq, Eq, Structural)]
pub enum TradeSide {
    Buy,
    Sell,
}

/// The one token that marks a buy.
pub open spec fn buy_token() -> Seq<char> {
    seq!['B', 'U', 'Y']
}

impl TradeSide {
    /// The side named by a log token: the exact token `BUY` is a buy, every
    /// other token is a sell.
    pub open spec fn of_token(token: Seq<char>) -> TradeSide {
        if token == buy_token() {
            TradeSide::Buy
        } else {
            TradeSide::Sell
        }
    }

    /// The variant's name, as shown to people.
    pub open spec fn name_spec(self) -> Seq<char> {
        match self {
            TradeSide::Buy => seq!['B', 'u', 'y'],
            TradeSide::Sell => seq!['S', 'e', 'l', 'l'],
        }
    }

    /// Reads the side off a log token. The mapping is binary and
    /// case-sensitive: only `BUY` gives `Buy`.
    pub fn from_token(token: &str) -> (side: TradeSide)
        ensures
            side == TradeSide::of_token(token@),
    {
        let chars = chars_of(token);
        if chars.len() == 3 && chars[0] == 'B' && chars[1] == 'U' && chars[2] == 'Y' {
            assert(token@ =~= buy_token());
            TradeSide::Buy
        } else {
            TradeSide::Sell
        }
    }

    /// Returns the variant's name: `Buy` or `Sell`.
    pub fn name(&self) -> (name: &'static str)
        ensures
            name@ == self.name_spec(),
    {
        match self {
            TradeSide::Buy => {
                proof {
                    reveal_strlit("Buy");
                }
                assert("Buy"@ =~= seq!['B', 'u', 'y']);
                "Buy"
            },
            TradeSide::Sell => {
                proof {
                    reveal_strlit("Sell");
                }
                assert("Sell"@ =~= seq!['S', 'e', 'l', 'l']);
                "Sell"
            },
        }
    }
}

/// One decoded trade. Amount and price are kept as the exact text of the log.
#[derive(Clone, Debug, PartialEq, Eq)]
pub struct Trade {
    pub base_asset: String,
    pub quote_asset: String,
    pub amount: String,
    pub price: String,
    pub side: TradeSide,
}

/// What a trade holds, as plain sequences of characters.
pub struct TradeView {
    pub base_asset: Seq<char>,
    pub quote_asset: Seq<char>,
    pub amount: Seq<char>,
    pub price: Seq<char>,
    pub side: TradeSide,
}

impl View for Trade {
    type V = TradeView;

    open spec fn view(&self) -> TradeView {
        TradeView {
            base_asset: self.base_asset@,
            quote_asset: self.quote_asset@,
            amount: self.amount@,
            price: self.price@,
            side: self.side,
        }
    }
}

/// A sell is what every token but `BUY` stands for.
pub proof fn lemma_only_buy_token_is_buy(token: Seq<char>)
    ensures
        TradeSide::of_token(token) == TradeSide::Buy <==> token == buy_token(),
        TradeSide::of_token(token) == TradeSide::Sell <==> token != buy_token(),
{
}

} // verus!
