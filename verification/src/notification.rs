//! What a notification of a trade says: the message for the sink, as plain
//! values that any chat or mail client can show.

use vstd::prelude::*;
use vstd::string::StringExecFns;

use crate::trade::Trade;
use crate::trade::TradeSide;
use crate::trade::TradeView;

verus! {

/// The colour that marks a buy, as 0xRRGGBB.
pub const BUY_COLOR: u32 = 0x41d321;

/// The colour that marks a sell, as 0xRRGGBB.
pub const SELL_COLOR: u32 = 0xd32121;

/// One labelled value of a notification.
#[derive(Clone, Debug, PartialEq, Eq)]
pub struct NotificationField {
    pub name: String,
    pub value: String,
    /// Whether the value may share a row with its neighbours.
    pub inline: bool,
}

/// A labelled value as plain values.
pub struct FieldView {
    pub name: Seq<char>,
    pub value: Seq<char>,
    pub inline: bool,
}

impl View for NotificationField {
    type V = FieldView;

    open spec fn view(&self) -> FieldView {
        FieldView { name: self.name@, value: self.value@, inline: self.inline }
    }
}

/// The message that tells of one trade.
#[derive(Clone, Debug, PartialEq, Eq)]
pub struct Notification {
    pub title: String,
    pub color: u32,
    pub description: String,
    pub fields: Vec<NotificationField>,
}

/// A notification as plain values.
pub struct NotificationView {
    pub title: Seq<char>,
    pub color: u32,
    pub description: Seq<char>,
    pub fields: Seq<FieldView>,
}

impl View for Notification {
    type V = NotificationView;

    open spec fn view(&self) -> NotificationView {
        NotificationView {
            title: self.title@,
            color: self.color,
            description: self.description@,
            fields: self.fields@.map_values(|field: NotificationField| field@),
        }
    }
}

/// The colour of a side.
pub open spec fn color_of(side: TradeSide) -> u32 {
    match side {
        TradeSide::Buy => BUY_COLOR,
        TradeSide::Sell => SELL_COLOR,
    }
}

/// The notification of `trade`, seen on the source named `source`: the side
/// and the pair as the description, coloured by side, and below it the
/// source, the amount, and the price with its unit.
pub open spec fn rendered(source: Seq<char>, trade: TradeView) -> NotificationView {
    NotificationView {
        title: "New trade"@,
        color: color_of(trade.side),
        description: trade.side.name_spec() + " "@ + trade.base_asset + "/"@ + trade.quote_asset,
        fields: seq![
            FieldView { name: "Bot"@, value: source, inline: false },
            FieldView { name: "Amount"@, value: trade.amount, inline: true },
            FieldView { name: "Price"@, value: trade.price + " "@ + trade.quote_asset, inline: true },
        ],
    }
}

/// Writes the notification of `trade` for the source named `source`.
pub fn render(source: &str, trade: &Trade) -> (notification: Notification)
    ensures
        notification@ == rendered(source@, trade@),
{
    let color: u32 = match trade.side {
        TradeSide::Buy => BUY_COLOR,
        TradeSide::Sell => SELL_COLOR,
    };
    let mut description = String::from_str(trade.side.name());
    description.append(" ");
    description.append(trade.base_asset.as_str());
    description.append("/");
    description.append(trade.quote_asset.as_str());
    let mut price = trade.price.clone();
    price.append(" ");
    price.append(trade.quote_asset.as_str());
    let mut fields: Vec<NotificationField> = Vec::new();
    fields.push(
        NotificationField { name: String::from_str("Bot"), value: String::from_str(source), inline: false },
    );
    fields.push(
        NotificationField {
            name: String::from_str("Amount"),
            value: trade.amount.clone(),
            inline: true,
        },
    );
    fields.push(NotificationField { name: String::from_str("Price"), value: price, inline: true });
    let notification = Notification {
        title: String::from_str("New trade"),
        color,
        description,
        fields,
    };
    assert(notification@.fields =~= rendered(source@, trade@).fields);
    notification
}

} // verus!
