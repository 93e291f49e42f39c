use trade_watcher::notification::render;
use trade_watcher::notification::Notification;
use trade_watcher::notification::NotificationField;
use trade_watcher::notification::BUY_COLOR;
use trade_watcher::notification::SELL_COLOR;
use trade_watcher::trade::Trade;
use trade_watcher::trade::TradeSide;

fn trade(side: TradeSide) -> Trade {
    Trade {
        base_asset: "BTC".to_string(),
        quote_asset: "USDT".to_string(),
        amount: "0.002".to_string(),
        price: "100.5".to_string(),
        side,
    }
}

fn field(name: &str, value: &str, inline: bool) -> NotificationField {
    NotificationField { name: name.to_string(), value: value.to_string(), inline }
}

#[test]
fn the_colours_are_green_and_red() {
    assert_eq!(BUY_COLOR, 0x41d321);
    assert_eq!(SELL_COLOR, 0xd32121);
}

#[test]
fn a_buy_is_rendered() {
    assert_eq!(
        render("alpha", &trade(TradeSide::Buy)),
        Notification {
            title: "New trade".to_string(),
            color: 0x41d321,
            description: "Buy BTC/USDT".to_string(),
            fields: vec![
                field("Bot", "alpha", false),
                field("Amount", "0.002", true),
                field("Price", "100.5 USDT", true),
            ],
        }
    );
}

#[test]
fn a_sell_is_rendered() {
    let notification = render("beta bot", &trade(TradeSide::Sell));
    assert_eq!(notification.title, "New trade");
    assert_eq!(notification.color, 0xd32121);
    assert_eq!(notification.description, "Sell BTC/USDT");
    assert_eq!(notification.fields.len(), 3);
    assert_eq!(notification.fields[0], field("Bot", "beta bot", false));
    assert_eq!(notification.fields[1], field("Amount", "0.002", true));
    assert_eq!(notification.fields[2], field("Price", "100.5 USDT", true));
}

#[test]
fn empty_values_are_rendered_as_they_are() {
    let empty = Trade {
        base_asset: String::new(),
        quote_asset: String::new(),
        amount: String::new(),
        price: String::new(),
        side: TradeSide::Sell,
    };
    let notification = render("", &empty);
    assert_eq!(notification.description, "Sell /");
    assert_eq!(notification.fields[0].value, "");
    assert_eq!(notification.fields[1].value, "");
    assert_eq!(notification.fields[2].value, " ");
}
