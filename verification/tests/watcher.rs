use trade_watcher::error::WatchError;
use trade_watcher::trade::Trade;
use trade_watcher::trade::TradeSide;
use trade_watcher::watcher::Phase;
use trade_watcher::source::Source;
use trade_watcher::watcher::SourceWatcher;
use trade_watcher::watcher::WatchAction;
use trade_watcher::watcher::WatchEvent;

const LINE_A: &str = "x,x,x,x,x,BTC,USDT,x,x,BUY,x,100.5,0.002\n";
const LINE_B: &str = "x,x,x,x,x,ETH,USDT,x,x,SELL,x,1800,0.5\n";
const LINE_C: &str = "x,x,x,x,x,SOL,EUR,x,x,BUY,x,20,3\n";

fn source() -> Source {
    Source { name: "alpha".to_string(), path: "/var/log/alpha/trades.csv".to_string() }
}

fn watcher_at(initial_len: u64) -> SourceWatcher {
    SourceWatcher::start(source(), initial_len, 1000)
}

// Brings an idle watcher to the point where it reads `len` bytes.
fn begin_read(watcher: &mut SourceWatcher, now: u64, file_len: u64) -> WatchAction {
    assert_eq!(watcher.step(WatchEvent::RawChange { at: now }), WatchAction::AwaitChange);
    assert_eq!(watcher.step(WatchEvent::Tick { at: now + 1000 }), WatchAction::Probe);
    watcher.step(WatchEvent::Probed { file_len })
}

#[test]
fn a_watcher_starts_idle_at_the_end_of_its_log() {
    let watcher = watcher_at(321);
    assert_eq!(watcher.offset(), 321);
    assert_eq!(watcher.phase(), Phase::Idle);
    assert_eq!(watcher.source(), &source());
    assert_eq!(watcher.remaining(0), None);
}

#[test]
fn a_tick_without_a_change_starts_nothing() {
    let mut watcher = watcher_at(0);
    assert_eq!(watcher.step(WatchEvent::Tick { at: 5000 }), WatchAction::AwaitChange);
    assert_eq!(watcher.phase(), Phase::Idle);
}

#[test]
fn a_change_is_probed_after_the_quiet_window() {
    let mut watcher = watcher_at(0);
    assert_eq!(watcher.step(WatchEvent::RawChange { at: 100 }), WatchAction::AwaitChange);
    assert_eq!(watcher.remaining(100), Some(1000));
    assert_eq!(watcher.remaining(600), Some(500));
    assert_eq!(watcher.step(WatchEvent::Tick { at: 1099 }), WatchAction::AwaitChange);
    assert_eq!(watcher.phase(), Phase::Idle);
    assert_eq!(watcher.step(WatchEvent::Tick { at: 1100 }), WatchAction::Probe);
    assert_eq!(watcher.phase(), Phase::Probing);
    assert_eq!(watcher.remaining(1100), None);
}

#[test]
fn new_bytes_are_read_from_the_cursor() {
    let mut watcher = watcher_at(100);
    assert_eq!(begin_read(&mut watcher, 0, 141), WatchAction::Read { offset: 100, len: 41 });
    assert_eq!(watcher.phase(), Phase::Reading { len: 41 });
    assert_eq!(watcher.offset(), 100);
}

#[test]
fn a_log_that_did_not_grow_is_skipped() {
    let mut watcher = watcher_at(100);
    assert_eq!(begin_read(&mut watcher, 0, 100), WatchAction::AwaitChange);
    assert_eq!(watcher.phase(), Phase::Idle);
    assert_eq!(watcher.offset(), 100);
}

#[test]
fn a_log_shorter_than_the_cursor_is_a_file_access_failure() {
    let mut watcher = watcher_at(100);
    assert_eq!(
        begin_read(&mut watcher, 0, 99),
        WatchAction::Report { error: WatchError::FileAccessFailure }
    );
    assert_eq!(watcher.phase(), Phase::Idle);
    assert_eq!(watcher.offset(), 100);
    assert_eq!(
        begin_read(&mut watcher, 5000, 0),
        WatchAction::Report { error: WatchError::FileAccessFailure }
    );
    assert_eq!(watcher.offset(), 100);
    assert_eq!(begin_read(&mut watcher, 9000, 101), WatchAction::Read { offset: 100, len: 1 });
}

#[test]
fn a_decoded_line_is_notified_and_consumed() {
    let mut watcher = watcher_at(0);
    let len = LINE_A.len() as u64;
    assert_eq!(begin_read(&mut watcher, 0, len), WatchAction::Read { offset: 0, len });
    let action = watcher.step(WatchEvent::BytesRead { bytes: LINE_A.as_bytes().to_vec() });
    assert_eq!(
        action,
        WatchAction::Notify {
            source: "alpha".to_string(),
            trade: Trade {
                base_asset: "BTC".to_string(),
                quote_asset: "USDT".to_string(),
                amount: "0.002\n".to_string(),
                price: "100.5".to_string(),
                side: TradeSide::Buy,
            },
        }
    );
    assert_eq!(watcher.offset(), len);
    assert_eq!(watcher.phase(), Phase::Dispatching);
    assert_eq!(watcher.step(WatchEvent::Delivered), WatchAction::AwaitChange);
    assert_eq!(watcher.phase(), Phase::Idle);
    assert_eq!(watcher.offset(), len);
}

#[test]
fn a_malformed_line_is_reported_and_consumed() {
    let mut watcher = watcher_at(7);
    let line = "x,x,x,x,x,BTC,USDT,x,x,BUY,x,100.5\n";
    let len = line.len() as u64;
    assert_eq!(begin_read(&mut watcher, 0, 7 + len), WatchAction::Read { offset: 7, len });
    assert_eq!(
        watcher.step(WatchEvent::BytesRead { bytes: line.as_bytes().to_vec() }),
        WatchAction::Report { error: WatchError::MalformedRecord }
    );
    assert_eq!(watcher.offset(), 7 + len);
    assert_eq!(watcher.phase(), Phase::Idle);
    assert_eq!(watcher.step(WatchEvent::Delivered), WatchAction::Continue);
}

#[test]
fn a_read_of_another_length_is_a_file_access_failure() {
    let mut watcher = watcher_at(0);
    assert_eq!(begin_read(&mut watcher, 0, 10), WatchAction::Read { offset: 0, len: 10 });
    assert_eq!(
        watcher.step(WatchEvent::BytesRead { bytes: vec![b'x'; 9] }),
        WatchAction::Report { error: WatchError::FileAccessFailure }
    );
    assert_eq!(watcher.offset(), 0);
    assert_eq!(watcher.phase(), Phase::Idle);
}

#[test]
fn a_failed_open_or_read_is_a_file_access_failure() {
    let mut watcher = watcher_at(3);
    watcher.step(WatchEvent::RawChange { at: 0 });
    assert_eq!(watcher.step(WatchEvent::Tick { at: 1000 }), WatchAction::Probe);
    assert_eq!(
        watcher.step(WatchEvent::AccessFailed),
        WatchAction::Report { error: WatchError::FileAccessFailure }
    );
    assert_eq!(watcher.phase(), Phase::Idle);
    assert_eq!(begin_read(&mut watcher, 2000, 8), WatchAction::Read { offset: 3, len: 5 });
    assert_eq!(
        watcher.step(WatchEvent::AccessFailed),
        WatchAction::Report { error: WatchError::FileAccessFailure }
    );
    assert_eq!(watcher.phase(), Phase::Idle);
    assert_eq!(watcher.offset(), 3);
}

#[test]
fn a_failed_delivery_is_reported_and_not_retried() {
    let mut watcher = watcher_at(0);
    let len = LINE_B.len() as u64;
    begin_read(&mut watcher, 0, len);
    let action = watcher.step(WatchEvent::BytesRead { bytes: LINE_B.as_bytes().to_vec() });
    assert!(matches!(action, WatchAction::Notify { .. }));
    assert_eq!(
        watcher.step(WatchEvent::DeliveryFailed),
        WatchAction::Report { error: WatchError::DeliveryFailure }
    );
    assert_eq!(watcher.phase(), Phase::Idle);
    assert_eq!(watcher.offset(), len);
    assert_eq!(begin_read(&mut watcher, 5000, len), WatchAction::AwaitChange);
}

#[test]
fn events_out_of_place_change_nothing() {
    let mut watcher = watcher_at(50);
    for event in [
        WatchEvent::Probed { file_len: 80 },
        WatchEvent::BytesRead { bytes: LINE_A.as_bytes().to_vec() },
        WatchEvent::AccessFailed,
        WatchEvent::Delivered,
        WatchEvent::DeliveryFailed,
    ] {
        assert_eq!(watcher.step(event), WatchAction::Continue);
        assert_eq!(watcher.phase(), Phase::Idle);
        assert_eq!(watcher.offset(), 50);
    }
    assert_eq!(begin_read(&mut watcher, 0, 60), WatchAction::Read { offset: 50, len: 10 });
    for event in [
        WatchEvent::Tick { at: 99_000 },
        WatchEvent::Probed { file_len: 80 },
        WatchEvent::Delivered,
        WatchEvent::DeliveryFailed,
    ] {
        assert_eq!(watcher.step(event), WatchAction::Continue);
        assert_eq!(watcher.phase(), Phase::Reading { len: 10 });
        assert_eq!(watcher.offset(), 50);
    }
}

#[test]
fn a_change_during_a_cycle_starts_the_next_one() {
    let mut watcher = watcher_at(0);
    let len_a = LINE_A.len() as u64;
    let len_b = LINE_B.len() as u64;
    begin_read(&mut watcher, 0, len_a);
    assert_eq!(watcher.step(WatchEvent::RawChange { at: 1200 }), WatchAction::Continue);
    let action = watcher.step(WatchEvent::BytesRead { bytes: LINE_A.as_bytes().to_vec() });
    assert!(matches!(action, WatchAction::Notify { .. }));
    assert_eq!(watcher.step(WatchEvent::Delivered), WatchAction::AwaitChange);
    assert_eq!(watcher.remaining(1300), Some(900));
    assert_eq!(watcher.step(WatchEvent::Tick { at: 2200 }), WatchAction::Probe);
    assert_eq!(
        watcher.step(WatchEvent::Probed { file_len: len_a + len_b }),
        WatchAction::Read { offset: len_a, len: len_b }
    );
}

#[test]
fn complete_read_takes_the_outcome_of_decoding() {
    let mut watcher = watcher_at(10);
    begin_read(&mut watcher, 0, 30);
    assert_eq!(
        watcher.complete_read(19, Err(WatchError::MalformedRecord)),
        WatchAction::Continue
    );
    assert_eq!(watcher.offset(), 10);
    let trade = Trade {
        base_asset: "BTC".to_string(),
        quote_asset: "EUR".to_string(),
        amount: "1".to_string(),
        price: "2".to_string(),
        side: TradeSide::Sell,
    };
    assert_eq!(
        watcher.complete_read(20, Ok(trade.clone())),
        WatchAction::Notify { source: "alpha".to_string(), trade }
    );
    assert_eq!(watcher.offset(), 30);
    assert_eq!(watcher.phase(), Phase::Dispatching);
    assert_eq!(
        watcher.complete_read(20, Err(WatchError::MalformedRecord)),
        WatchAction::Continue
    );
    assert_eq!(watcher.offset(), 30);
}

#[test]
fn fifty_rapid_changes_give_one_cycle() {
    let mut watcher = watcher_at(0);
    let mut actions = Vec::new();
    for i in 0..50u64 {
        actions.push(watcher.step(WatchEvent::RawChange { at: i * 19 }));
        actions.push(watcher.step(WatchEvent::Tick { at: i * 19 + 5 }));
    }
    assert!(actions.iter().all(|action| *action == WatchAction::AwaitChange));
    let last = 49 * 19;
    assert_eq!(watcher.step(WatchEvent::Tick { at: last + 999 }), WatchAction::AwaitChange);
    assert_eq!(watcher.step(WatchEvent::Tick { at: last + 1000 }), WatchAction::Probe);
    let len = LINE_A.len() as u64;
    assert_eq!(
        watcher.step(WatchEvent::Probed { file_len: len }),
        WatchAction::Read { offset: 0, len }
    );
    let action = watcher.step(WatchEvent::BytesRead { bytes: LINE_A.as_bytes().to_vec() });
    assert!(matches!(action, WatchAction::Notify { .. }));
    assert_eq!(watcher.step(WatchEvent::Delivered), WatchAction::AwaitChange);
    for now in [last + 1001, last + 2000, last + 10_000] {
        assert_eq!(watcher.step(WatchEvent::Tick { at: now }), WatchAction::AwaitChange);
    }
    assert_eq!(watcher.offset(), len);
}

// A log file that the test appends to, read as the owner of a watcher would.
fn read_at(log: &[u8], offset: u64, len: u64) -> Vec<u8> {
    log[offset as usize..(offset + len) as usize].to_vec()
}

#[test]
fn watching_an_empty_log_end_to_end() {
    let mut log: Vec<u8> = Vec::new();
    let mut watcher = watcher_at(log.len() as u64);
    let mut notified = Vec::new();

    log.extend_from_slice(LINE_A.as_bytes());
    assert_eq!(watcher.step(WatchEvent::RawChange { at: 10 }), WatchAction::AwaitChange);
    assert_eq!(watcher.step(WatchEvent::RawChange { at: 12 }), WatchAction::AwaitChange);
    assert_eq!(watcher.step(WatchEvent::Tick { at: 1012 }), WatchAction::Probe);
    let action = watcher.step(WatchEvent::Probed { file_len: log.len() as u64 });
    assert_eq!(action, WatchAction::Read { offset: 0, len: LINE_A.len() as u64 });
    let action = watcher.step(WatchEvent::BytesRead { bytes: read_at(&log, 0, LINE_A.len() as u64) });
    match action {
        WatchAction::Notify { source, trade } => notified.push((source, trade)),
        other => panic!("no notification: {:?}", other),
    }
    assert_eq!(watcher.step(WatchEvent::Delivered), WatchAction::AwaitChange);
    assert_eq!(notified.len(), 1);
    assert_eq!(notified[0].0, "alpha");
    assert_eq!(notified[0].1.base_asset, "BTC");
    assert_eq!(notified[0].1.quote_asset, "USDT");
    assert_eq!(notified[0].1.side, TradeSide::Buy);
    assert_eq!(notified[0].1.price, "100.5");
    assert_eq!(notified[0].1.amount, "0.002\n");
    assert_eq!(watcher.offset(), LINE_A.len() as u64);

    log.extend_from_slice(LINE_B.as_bytes());
    assert_eq!(watcher.step(WatchEvent::RawChange { at: 5000 }), WatchAction::AwaitChange);
    log.extend_from_slice(LINE_C.as_bytes());
    assert_eq!(watcher.step(WatchEvent::RawChange { at: 5300 }), WatchAction::AwaitChange);
    assert_eq!(watcher.step(WatchEvent::Tick { at: 6000 }), WatchAction::AwaitChange);
    assert_eq!(watcher.step(WatchEvent::Tick { at: 6300 }), WatchAction::Probe);
    let combined = (LINE_B.len() + LINE_C.len()) as u64;
    let action = watcher.step(WatchEvent::Probed { file_len: log.len() as u64 });
    assert_eq!(action, WatchAction::Read { offset: LINE_A.len() as u64, len: combined });
    let bytes = read_at(&log, LINE_A.len() as u64, combined);
    match watcher.step(WatchEvent::BytesRead { bytes }) {
        WatchAction::Notify { source, trade } => notified.push((source, trade)),
        other => panic!("no notification: {:?}", other),
    }
    assert_eq!(watcher.step(WatchEvent::Delivered), WatchAction::AwaitChange);
    assert_eq!(notified.len(), 2);
    assert_eq!(notified[1].1.base_asset, "ETH");
    assert_eq!(notified[1].1.side, TradeSide::Sell);
    assert_eq!(notified[1].1.amount, "0.5\nx");
    assert_eq!(watcher.offset(), (LINE_A.len() + LINE_B.len() + LINE_C.len()) as u64);
    assert_eq!(watcher.offset(), log.len() as u64);
    assert_eq!(watcher.phase(), Phase::Idle);
}

#[test]
fn the_cursor_is_the_sum_of_what_was_consumed() {
    let mut watcher = watcher_at(17);
    let mut file_len = 17u64;
    let mut consumed = 0u64;
    let mut now = 0u64;
    let lines = [LINE_A, "garbage\n", LINE_B, "", "a,b,c", LINE_C];
    for line in lines {
        file_len += line.len() as u64;
        now += 3000;
        match begin_read(&mut watcher, now, file_len) {
            WatchAction::Read { offset, len } => {
                assert_eq!(offset, 17 + consumed);
                assert_eq!(len, line.len() as u64);
                let action = watcher.step(WatchEvent::BytesRead { bytes: line.as_bytes().to_vec() });
                consumed += len;
                if matches!(action, WatchAction::Notify { .. }) {
                    watcher.step(WatchEvent::Delivered);
                } else {
                    assert_eq!(action, WatchAction::Report { error: WatchError::MalformedRecord });
                }
            }
            WatchAction::AwaitChange => assert_eq!(line, ""),
            other => panic!("unexpected action: {:?}", other),
        }
        assert_eq!(watcher.offset(), 17 + consumed);
        assert_eq!(watcher.phase(), Phase::Idle);
    }
    assert_eq!(watcher.offset(), file_len);
}
