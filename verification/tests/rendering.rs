use order_book::decode::decode;
use order_book::error::Side;
use order_book::price::Price;
use order_book::render::{append_row, render};
use order_book::snapshot::{DepthSnapshot, Level};

fn level(hundredths: u64, size: i64) -> Level {
    Level { price: Price { negative: false, hundredths }, size }
}

#[test]
fn update_renders_as_its_table() {
    let frame = r#"{"type":"message","data":{"asks":[["1801.50",3]],"bids":[["1800.00",7]]}}"#;
    let snapshot = decode(frame).expect("a frame").expect("an update");
    assert_eq!(render(&snapshot), "Type\tPrice\t\tSize\nA\t1801.50\t\t3\nB\t1800.00\t\t7\n");
}

#[test]
fn asks_are_reversed_and_bids_are_not() {
    let snapshot = DepthSnapshot {
        asks: vec![level(180150, 1), level(180200, 2), level(180250, 3)],
        bids: vec![level(180100, 4), level(180050, 5), level(180000, 6)],
    };
    let table = render(&snapshot);
    let lines: Vec<&str> = table.lines().collect();
    assert_eq!(
        lines,
        vec![
            "Type\tPrice\t\tSize",
            "A\t1802.50\t\t3",
            "A\t1802.00\t\t2",
            "A\t1801.50\t\t1",
            "B\t1801.00\t\t4",
            "B\t1800.50\t\t5",
            "B\t1800.00\t\t6",
        ]
    );
    assert!(table.ends_with('\n'));
}

#[test]
fn empty_snapshot_renders_as_the_header_alone() {
    let snapshot = DepthSnapshot { asks: vec![], bids: vec![] };
    assert_eq!(render(&snapshot), "Type\tPrice\t\tSize\n");
}

#[test]
fn price_precision_does_not_change_the_row() {
    for text in ["1800", "1800.0", "1800.00", "1800.000", "01800.0049"] {
        let frame = format!(
            "{{\"type\":\"message\",\"data\":{{\"asks\":[],\"bids\":[[\"{}\",7]]}}}}",
            text
        );
        let snapshot = decode(&frame).expect("a frame").expect("an update");
        assert_eq!(render(&snapshot), "Type\tPrice\t\tSize\nB\t1800.00\t\t7\n", "{}", text);
    }
}

#[test]
fn nothing_is_filtered_or_merged() {
    let snapshot = DepthSnapshot {
        asks: vec![level(100, 0), level(100, 0)],
        bids: vec![level(0, -1)],
    };
    assert_eq!(
        render(&snapshot),
        "Type\tPrice\t\tSize\nA\t1.00\t\t0\nA\t1.00\t\t0\nB\t0.00\t\t-1\n"
    );
}

#[test]
fn row_is_appended_with_its_line_feed() {
    let mut out = String::from("x\n");
    append_row(&mut out, Side::Ask, &level(5, 12));
    append_row(&mut out, Side::Bid, &Level { price: Price { negative: true, hundredths: 250 }, size: i64::MIN });
    assert_eq!(out, "x\nA\t0.05\t\t12\nB\t-2.50\t\t-9223372036854775808\n");
}
