use water_bills::dates::BillDate;
use water_bills::document::{build_document, create_pdf};
use water_bills::layout::{render_receipt, FontRole};
use water_bills::model::BillRecord;

fn record(order: u32, meter: &str, name: &str, units: u32, rate: u32, total: u32) -> BillRecord {
    BillRecord {
        order,
        meter_number: meter.to_string(),
        name: name.to_string(),
        previous_reading: 100,
        current_reading: 100 + units,
        units,
        maintenance_fee: 20,
        rate_per_unit: rate,
        total_amount: total,
    }
}

fn july_date() -> BillDate {
    BillDate { day: 15, month: 7, year: 2025 }
}

#[test]
fn receipt_has_fixed_item_counts() {
    let rec = record(1, "M-001", "somchai", 10, 15, 170);
    let (texts, lines) = render_receipt(&rec, 1900, "ก.ค.", &july_date());
    assert_eq!(texts.len(), 24);
    assert_eq!(lines.len(), 10);
}

#[test]
fn units_cost_subtotal_is_units_times_rate() {
    // The displayed subtotal comes from units and rate alone; the supplied
    // total does not enter it.
    let rec = record(1, "M-001", "somchai", 10, 15, 9999);
    let (texts, _) = render_receipt(&rec, 1900, "ก.ค.", &july_date());
    assert_eq!(texts[21].text, "150");
    assert_eq!(texts[21].x, 1150);
    assert_eq!(texts[21].y, 1900 - 495);
    // The stored total is rendered separately, unrecomputed.
    assert_eq!(texts[23].text, "9999");
}

#[test]
fn receipt_fields_are_placed_at_fixed_offsets() {
    let rec = record(42, "M-007", "prasert", 8, 12, 116);
    let (texts, lines) = render_receipt(&rec, 1900, "ก.ค.", &july_date());
    assert_eq!(texts[0].text, "การประปาหมู่บ้าน หมู่ 3");
    assert_eq!(texts[0].y, 1900);
    assert_eq!(texts[0].size, 120);
    assert!(matches!(texts[0].role, FontRole::Bold));
    assert_eq!(texts[3].text, "15 ก.ค. 2568");
    assert!(matches!(texts[3].role, FontRole::Italic));
    assert_eq!(texts[5].text, "42");
    assert_eq!(texts[7].text, "ก.ค.");
    assert_eq!(texts[9].text, "prasert");
    assert_eq!(texts[15].text, "M-007");
    assert_eq!(texts[16].text, "108");
    assert_eq!(texts[17].text, "100");
    assert_eq!(texts[19].text, "20");
    assert_eq!(texts[20].text, "8");
    assert_eq!(texts[21].text, "96");
    assert_eq!(texts[23].text, "116");
    // First underline sits below the id field; the split rule is fixed.
    assert_eq!((lines[0].x1, lines[0].y1, lines[0].x2, lines[0].y2), (1140, 1790, 1220, 1790));
    assert_eq!((lines[4].x1, lines[4].y1, lines[4].x2, lines[4].y2), (0, 1140, 1480, 1140));
    // The table's vertical divider strokes are anchored like the rest.
    assert_eq!((lines[8].x1, lines[8].y1, lines[8].x2, lines[8].y2), (920, 1595, 920, 1300));
    assert_eq!((lines[9].x1, lines[9].y1, lines[9].x2, lines[9].y2), (920, 1595, 920, 1300));
}

#[test]
fn geometry_shifts_with_the_anchor() {
    // The same record at the two anchors gives identical receipts shifted
    // by the anchor difference, the page-splitting rule alone excepted.
    let rec = record(7, "M-009", "somsri", 4, 5, 40);
    let date = july_date();
    let (top_texts, top_lines) = render_receipt(&rec, 1900, "ก.ค.", &date);
    let (bottom_texts, bottom_lines) = render_receipt(&rec, 1000, "ก.ค.", &date);
    let shift = 1900 - 1000;
    for (t, b) in top_texts.iter().zip(bottom_texts.iter()) {
        assert_eq!(t.text, b.text);
        assert_eq!(t.size, b.size);
        assert_eq!(t.x, b.x);
        assert_eq!(t.y, b.y + shift);
        assert!(t.role == b.role);
    }
    for (i, (t, b)) in top_lines.iter().zip(bottom_lines.iter()).enumerate() {
        if i == 4 {
            assert_eq!((t.x1, t.y1, t.x2, t.y2), (b.x1, b.y1, b.x2, b.y2));
        } else {
            assert_eq!(t.x1, b.x1);
            assert_eq!(t.x2, b.x2);
            assert_eq!(t.y1, b.y1 + shift);
            assert_eq!(t.y2, b.y2 + shift);
        }
    }
}

#[test]
fn page_count_is_half_rounded_up() {
    let date = july_date();
    for n in 0..6u32 {
        let records: Vec<BillRecord> = (0..n)
            .map(|i| record(i + 1, "M", "a", 1, 1, 1))
            .collect();
        let doc = build_document(&records, "ก.ค.", &date);
        assert_eq!(doc.len(), ((n as usize) + 1) / 2);
    }
}

#[test]
fn three_records_fill_two_pages_without_wraparound() {
    let records = vec![
        record(1, "M-1", "a", 1, 1, 1),
        record(2, "M-2", "b", 1, 1, 1),
        record(3, "M-3", "c", 1, 1, 1),
    ];
    let doc = build_document(&records, "ก.ค.", &july_date());
    assert_eq!(doc.len(), 2);
    // Page one holds two receipts, page two exactly one.
    assert_eq!(doc[0].texts.len(), 48);
    assert_eq!(doc[0].lines.len(), 20);
    assert_eq!(doc[1].texts.len(), 24);
    assert_eq!(doc[1].lines.len(), 10);
}

#[test]
fn receipts_follow_input_order() {
    let records = vec![
        record(1, "M-1", "a", 1, 1, 1),
        record(2, "M-2", "b", 1, 1, 1),
        record(3, "M-3", "c", 1, 1, 1),
        record(4, "M-4", "d", 1, 1, 1),
        record(5, "M-5", "e", 1, 1, 1),
    ];
    let doc = build_document(&records, "ก.ค.", &july_date());
    assert_eq!(doc.len(), 3);
    // The meter number of receipt slot s on page p is that of record 2p + s.
    assert_eq!(doc[0].texts[15].text, "M-1");
    assert_eq!(doc[0].texts[24 + 15].text, "M-2");
    assert_eq!(doc[1].texts[15].text, "M-3");
    assert_eq!(doc[1].texts[24 + 15].text, "M-4");
    assert_eq!(doc[2].texts[15].text, "M-5");
    // Top receipts anchor at the top of the page, bottom receipts below.
    assert_eq!(doc[0].texts[0].y, 1900);
    assert_eq!(doc[0].texts[24].y, 1000);
}

#[test]
fn same_inputs_give_identical_output() {
    let make = || {
        vec![
            record(1, "M-1", "a", 3, 7, 41),
            record(2, "M-2", "b", 5, 9, 65),
            record(3, "M-3", "c", 2, 4, 28),
        ]
    };
    let date = july_date();
    let doc1 = build_document(&make(), "ก.ค.", &date);
    let doc2 = build_document(&make(), "ก.ค.", &date);
    assert_eq!(doc1.len(), doc2.len());
    for (p1, p2) in doc1.iter().zip(doc2.iter()) {
        assert_eq!(p1.texts.len(), p2.texts.len());
        for (t1, t2) in p1.texts.iter().zip(p2.texts.iter()) {
            assert_eq!(t1.text, t2.text);
            assert_eq!(t1.size, t2.size);
            assert_eq!(t1.x, t2.x);
            assert_eq!(t1.y, t2.y);
            assert!(t1.role == t2.role);
        }
        assert_eq!(p1.lines.len(), p2.lines.len());
        for (l1, l2) in p1.lines.iter().zip(p2.lines.iter()) {
            assert_eq!((l1.x1, l1.y1, l1.x2, l1.y2), (l2.x1, l2.y1, l2.x2, l2.y2));
        }
    }
}

#[test]
fn document_for_current_date_paginates() {
    let records = vec![
        record(1, "M-1", "a", 1, 1, 1),
        record(2, "M-2", "b", 1, 1, 1),
        record(3, "M-3", "c", 1, 1, 1),
    ];
    let doc = create_pdf(&records, "ก.ค.");
    assert_eq!(doc.len(), 2);
    assert_eq!(doc[0].texts.len(), 48);
    assert_eq!(doc[1].texts.len(), 24);
}
