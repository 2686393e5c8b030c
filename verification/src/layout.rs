//! The fixed-geometry layout engine: one call renders one receipt as a
//! list of positioned text items and a list of line segments. Every
//! coordinate is a constant offset from a single vertical anchor, so the
//! same function renders the top or the bottom receipt of a page.

use crate::dates::{issue_date_text, spec_issue_date_text, BillDate, BillDateView};
use crate::drawing::{
    draw_bill_split_line, draw_line, draw_vetical_line, LineSeg, LineSegView,
    PAGE_WIDTH_TENTH_MM, SPLIT_LINE_Y_TENTH_MM,
};
use crate::model::{BillRecord, BillRecordView};
use crate::numfmt::{spec_u64_digits, u64_to_string};
use vstd::prelude::*;

verus! {

/// Which face of the resolved font triple a text item is drawn with.
#[derive(Clone, Copy, PartialEq, Eq, Structural, Debug)]
pub enum FontRole {
    Regular,
    Bold,
    Italic,
}

/// Body text size, in tenths of a point.
pub const FONT_SIZE_NORMAL_TENTH_PT: u32 = 84;

/// Subtitle text size, in tenths of a point.
pub const FONT_SIZE_SUBTITLE_TENTH_PT: u32 = 96;

/// Title text size, in tenths of a point.
pub const FONT_SIZE_TITLE_TENTH_PT: u32 = 120;

/// One positioned piece of text: the string, the font face and size, and
/// the position of its baseline start in tenths of a millimetre.
pub struct TextItem {
    pub text: String,
    pub role: FontRole,
    pub size: u32,
    pub x: i64,
    pub y: i64,
}

/// Mathematical view of a positioned piece of text.
pub struct TextItemView {
    pub text: Seq<char>,
    pub role: FontRole,
    pub size: nat,
    pub x: int,
    pub y: int,
}

impl View for TextItem {
    type V = TextItemView;

    open spec fn view(&self) -> TextItemView {
        TextItemView {
            text: self.text@,
            role: self.role,
            size: self.size as nat,
            x: self.x as int,
            y: self.y as int,
        }
    }
}

/// The views of a vector of text items, in order.
pub open spec fn texts_view(v: Seq<TextItem>) -> Seq<TextItemView> {
    v.map_values(|t: TextItem| t@)
}

/// The views of a vector of line segments, in order.
pub open spec fn lines_view(v: Seq<LineSeg>) -> Seq<LineSegView> {
    v.map_values(|l: LineSeg| l@)
}

/// The units-cost subtotal displayed on a receipt: consumed units times the
/// rate per unit, independent of the record's stored total.
pub open spec fn spec_units_cost(rec: BillRecordView) -> nat {
    rec.units * rec.rate_per_unit
}

/// The complete, ordered list of text items of one receipt anchored at
/// vertical offset `y`: title, address, issue date, identifying fields,
/// the five-column table header, and the table data rows.
pub open spec fn spec_receipt_texts(
    rec: BillRecordView,
    y: int,
    for_month: Seq<char>,
    date: BillDateView,
) -> Seq<TextItemView> {
    let title = FONT_SIZE_TITLE_TENTH_PT as nat;
    let subtitle = FONT_SIZE_SUBTITLE_TENTH_PT as nat;
    let normal = FONT_SIZE_NORMAL_TENTH_PT as nat;
    seq![
        TextItemView { text: "การประปาหมู่บ้าน หมู่ 3"@, role: FontRole::Bold, size: title, x: 500, y: y },
        TextItemView { text: "ต.คมบาง อ.เมือง จ.จันทบุรี"@, role: FontRole::Bold, size: subtitle, x: 520, y: y - 70 },
        TextItemView { text: "วันออกบิล"@, role: FontRole::Bold, size: normal, x: 150, y: y - 220 },
        TextItemView { text: spec_issue_date_text(date), role: FontRole::Italic, size: normal, x: 350, y: y - 220 },
        TextItemView { text: "id."@, role: FontRole::Bold, size: normal, x: 950, y: y - 100 },
        TextItemView { text: spec_u64_digits(rec.order), role: FontRole::Italic, size: normal, x: 1150, y: y - 100 },
        TextItemView { text: "ประจำเดือน"@, role: FontRole::Bold, size: normal, x: 950, y: y - 150 },
        TextItemView { text: for_month, role: FontRole::Italic, size: normal, x: 1150, y: y - 150 },
        TextItemView { text: "ชื่อ-นามสกุล"@, role: FontRole::Bold, size: normal, x: 150, y: y - 270 },
        TextItemView { text: rec.name, role: FontRole::Italic, size: normal, x: 350, y: y - 270 },
        TextItemView { text: "หมายเลขมิเตอร์"@, role: FontRole::Bold, size: normal, x: 150, y: y - 350 },
        TextItemView { text: "เลขอ่านครั้งหลัง"@, role: FontRole::Bold, size: normal, x: 450, y: y - 350 },
        TextItemView { text: "เลขอ่านครั้งก่อน"@, role: FontRole::Bold, size: normal, x: 700, y: y - 350 },
        TextItemView { text: "จำนวนหน่วย"@, role: FontRole::Bold, size: normal, x: 950, y: y - 350 },
        TextItemView { text: "จำนวนเงิน"@, role: FontRole::Bold, size: normal, x: 1150, y: y - 350 },
        TextItemView { text: rec.meter_number, role: FontRole::Regular, size: normal, x: 150, y: y - 430 },
        TextItemView { text: spec_u64_digits(rec.current_reading), role: FontRole::Regular, size: normal, x: 450, y: y - 430 },
        TextItemView { text: spec_u64_digits(rec.previous_reading), role: FontRole::Regular, size: normal, x: 700, y: y - 430 },
        TextItemView { text: "ค่าบำรุง"@, role: FontRole::Bold, size: normal, x: 950, y: y - 430 },
        TextItemView { text: spec_u64_digits(rec.maintenance_fee), role: FontRole::Regular, size: normal, x: 1150, y: y - 430 },
        TextItemView { text: spec_u64_digits(rec.units), role: FontRole::Regular, size: normal, x: 950, y: y - 495 },
        TextItemView { text: spec_u64_digits(spec_units_cost(rec)), role: FontRole::Regular, size: normal, x: 1150, y: y - 495 },
        TextItemView { text: "รวม"@, role: FontRole::Bold, size: normal, x: 950, y: y - 560 },
        TextItemView { text: spec_u64_digits(rec.total_amount), role: FontRole::Regular, size: normal, x: 1150, y: y - 560 },
    ]
}

/// The complete, ordered list of line segments of one receipt anchored at
/// vertical offset `y`: field underlines, the page-splitting rule, the
/// table frame, and the table's two vertical divider strokes. Every
/// segment but the page-splitting rule is a constant offset from the
/// anchor; the two divider strokes share one position.
pub open spec fn spec_receipt_lines(y: int) -> Seq<LineSegView> {
    seq![
        LineSegView { x1: 1140, y1: y - 110, x2: 1220, y2: y - 110 },
        LineSegView { x1: 1140, y1: y - 160, x2: 1220, y2: y - 160 },
        LineSegView { x1: 300, y1: y - 230, x2: 700, y2: y - 230 },
        LineSegView { x1: 300, y1: y - 280, x2: 700, y2: y - 280 },
        LineSegView { x1: 0, y1: SPLIT_LINE_Y_TENTH_MM as int, x2: PAGE_WIDTH_TENTH_MM as int, y2: SPLIT_LINE_Y_TENTH_MM as int },
        LineSegView { x1: 130, y1: y - 310, x2: 1280, y2: y - 310 },
        LineSegView { x1: 130, y1: y - 360, x2: 1280, y2: y - 360 },
        LineSegView { x1: 130, y1: y - 510, x2: 1280, y2: y - 510 },
        LineSegView { x1: 920, y1: y - 305, x2: 920, y2: y - 600 },
        LineSegView { x1: 920, y1: y - 305, x2: 920, y2: y - 600 },
    ]
}

/// Position of the page-splitting rule within a receipt's line list.
pub const SPLIT_LINE_INDEX: usize = 4;

/// All per-receipt geometry is a constant offset from the anchor: the
/// same record rendered at two anchors gives the same texts and lines,
/// shifted vertically by the anchor difference with nothing else changed
/// — except the page-splitting rule, which keeps its fixed page position.
pub proof fn lemma_geometry_anchor_relative(
    rec: BillRecordView,
    y1: int,
    y2: int,
    for_month: Seq<char>,
    date: BillDateView,
)
    ensures
        ({
            let t1 = spec_receipt_texts(rec, y1, for_month, date);
            let t2 = spec_receipt_texts(rec, y2, for_month, date);
            let l1 = spec_receipt_lines(y1);
            let l2 = spec_receipt_lines(y2);
            t1.len() == t2.len() && l1.len() == l2.len() && (forall|i: int|
                0 <= i < t1.len() ==> #[trigger] t2[i] == (TextItemView {
                    text: t1[i].text,
                    role: t1[i].role,
                    size: t1[i].size,
                    x: t1[i].x,
                    y: t1[i].y + (y2 - y1),
                })) && (forall|i: int|
                0 <= i < l1.len() && i != SPLIT_LINE_INDEX as int ==> #[trigger] l2[i]
                    == (LineSegView {
                    x1: l1[i].x1,
                    y1: l1[i].y1 + (y2 - y1),
                    x2: l1[i].x2,
                    y2: l1[i].y2 + (y2 - y1),
                })) && l2[SPLIT_LINE_INDEX as int] == l1[SPLIT_LINE_INDEX as int]
        }),
{
}

/// Multiplies consumed units by the rate per unit; never overflows since
/// both factors are 32-bit values.
pub fn units_cost(rec: &BillRecord) -> (r: u64)
    ensures
        r as nat == spec_units_cost(rec@),
{
    proof {
        assert((rec.units as u64) * (rec.rate_per_unit as u64) <= 0xFFFF_FFFFu64 * 0xFFFF_FFFFu64)
            by (nonlinear_arith)
            requires
                rec.units <= 0xFFFF_FFFFu32,
                rec.rate_per_unit <= 0xFFFF_FFFFu32,
        ;
    }
    (rec.units as u64) * (rec.rate_per_unit as u64)
}

/// Renders one receipt for `rec` anchored at `y_offset`, producing the
/// positioned text items and the line segments in the exact order they
/// are placed on the page. The result is a pure function of the record,
/// the anchor, the billing-month label and the date.
pub fn render_receipt(
    rec: &BillRecord,
    y_offset: i64,
    for_month: &str,
    date: &BillDate,
) -> (out: (Vec<TextItem>, Vec<LineSeg>))
    requires
        date.wf(),
        i64::MIN + 600 <= y_offset,
    ensures
        texts_view(out.0@) == spec_receipt_texts(rec@, y_offset as int, for_month@, date@),
        lines_view(out.1@) == spec_receipt_lines(y_offset as int),
{
    let normal = FONT_SIZE_NORMAL_TENTH_PT;
    let mut texts: Vec<TextItem> = Vec::new();
    texts.push(TextItem {
        text: String::from_str("การประปาหมู่บ้าน หมู่ 3"),
        role: FontRole::Bold,
        size: FONT_SIZE_TITLE_TENTH_PT,
        x: 500,
        y: y_offset,
    });
    texts.push(TextItem {
        text: String::from_str("ต.คมบาง อ.เมือง จ.จันทบุรี"),
        role: FontRole::Bold,
        size: FONT_SIZE_SUBTITLE_TENTH_PT,
        x: 520,
        y: y_offset - 70,
    });
    texts.push(TextItem {
        text: String::from_str("วันออกบิล"),
        role: FontRole::Bold,
        size: normal,
        x: 150,
        y: y_offset - 220,
    });
    texts.push(TextItem {
        text: issue_date_text(date),
        role: FontRole::Italic,
        size: normal,
        x: 350,
        y: y_offset - 220,
    });
    texts.push(TextItem {
        text: String::from_str("id."),
        role: FontRole::Bold,
        size: normal,
        x: 950,
        y: y_offset - 100,
    });
    texts.push(TextItem {
        text: u64_to_string(rec.order as u64),
        role: FontRole::Italic,
        size: normal,
        x: 1150,
        y: y_offset - 100,
    });
    texts.push(TextItem {
        text: String::from_str("ประจำเดือน"),
        role: FontRole::Bold,
        size: normal,
        x: 950,
        y: y_offset - 150,
    });
    texts.push(TextItem {
        text: String::from_str(for_month),
        role: FontRole::Italic,
        size: normal,
        x: 1150,
        y: y_offset - 150,
    });
    texts.push(TextItem {
        text: String::from_str("ชื่อ-นามสกุล"),
        role: FontRole::Bold,
        size: normal,
        x: 150,
        y: y_offset - 270,
    });
    texts.push(TextItem {
        text: rec.name.clone(),
        role: FontRole::Italic,
        size: normal,
        x: 350,
        y: y_offset - 270,
    });
    texts.push(TextItem {
        text: String::from_str("หมายเลขมิเตอร์"),
        role: FontRole::Bold,
        size: normal,
        x: 150,
        y: y_offset - 350,
    });
    texts.push(TextItem {
        text: String::from_str("เลขอ่านครั้งหลัง"),
        role: FontRole::Bold,
        size: normal,
        x: 450,
        y: y_offset - 350,
    });
    texts.push(TextItem {
        text: String::from_str("เลขอ่านครั้งก่อน"),
        role: FontRole::Bold,
        size: normal,
        x: 700,
        y: y_offset - 350,
    });
    texts.push(TextItem {
        text: String::from_str("จำนวนหน่วย"),
        role: FontRole::Bold,
        size: normal,
        x: 950,
        y: y_offset - 350,
    });
    texts.push(TextItem {
        text: String::from_str("จำนวนเงิน"),
        role: FontRole::Bold,
        size: normal,
        x: 1150,
        y: y_offset - 350,
    });
    texts.push(TextItem {
        text: rec.meter_number.clone(),
        role: FontRole::Regular,
        size: normal,
        x: 150,
        y: y_offset - 430,
    });
    texts.push(TextItem {
        text: u64_to_string(rec.current_reading as u64),
        role: FontRole::Regular,
        size: normal,
        x: 450,
        y: y_offset - 430,
    });
    texts.push(TextItem {
        text: u64_to_string(rec.previous_reading as u64),
        role: FontRole::Regular,
        size: normal,
        x: 700,
        y: y_offset - 430,
    });
    texts.push(TextItem {
        text: String::from_str("ค่าบำรุง"),
        role: FontRole::Bold,
        size: normal,
        x: 950,
        y: y_offset - 430,
    });
    texts.push(TextItem {
        text: u64_to_string(rec.maintenance_fee as u64),
        role: FontRole::Regular,
        size: normal,
        x: 1150,
        y: y_offset - 430,
    });
    texts.push(TextItem {
        text: u64_to_string(rec.units as u64),
        role: FontRole::Regular,
        size: normal,
        x: 950,
        y: y_offset - 495,
    });
    texts.push(TextItem {
        text: u64_to_string(units_cost(rec)),
        role: FontRole::Regular,
        size: normal,
        x: 1150,
        y: y_offset - 495,
    });
    texts.push(TextItem {
        text: String::from_str("รวม"),
        role: FontRole::Bold,
        size: normal,
        x: 950,
        y: y_offset - 560,
    });
    texts.push(TextItem {
        text: u64_to_string(rec.total_amount as u64),
        role: FontRole::Regular,
        size: normal,
        x: 1150,
        y: y_offset - 560,
    });

    let mut lines: Vec<LineSeg> = Vec::new();
    lines.push(draw_line(y_offset - 110, 1140, 1220));
    lines.push(draw_line(y_offset - 160, 1140, 1220));
    lines.push(draw_line(y_offset - 230, 300, 700));
    lines.push(draw_line(y_offset - 280, 300, 700));
    lines.push(draw_bill_split_line());
    lines.push(draw_line(y_offset - 310, 130, 1280));
    lines.push(draw_line(y_offset - 360, 130, 1280));
    lines.push(draw_line(y_offset - 510, 130, 1280));
    lines.push(draw_vetical_line(920, y_offset - 305, y_offset - 600));
    lines.push(draw_vetical_line(920, y_offset - 305, y_offset - 600));

    proof {
        assert(texts_view(texts@) =~= spec_receipt_texts(rec@, y_offset as int, for_month@, date@));
        assert(lines_view(lines@) =~= spec_receipt_lines(y_offset as int));
    }
    (texts, lines)
}

} // verus!
