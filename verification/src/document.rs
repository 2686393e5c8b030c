//! The document builder: partitions the records into consecutive pairs in
//! input order, renders two receipts per fixed-size page (the final page
//! holds a single receipt when the count is odd), and returns the pages as
//! plain draw instructions ready for serialization.

use crate::dates::{today, BillDate, BillDateView};
use crate::drawing::LineSeg;
use crate::layout::{
    lines_view, render_receipt, spec_receipt_lines, spec_receipt_texts, texts_view, TextItem,
};
use crate::model::{BillRecord, BillRecordView};
use vstd::prelude::*;

verus! {

/// Anchor of the top receipt of a page, in tenths of a millimetre.
pub const TOP_BILL_ANCHOR_TENTH_MM: i64 = 1900;

/// Anchor of the bottom receipt of a page, in tenths of a millimetre.
pub const BOTTOM_BILL_ANCHOR_TENTH_MM: i64 = 1000;

/// One page of the output document: the accumulated text items and line
/// segments of its one or two receipts, in placement order.
pub struct Page {
    pub texts: Vec<TextItem>,
    pub lines: Vec<LineSeg>,
}

/// The views of a sequence of records, in order.
pub open spec fn records_view(s: Seq<BillRecord>) -> Seq<BillRecordView> {
    s.map_values(|r: BillRecord| r@)
}

/// The text items of page `p`: the top receipt of record `2p`, followed by
/// the bottom receipt of record `2p + 1` when that record exists.
pub open spec fn spec_page_texts(
    recs: Seq<BillRecordView>,
    p: int,
    for_month: Seq<char>,
    date: BillDateView,
) -> Seq<crate::layout::TextItemView> {
    let top = spec_receipt_texts(recs[2 * p], TOP_BILL_ANCHOR_TENTH_MM as int, for_month, date);
    if 2 * p + 1 < recs.len() {
        top + spec_receipt_texts(
            recs[2 * p + 1],
            BOTTOM_BILL_ANCHOR_TENTH_MM as int,
            for_month,
            date,
        )
    } else {
        top
    }
}

/// The line segments of page `p`: those of the top receipt, followed by
/// those of the bottom receipt when record `2p + 1` exists.
pub open spec fn spec_page_lines(recs: Seq<BillRecordView>, p: int) -> Seq<
    crate::drawing::LineSegView,
> {
    let top = spec_receipt_lines(TOP_BILL_ANCHOR_TENTH_MM as int);
    if 2 * p + 1 < recs.len() {
        top + spec_receipt_lines(BOTTOM_BILL_ANCHOR_TENTH_MM as int)
    } else {
        top
    }
}

/// The whole document is determined by the records, the month label and
/// the date: one page per pair of records (rounding up), each page holding
/// exactly the draw instructions of its receipts.
pub open spec fn spec_document_matches(
    doc: Seq<Page>,
    recs: Seq<BillRecordView>,
    for_month: Seq<char>,
    date: BillDateView,
) -> bool {
    doc.len() == (recs.len() + 1) / 2 && forall|p: int|
        0 <= p < doc.len() ==> texts_view((#[trigger] doc[p]).texts@) == spec_page_texts(
            recs,
            p,
            for_month,
            date,
        ) && lines_view(doc[p].lines@) == spec_page_lines(recs, p)
}

/// Builds the document for a given date: exactly `ceil(N / 2)` pages, each
/// holding the receipts of its consecutive pair of records in input order.
pub fn build_document(
    records: &Vec<BillRecord>,
    for_month: &str,
    date: &BillDate,
) -> (doc: Vec<Page>)
    requires
        date.wf(),
        records@.len() < usize::MAX,
    ensures
        doc@.len() == (records@.len() + 1) / 2,
        spec_document_matches(doc@, records_view(records@), for_month@, date@),
{
    let ghost recs = records_view(records@);
    let n = records.len();
    let mut doc: Vec<Page> = Vec::new();
    let mut i: usize = 0;
    while i < n
        invariant
            date.wf(),
            n == records@.len(),
            n < usize::MAX,
            recs == records_view(records@),
            i % 2 == 0,
            i <= n + 1,
            doc@.len() == i / 2,
            forall|p: int|
                0 <= p < doc@.len() ==> texts_view((#[trigger] doc@[p]).texts@) == spec_page_texts(
                    recs,
                    p,
                    for_month@,
                    date@,
                ) && lines_view(doc@[p].lines@) == spec_page_lines(recs, p),
        decreases n + 1 - i,
    {
        let (top_texts, top_lines) = render_receipt(
            &records[i],
            TOP_BILL_ANCHOR_TENTH_MM,
            for_month,
            date,
        );
        let mut page = Page { texts: top_texts, lines: top_lines };
        if i + 1 < n {
            let (bottom_texts, bottom_lines) = render_receipt(
                &records[i + 1],
                BOTTOM_BILL_ANCHOR_TENTH_MM,
                for_month,
                date,
            );
            let mut bottom_texts = bottom_texts;
            let mut bottom_lines = bottom_lines;
            page.texts.append(&mut bottom_texts);
            page.lines.append(&mut bottom_lines);
        }
        proof {
            assert(recs[i as int] == records@[i as int]@);
            if i + 1 < n {
                assert(recs[i as int + 1] == records@[i as int + 1]@);
            }
            assert(texts_view(page.texts@) =~= spec_page_texts(recs, i as int / 2, for_month@, date@));
            assert(lines_view(page.lines@) =~= spec_page_lines(recs, i as int / 2));
        }
        doc.push(page);
        i = i + 2;
    }
    doc
}

/// Receipts follow input order exactly: record `i` is rendered on page
/// `i / 2`, as the top receipt when `i` is even and directly after its
/// page-mate's items as the bottom receipt when `i` is odd — no
/// reordering and no wraparound across pages.
pub proof fn lemma_receipts_follow_input_order(
    recs: Seq<BillRecordView>,
    for_month: Seq<char>,
    date: BillDateView,
    i: int,
)
    requires
        0 <= i < recs.len(),
    ensures
        ({
            let page = spec_page_texts(recs, i / 2, for_month, date);
            if i % 2 == 0 {
                let own = spec_receipt_texts(recs[i], TOP_BILL_ANCHOR_TENTH_MM as int, for_month, date);
                own.len() <= page.len() && page.subrange(0, own.len() as int) == own
            } else {
                let own = spec_receipt_texts(recs[i], BOTTOM_BILL_ANCHOR_TENTH_MM as int, for_month, date);
                let mate = spec_receipt_texts(recs[i - 1], TOP_BILL_ANCHOR_TENTH_MM as int, for_month, date);
                page == mate + own
            }
        }),
{
    let page = spec_page_texts(recs, i / 2, for_month, date);
    if i % 2 == 0 {
        assert(2 * (i / 2) == i);
        let own = spec_receipt_texts(recs[i], TOP_BILL_ANCHOR_TENTH_MM as int, for_month, date);
        assert(page.subrange(0, own.len() as int) =~= own);
    } else {
        assert(2 * (i / 2) == i - 1 && 2 * (i / 2) + 1 == i);
    }
}

/// Rendering is deterministic: two documents built from the same records,
/// month label and date hold identical positioned output, page for page —
/// the round trip of a record through two runs is byte-for-byte stable.
pub proof fn lemma_same_inputs_same_document(
    doc1: Seq<Page>,
    doc2: Seq<Page>,
    recs: Seq<BillRecordView>,
    for_month: Seq<char>,
    date: BillDateView,
)
    requires
        spec_document_matches(doc1, recs, for_month, date),
        spec_document_matches(doc2, recs, for_month, date),
    ensures
        doc1.len() == doc2.len(),
        forall|p: int|
            0 <= p < doc1.len() ==> texts_view((#[trigger] doc1[p]).texts@) == texts_view(
                doc2[p].texts@,
            ) && lines_view(doc1[p].lines@) == lines_view(doc2[p].lines@),
{
}

/// A well-formed date exists under which the document was built: what the
/// builder promises when the date is read from the system clock.
pub open spec fn spec_built_today(doc: Seq<Page>, recs: Seq<BillRecordView>, for_month: Seq<char>) -> bool {
    exists|date: BillDateView| date.wf() && #[trigger] spec_document_matches(doc, recs, for_month, date)
}

/// Builds the receipt document for the current date, read once from the
/// system clock: exactly `ceil(N / 2)` pages, two receipts per full page
/// in input order. Serializing and writing the pages is the caller's step.
pub fn create_pdf(records: &Vec<BillRecord>, for_month: &str) -> (doc: Vec<Page>)
    requires
        records@.len() < usize::MAX,
    ensures
        doc@.len() == (records@.len() + 1) / 2,
        spec_built_today(doc@, records_view(records@), for_month@),
{
    let date = today();
    let doc = build_document(records, for_month, &date);
    proof {
        assert(spec_document_matches(doc@, records_view(records@), for_month@, date@));
    }
    doc
}

} // verus!
