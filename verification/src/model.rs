//! The billing data model: one record per meter, as read from the
//! tabular input. Records are plain values, held immutably for a run.

use vstd::prelude::*;

verus! {

/// One meter-billing entry. All numeric fields are non-negative integers
/// as supplied by the input; `total_amount` is taken verbatim and never
/// recomputed from the other fields.
pub struct BillRecord {
    /// Display-only sequence number within the batch.
    pub order: u32,
    /// Meter identifier; duplicates are accepted and rendered as-is.
    pub meter_number: String,
    /// Customer name; may be empty, rendered verbatim.
    pub name: String,
    /// Reading at the previous billing, in units.
    pub previous_reading: u32,
    /// Reading at the current billing, in units.
    pub current_reading: u32,
    /// Consumed quantity as supplied by the input.
    pub units: u32,
    /// Flat maintenance-fee component.
    pub maintenance_fee: u32,
    /// Price per consumed unit.
    pub rate_per_unit: u32,
    /// Final billed amount as supplied by the input.
    pub total_amount: u32,
}

/// Mathematical view of a record: integers and character sequences.
pub struct BillRecordView {
    pub order: nat,
    pub meter_number: Seq<char>,
    pub name: Seq<char>,
    pub previous_reading: nat,
    pub current_reading: nat,
    pub units: nat,
    pub maintenance_fee: nat,
    pub rate_per_unit: nat,
    pub total_amount: nat,
}

impl View for BillRecord {
    type V = BillRecordView;

    open spec fn view(&self) -> BillRecordView {
        BillRecordView {
            order: self.order as nat,
            meter_number: self.meter_number@,
            name: self.name@,
            previous_reading: self.previous_reading as nat,
            current_reading: self.current_reading as nat,
            units: self.units as nat,
            maintenance_fee: self.maintenance_fee as nat,
            rate_per_unit: self.rate_per_unit as nat,
            total_amount: self.total_amount as nat,
        }
    }
}

} // verus!
