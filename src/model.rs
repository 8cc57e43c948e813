//! The domain's data: a sensor reading as callers see it, and as it is stored.
use vstd::prelude::*;
use crate::timestamp::{canonical_text_of, format_datetime_safe, UtcInstant};

verus! {

/// One timestamped sensor measurement as callers see it. The measured value
/// is held as the bit pattern of an IEEE 754 double; `created_at` is free text
/// on the way in and canonical UTC text on the way out. An `id` of 0 marks a
/// reading that was never stored.
#[derive(Debug)]
pub struct SensorData {
    pub id: i32,
    pub value_bits: u64,
    pub unit: String,
    pub status: String,
    pub created_at: String,
}

/// The query that selects one sensor.
#[derive(Clone, Copy, Debug, PartialEq, Eq, Structural)]
pub struct SensorDataQueryParams {
    pub sensor_id: i32,
}

pub struct Todo {
    pub id: i32,
    pub title: String,
    pub description: String,
    pub completed: bool,
}

pub struct CreateTodo {
    pub title: String,
    pub description: String,
}

/// A reading as the store holds it: the identifier the store assigned
/// (`None` before the store has seen it), the sensor, and the instant.
pub struct StoredReading {
    pub id: Option<i32>,
    pub sensor_id: i32,
    pub value_bits: u64,
    pub unit: String,
    pub status: String,
    pub created_at: UtcInstant,
}

/// The identifier a stored reading is reported with: 0 where it has none.
pub open spec fn reported_id(id: Option<i32>) -> i32 {
    match id {
        Some(i) => i,
        None => 0,
    }
}

/// `d` is what callers see of `row`, with `text` as its timestamp.
pub open spec fn shows_row(d: SensorData, row: StoredReading, text: Seq<char>) -> bool {
    &&& d.id == reported_id(row.id)
    &&& d.value_bits == row.value_bits
    &&& d.unit@ == row.unit@
    &&& d.status@ == row.status@
    &&& d.created_at@ == text
}

impl SensorData {
    pub fn new(value_bits: u64, unit: String, status: String, created_at: String) -> (r: SensorData)
        ensures
            r.id == 0,
            r.value_bits == value_bits,
            r.unit == unit,
            r.status == status,
            r.created_at == created_at,
    {
        SensorData { id: 0, value_bits, unit, status, created_at }
    }
}

impl StoredReading {
    /// The row to insert for `data` under `sensor_id`: no identifier yet (the
    /// store assigns it), the normalised instant, the rest as given.
    pub fn new_row(sensor_id: i32, data: &SensorData, created_at: UtcInstant) -> (r: StoredReading)
        ensures
            r.id is None,
            r.sensor_id == sensor_id,
            r.value_bits == data.value_bits,
            r.unit@ == data.unit@,
            r.status@ == data.status@,
            r.created_at == created_at,
    {
        StoredReading {
            id: None,
            sensor_id,
            value_bits: data.value_bits,
            unit: data.unit.clone(),
            status: data.status.clone(),
            created_at,
        }
    }

    /// What callers see of the row; `None` where its instant has no calendar text.
    pub fn to_sensor_data(&self) -> (r: Option<SensorData>)
        ensures
            match canonical_text_of(self.created_at.micros) {
                Some(t) => r is Some && shows_row(r->0, *self, t),
                None => r is None,
            },
    {
        match format_datetime_safe(&self.created_at) {
            Some(text) => Some(
                SensorData {
                    id: match self.id {
                        Some(i) => i,
                        None => 0,
                    },
                    value_bits: self.value_bits,
                    unit: self.unit.clone(),
                    status: self.status.clone(),
                    created_at: text,
                },
            ),
            None => None,
        }
    }
}

} // verus!
