//! The repository contract, the "latest reading" ordering rule, and an
//! in-memory repository that keeps readings in insertion order.
use vstd::prelude::*;
use crate::error::{RepositoryError, StorageErrorKind};
use crate::model::{reported_id, shows_row, SensorData, StoredReading};
use crate::timestamp::{
    canonical_text_of,
    normalize_at,
    normalized_micros,
    parse_datetime,
    parsed_micros,
    UtcInstant,
};

verus! {

/// Persistence of readings: the latest reading of a sensor, and adding one.
pub trait SensorDataRepository {
    fn get(&self, sensor_id: i32) -> Result<SensorData, RepositoryError>;

    fn add(&mut self, sensor_id: i32, sensor_data: SensorData) -> Result<(), RepositoryError>;
}

/// How many readings the in-memory repository holds at most: identifiers are
/// positive `i32` values.
pub const MAX_READINGS: usize = 2147483646;

/// `a` comes after `b`: a later instant, or the same instant and a larger identifier.
pub open spec fn comes_after(a: StoredReading, b: StoredReading) -> bool {
    a.created_at.micros > b.created_at.micros || (a.created_at.micros == b.created_at.micros
        && reported_id(a.id) > reported_id(b.id))
}

/// Some reading among `rows` belongs to `sensor_id`.
pub open spec fn has_reading(rows: Seq<StoredReading>, sensor_id: i32) -> bool {
    exists|i: int| 0 <= i < rows.len() && #[trigger] rows[i].sensor_id == sensor_id
}

/// Among the first `n` rows, row `i` is the reading of `sensor_id` that
/// comes after every other reading of it.
pub open spec fn latest_among(rows: Seq<StoredReading>, sensor_id: i32, i: int, n: int) -> bool {
    &&& 0 <= i < n <= rows.len()
    &&& rows[i].sensor_id == sensor_id
    &&& forall|j: int|
        0 <= j < n && j != i && #[trigger] rows[j].sensor_id == sensor_id ==> comes_after(
            rows[i],
            rows[j],
        )
}

/// Row `i` is the latest reading of `sensor_id`: greatest instant, and the
/// greatest identifier among equal instants.
pub open spec fn is_latest(rows: Seq<StoredReading>, sensor_id: i32, i: int) -> bool {
    latest_among(rows, sensor_id, i, rows.len() as int)
}

/// The rows of the in-memory repository: row `i` carries identifier `i + 1`.
pub open spec fn rows_wf(rows: Seq<StoredReading>) -> bool {
    &&& rows.len() <= MAX_READINGS
    &&& forall|i: int| 0 <= i < rows.len() ==> #[trigger] rows[i].id == Some((i + 1) as i32)
}

/// The row stored for `data` under `sensor_id`, with identifier `id` and instant `micros`.
pub open spec fn stored_form(id: int, sensor_id: i32, data: SensorData, micros: i64) -> StoredReading {
    StoredReading {
        id: Some(id as i32),
        sensor_id,
        value_bits: data.value_bits,
        unit: data.unit,
        status: data.status,
        created_at: UtcInstant { micros },
    }
}

/// Whether `a` comes after `b` in the order of readings.
pub fn is_after(a: &StoredReading, b: &StoredReading) -> (r: bool)
    ensures
        r == comes_after(*a, *b),
{
    if a.created_at.micros != b.created_at.micros {
        a.created_at.micros > b.created_at.micros
    } else {
        let ia: i32 = match a.id {
            Some(i) => i,
            None => 0,
        };
        let ib: i32 = match b.id {
            Some(i) => i,
            None => 0,
        };
        ia > ib
    }
}

/// A repository that keeps its readings in memory, in the order they were added.
pub struct MemoryRepository {
    rows: Vec<StoredReading>,
}

impl View for MemoryRepository {
    type V = Seq<StoredReading>;

    closed spec fn view(&self) -> Seq<StoredReading> {
        self.rows@
    }
}

impl MemoryRepository {
    #[verifier::type_invariant]
    closed spec fn inv(&self) -> bool {
        rows_wf(self.rows@)
    }

    pub fn new() -> (r: MemoryRepository)
        ensures
            r@ == Seq::<StoredReading>::empty(),
            rows_wf(r@),
    {
        MemoryRepository { rows: Vec::new() }
    }

    /// How many readings are stored.
    pub fn len(&self) -> (r: usize)
        ensures
            r == self@.len(),
            rows_wf(self@),
    {
        proof {
            use_type_invariant(self);
        }
        self.rows.len()
    }

    /// The position of the latest reading of `sensor_id`, if it has any.
    pub fn latest_index(&self, sensor_id: i32) -> (r: Option<usize>)
        ensures
            rows_wf(self@),
            match r {
                Some(i) => is_latest(self@, sensor_id, i as int),
                None => !has_reading(self@, sensor_id),
            },
    {
        proof {
            use_type_invariant(self);
        }
        let n = self.rows.len();
        let mut best: Option<usize> = None;
        let mut k: usize = 0;
        while k < n
            invariant
                n == self.rows@.len(),
                rows_wf(self.rows@),
                k <= n,
                match best {
                    Some(b) => latest_among(self.rows@, sensor_id, b as int, k as int),
                    None => forall|j: int| 0 <= j < k ==> #[trigger] self.rows@[j].sensor_id != sensor_id,
                },
            decreases n - k,
        {
            if self.rows[k].sensor_id == sensor_id {
                match best {
                    None => {
                        best = Some(k);
                    },
                    Some(b) => {
                        if is_after(&self.rows[k], &self.rows[b]) {
                            best = Some(k);
                        } else {
                            assert(self.rows@[k as int].id == Some((k + 1) as i32));
                            assert(self.rows@[b as int].id == Some((b + 1) as i32));
                        }
                    },
                }
            }
            k = k + 1;
        }
        best
    }

    /// Appends the reading of `sensor_data` under `sensor_id`, at instant
    /// `created_at`, with the next identifier.
    fn push_reading(&mut self, sensor_id: i32, sensor_data: SensorData, created_at: UtcInstant) -> (r: Result<(), RepositoryError>)
        ensures
            rows_wf(old(self)@),
            rows_wf(final(self)@),
            old(self)@.len() < MAX_READINGS ==> r is Ok && final(self)@ == old(self)@.push(
                stored_form(old(self)@.len() + 1 as int, sensor_id, sensor_data, created_at.micros),
            ),
            old(self)@.len() >= MAX_READINGS ==> r is Err && r->Err_0.kind
                == StorageErrorKind::StorageUnavailable && final(self)@ == old(self)@,
    {
        proof {
            use_type_invariant(&*self);
        }
        if self.rows.len() >= MAX_READINGS {
            return Err(
                RepositoryError::new(
                    StorageErrorKind::StorageUnavailable,
                    "no identifier is left for a new reading".to_owned(),
                ),
            );
        }
        let id = (self.rows.len() + 1) as i32;
        let row = StoredReading {
            id: Some(id),
            sensor_id,
            value_bits: sensor_data.value_bits,
            unit: sensor_data.unit,
            status: sensor_data.status,
            created_at,
        };
        let mut rows: Vec<StoredReading> = Vec::new();
        std::mem::swap(&mut rows, &mut self.rows);
        rows.push(row);
        self.rows = rows;
        Ok(())
    }

    /// Adds a reading under `sensor_id`, with `now` as the instant for a
    /// timestamp that no supported format accepts. The store assigns the
    /// identifier; the one in `sensor_data` is ignored.
    pub fn add_at(&mut self, sensor_id: i32, sensor_data: SensorData, now: UtcInstant) -> (r: Result<(), RepositoryError>)
        ensures
            rows_wf(old(self)@),
            rows_wf(final(self)@),
            old(self)@.len() < MAX_READINGS ==> r is Ok && final(self)@ == old(self)@.push(
                stored_form(
                    old(self)@.len() + 1 as int,
                    sensor_id,
                    sensor_data,
                    normalized_micros(sensor_data.created_at@, now.micros),
                ),
            ),
            old(self)@.len() >= MAX_READINGS ==> r is Err && r->Err_0.kind
                == StorageErrorKind::StorageUnavailable && final(self)@ == old(self)@,
    {
        let created_at = normalize_at(sensor_data.created_at.as_str(), now);
        self.push_reading(sensor_id, sensor_data, created_at)
    }
}

impl SensorDataRepository for MemoryRepository {
    /// The latest reading of `sensor_id`: `NotFound` where it has none.
    fn get(&self, sensor_id: i32) -> (r: Result<SensorData, RepositoryError>)
        ensures
            rows_wf(self@),
            !has_reading(self@, sensor_id) ==> r is Err && r->Err_0.kind == StorageErrorKind::NotFound,
            has_reading(self@, sensor_id) ==> exists|i: int| is_latest(self@, sensor_id, i),
            forall|i: int|
                #[trigger] is_latest(self@, sensor_id, i) ==> match canonical_text_of(
                    self@[i].created_at.micros,
                ) {
                    Some(t) => r is Ok && shows_row(r->Ok_0, self@[i], t),
                    None => r is Err && r->Err_0.kind == StorageErrorKind::StorageUnavailable,
                },
    {
        match self.latest_index(sensor_id) {
            None => Err(
                RepositoryError::new(StorageErrorKind::NotFound, "Record not found".to_owned()),
            ),
            Some(i) => {
                proof {
                    lemma_latest_unique(self@, sensor_id, i as int);
                }
                match self.rows[i].to_sensor_data() {
                    Some(d) => Ok(d),
                    None => Err(
                        RepositoryError::new(
                            StorageErrorKind::StorageUnavailable,
                            "stored timestamp lies outside the calendar".to_owned(),
                        ),
                    ),
                }
            },
        }
    }

    /// Adds a reading under `sensor_id`; a timestamp that no supported format
    /// accepts is replaced by the current time, and the call still succeeds.
    fn add(&mut self, sensor_id: i32, sensor_data: SensorData) -> (r: Result<(), RepositoryError>)
        ensures
            rows_wf(old(self)@),
            rows_wf(final(self)@),
            old(self)@.len() < MAX_READINGS ==> {
                &&& r is Ok
                &&& final(self)@.len() == old(self)@.len() + 1
                &&& final(self)@.drop_last() == old(self)@
                &&& final(self)@.last() == stored_form(
                    old(self)@.len() + 1 as int,
                    sensor_id,
                    sensor_data,
                    final(self)@.last().created_at.micros,
                )
                &&& parsed_micros(sensor_data.created_at@) is Some
                    ==> final(self)@.last().created_at.micros == parsed_micros(
                    sensor_data.created_at@,
                )->0
            },
            old(self)@.len() >= MAX_READINGS ==> r is Err && r->Err_0.kind
                == StorageErrorKind::StorageUnavailable && final(self)@ == old(self)@,
    {
        let created_at = parse_datetime(sensor_data.created_at.as_str());
        let r = self.push_reading(sensor_id, sensor_data, created_at);
        proof {
            if old(self)@.len() < MAX_READINGS {
                assert(final(self)@.drop_last() =~= old(self)@);
            }
        }
        r
    }
}

/// Readings of one sensor are totally ordered: in well-formed rows, the
/// latest reading of a sensor is a single row.
pub proof fn lemma_latest_unique(rows: Seq<StoredReading>, sensor_id: i32, i: int)
    requires
        rows_wf(rows),
        is_latest(rows, sensor_id, i),
    ensures
        forall|j: int| #[trigger] is_latest(rows, sensor_id, j) ==> j == i,
{
    assert forall|j: int| #[trigger] is_latest(rows, sensor_id, j) implies j == i by {
        if j != i {
            assert(rows[i].sensor_id == sensor_id);
            assert(rows[j].sensor_id == sensor_id);
            assert(comes_after(rows[i], rows[j]));
            assert(comes_after(rows[j], rows[i]));
        }
    }
}

/// A reading added to well-formed rows, no earlier than every stored reading
/// of its sensor, is then the latest reading of that sensor, and the only one.
pub proof fn lemma_added_reading_is_latest(rows: Seq<StoredReading>, row: StoredReading)
    requires
        rows_wf(rows),
        rows.len() < MAX_READINGS,
        row.id == Some((rows.len() + 1) as i32),
        forall|j: int|
            0 <= j < rows.len() && #[trigger] rows[j].sensor_id == row.sensor_id
                ==> rows[j].created_at.micros <= row.created_at.micros,
    ensures
        rows_wf(rows.push(row)),
        is_latest(rows.push(row), row.sensor_id, rows.len() as int),
        forall|i: int| #[trigger] is_latest(rows.push(row), row.sensor_id, i) ==> i == rows.len(),
{
    let all = rows.push(row);
    assert forall|i: int| 0 <= i < all.len() implies #[trigger] all[i].id == Some((i + 1) as i32) by {
        if i < rows.len() {
            assert(all[i] == rows[i]);
        }
    }
    assert forall|j: int|
        0 <= j < all.len() && j != rows.len() && #[trigger] all[j].sensor_id == row.sensor_id
            implies comes_after(all[rows.len() as int], all[j]) by {
        assert(all[j] == rows[j]);
        assert(rows[j].id == Some((j + 1) as i32));
    }
    lemma_latest_unique(all, row.sensor_id, rows.len() as int);
}

/// Successive stores of a run of adds: each one the one before with one reading appended.
pub open spec fn is_add_run(states: Seq<Seq<StoredReading>>) -> bool {
    forall|k: int|
        0 <= k < states.len() - 1 ==> #[trigger] states[k + 1].len() == states[k].len() + 1
            && states[k + 1].drop_last() == states[k]
}

/// No add is lost: after a run of adds, every reading stored before is still
/// there in its place, and the store holds exactly one more reading per add.
pub proof fn lemma_add_run_keeps_readings(states: Seq<Seq<StoredReading>>)
    requires
        states.len() > 0,
        is_add_run(states),
    ensures
        states.last().len() == states[0].len() + states.len() - 1,
        forall|i: int| 0 <= i < states[0].len() ==> #[trigger] states.last()[i] == states[0][i],
    decreases states.len(),
{
    if states.len() > 1 {
        let shorter = states.drop_last();
        assert forall|k: int| 0 <= k < shorter.len() - 1 implies #[trigger] shorter[k + 1].len()
            == shorter[k].len() + 1 && shorter[k + 1].drop_last() == shorter[k] by {
            assert(states[k + 1].len() == states[k].len() + 1);
        }
        lemma_add_run_keeps_readings(shorter);
        let k = states.len() - 2;
        assert(states[k + 1].len() == states[k].len() + 1);
        assert(states[k + 1].drop_last() == states[k]);
        assert forall|i: int| 0 <= i < states[0].len() implies #[trigger] states.last()[i]
            == states[0][i] by {
            assert(shorter.last()[i] == states[0][i]);
            assert(states.last().drop_last()[i] == states.last()[i]);
        }
    }
}

} // verus!
