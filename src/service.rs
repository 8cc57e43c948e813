//! The service that callers use: it delegates to a repository and turns any
//! repository failure into a domain error with the code of the operation.
use vstd::prelude::*;
use vstd::string::*;
use crate::error::{
    response_status_of,
    status_of_code,
    CommonError,
    RepositoryError,
    STATUS_NOT_FOUND,
    STATUS_UNPROCESSABLE,
};
use crate::model::SensorData;
use crate::repository::SensorDataRepository;

verus! {

/// Code of a failed lookup, whatever the store reported.
pub const GET_FAILURE_CODE: u32 = 404;

/// Code of a failed insert, whatever the store reported.
pub const ADD_FAILURE_CODE: u32 = 422;

pub open spec fn get_failure_prefix() -> Seq<char> {
    "Failed to retrieve sensor data: "@
}

pub open spec fn add_failure_prefix() -> Seq<char> {
    "Failed to add sensor data: "@
}

/// The service's answer to a lookup, given what the repository returned.
pub fn get_outcome(result: Result<SensorData, RepositoryError>) -> (r: Result<SensorData, CommonError>)
    ensures
        match result {
            Ok(d) => r is Ok && r->Ok_0 == d,
            Err(e) => r is Err && r->Err_0.code == GET_FAILURE_CODE && r->Err_0.message@
                == get_failure_prefix() + e.message@,
        },
{
    match result {
        Ok(d) => Ok(d),
        Err(e) => {
            let mut message = "Failed to retrieve sensor data: ".to_owned();
            message.append(e.message.as_str());
            Err(CommonError { message, code: GET_FAILURE_CODE })
        },
    }
}

/// The service's answer to an insert, given what the repository returned.
pub fn add_outcome(result: Result<(), RepositoryError>) -> (r: Result<(), CommonError>)
    ensures
        match result {
            Ok(_) => r is Ok,
            Err(e) => r is Err && r->Err_0.code == ADD_FAILURE_CODE && r->Err_0.message@
                == add_failure_prefix() + e.message@,
        },
{
    match result {
        Ok(_) => Ok(()),
        Err(e) => {
            let mut message = "Failed to add sensor data: ".to_owned();
            message.append(e.message.as_str());
            Err(CommonError { message, code: ADD_FAILURE_CODE })
        },
    }
}

/// A failed lookup is answered with 404 and a failed insert with 422 at the
/// HTTP boundary.
pub proof fn lemma_failure_statuses()
    ensures
        response_status_of(status_of_code(GET_FAILURE_CODE)) == STATUS_NOT_FOUND,
        response_status_of(status_of_code(ADD_FAILURE_CODE)) == STATUS_UNPROCESSABLE,
{
}

/// What callers of the service see: the latest reading of a sensor, and
/// adding one, with domain errors.
pub trait SensorDataService {
    fn get(&self, sensor_id: i32) -> Result<SensorData, CommonError>;

    fn add(&mut self, sensor_id: i32, sensor_data: SensorData) -> Result<(), CommonError>;
}

/// The service over a repository.
#[derive(Clone)]
pub struct SensorDataServiceImpl<R> {
    pub repository: R,
}

impl<R: SensorDataRepository> SensorDataServiceImpl<R> {
    pub fn new(repository: R) -> (r: SensorDataServiceImpl<R>)
        ensures
            r.repository == repository,
    {
        SensorDataServiceImpl { repository }
    }
}

impl<R: SensorDataRepository> SensorDataService for SensorDataServiceImpl<R> {
    /// The latest reading of `sensor_id`; any failure of the repository
    /// becomes a domain error with code 404 whose message starts with the
    /// lookup prefix.
    fn get(&self, sensor_id: i32) -> (r: Result<SensorData, CommonError>)
        ensures
            r is Err ==> r->Err_0.code == GET_FAILURE_CODE && get_failure_prefix().len()
                <= r->Err_0.message@.len() && r->Err_0.message@.subrange(
                0,
                get_failure_prefix().len() as int,
            ) == get_failure_prefix(),
    {
        let result = self.repository.get(sensor_id);
        let ghost answered = result;
        let r = get_outcome(result);
        proof {
            if let Err(e) = answered {
                assert(r->Err_0.message@.subrange(0, get_failure_prefix().len() as int)
                    =~= get_failure_prefix());
            }
        }
        r
    }

    /// Stores `sensor_data` under `sensor_id`; any failure of the repository
    /// becomes a domain error with code 422 whose message starts with the
    /// insert prefix.
    fn add(&mut self, sensor_id: i32, sensor_data: SensorData) -> (r: Result<(), CommonError>)
        ensures
            r is Err ==> r->Err_0.code == ADD_FAILURE_CODE && add_failure_prefix().len()
                <= r->Err_0.message@.len() && r->Err_0.message@.subrange(
                0,
                add_failure_prefix().len() as int,
            ) == add_failure_prefix(),
    {
        let result = self.repository.add(sensor_id, sensor_data);
        let ghost answered = result;
        let r = add_outcome(result);
        proof {
            if let Err(e) = answered {
                assert(r->Err_0.message@.subrange(0, add_failure_prefix().len() as int)
                    =~= add_failure_prefix());
            }
        }
        r
    }
}

} // verus!
