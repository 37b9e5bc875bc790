//! The typed model of a series-observations response.
//!
//! One `Observation` is a single data point; `ObservationResponse` is the
//! envelope the endpoint returns: pagination and request-echo metadata plus
//! the observations in the order the API sent them. Values stay strings:
//! the API uses a non-numeric sentinel for missing data, so numeric parsing
//! is left to the caller. Metadata absent from a payload decodes to `None`,
//! never to an invented default.

use vstd::prelude::*;

verus! {

/// The abstract value of one observation.
#[verifier::ext_equal]
pub struct ObservationModel {
    pub realtime_start: Option<Seq<char>>,
    pub realtime_end: Option<Seq<char>>,
    pub date: Seq<char>,
    pub value: Seq<char>,
}

/// One (date, value) data point of a series, with its vintage metadata
/// where the payload carries it.
pub struct Observation {
    pub realtime_start: Option<String>,
    pub realtime_end: Option<String>,
    pub date: String,
    pub value: String,
}

impl View for Observation {
    type V = ObservationModel;

    open spec fn view(&self) -> ObservationModel {
        ObservationModel {
            realtime_start: match self.realtime_start {
                Some(s) => Some(s@),
                None => None,
            },
            realtime_end: match self.realtime_end {
                Some(s) => Some(s@),
                None => None,
            },
            date: self.date@,
            value: self.value@,
        }
    }
}

/// The abstract value of a whole response envelope.
#[verifier::ext_equal]
pub struct ResponseModel {
    pub realtime_start: Option<Seq<char>>,
    pub realtime_end: Option<Seq<char>>,
    pub observation_start: Option<Seq<char>>,
    pub observation_end: Option<Seq<char>>,
    pub units: Option<Seq<char>>,
    pub output_type: Option<u64>,
    pub file_type: Option<Seq<char>>,
    pub order_by: Option<Seq<char>>,
    pub sort_order: Option<Seq<char>>,
    pub count: Option<u64>,
    pub offset: Option<u64>,
    pub limit: Option<u64>,
    pub observations: Seq<ObservationModel>,
}

/// The response envelope: metadata as the payload carried it, and the
/// observations exactly in the API's order, neither reordered nor
/// deduplicated.
pub struct ObservationResponse {
    pub realtime_start: Option<String>,
    pub realtime_end: Option<String>,
    pub observation_start: Option<String>,
    pub observation_end: Option<String>,
    pub units: Option<String>,
    pub output_type: Option<u64>,
    pub file_type: Option<String>,
    pub order_by: Option<String>,
    pub sort_order: Option<String>,
    pub count: Option<u64>,
    pub offset: Option<u64>,
    pub limit: Option<u64>,
    pub observations: Vec<Observation>,
}

/// The abstract values of a sequence of observations, in order.
pub open spec fn observation_views(s: Seq<Observation>) -> Seq<ObservationModel> {
    s.map_values(|o: Observation| o@)
}

impl View for ObservationResponse {
    type V = ResponseModel;

    open spec fn view(&self) -> ResponseModel {
        ResponseModel {
            realtime_start: match self.realtime_start {
                Some(s) => Some(s@),
                None => None,
            },
            realtime_end: match self.realtime_end {
                Some(s) => Some(s@),
                None => None,
            },
            observation_start: match self.observation_start {
                Some(s) => Some(s@),
                None => None,
            },
            observation_end: match self.observation_end {
                Some(s) => Some(s@),
                None => None,
            },
            units: match self.units {
                Some(s) => Some(s@),
                None => None,
            },
            output_type: self.output_type,
            file_type: match self.file_type {
                Some(s) => Some(s@),
                None => None,
            },
            order_by: match self.order_by {
                Some(s) => Some(s@),
                None => None,
            },
            sort_order: match self.sort_order {
                Some(s) => Some(s@),
                None => None,
            },
            count: self.count,
            offset: self.offset,
            limit: self.limit,
            observations: observation_views(self.observations@),
        }
    }
}

} // verus!
