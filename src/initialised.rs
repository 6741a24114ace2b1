use vstd::prelude::*;

use crate::json::Json;

verus! {

/// The parameters of `initialized`, which carry nothing.
#[derive(Debug, PartialEq, Eq)]
pub struct Params;

/// Whether `j` stands for the empty parameters: `null`, an empty object or an empty array.
pub open spec fn is_empty_params(j: Json) -> bool {
    match j {
        Json::Null => true,
        Json::Object(fields) => fields@.len() == 0,
        Json::Array(items) => items@.len() == 0,
        _ => false,
    }
}

impl Params {
    pub fn from_json(j: &Json) -> (r: Option<Params>)
        ensures
            r is Some <==> is_empty_params(*j),
    {
        match j {
            Json::Null => Some(Params),
            Json::Object(fields) => if fields.len() == 0 {
                Some(Params)
            } else {
                None
            },
            Json::Array(items) => if items.len() == 0 {
                Some(Params)
            } else {
                None
            },
            _ => None,
        }
    }
}

} // verus!
