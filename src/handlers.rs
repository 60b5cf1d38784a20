use vstd::prelude::*;

use crate::item::Item;
use crate::table::StoreError;

verus! {

/// Status of a successful read, update or delete.
pub const OK: u16 = 200;

/// Status of a successful create.
pub const CREATED: u16 = 201;

/// Status of a lookup by identifier that found no row.
pub const NOT_FOUND: u16 = 404;

/// Status of any other storage failure.
pub const INTERNAL_SERVER_ERROR: u16 = 500;

/// What a response carries besides its status.
#[derive(Debug)]
pub enum Body {
    Empty,
    Record(Item),
    Records(Vec<Item>),
}

/// An HTTP response: a status code and a body.
#[derive(Debug)]
pub struct Response {
    pub status: u16,
    pub body: Body,
}

/// The response to a lookup by identifier that carries no record: not-found
/// for `NotFound`, internal error for any other failure.
pub open spec fn failure_response(e: StoreError) -> Response {
    if e == StoreError::NotFound {
        Response { status: NOT_FOUND, body: Body::Empty }
    } else {
        Response { status: INTERNAL_SERVER_ERROR, body: Body::Empty }
    }
}

fn failure(e: StoreError) -> (r: Response)
    ensures
        r == failure_response(e),
{
    match e {
        StoreError::NotFound => Response { status: NOT_FOUND, body: Body::Empty },
        _ => Response { status: INTERNAL_SERVER_ERROR, body: Body::Empty },
    }
}

/// Answers a create from the insert's outcome: 201 with the stored record,
/// or 500 on any failure.
pub fn create_item(outcome: Result<Item, StoreError>) -> (r: Response)
    ensures
        r == match outcome {
            Ok(item) => Response { status: CREATED, body: Body::Record(item) },
            Err(_) => Response { status: INTERNAL_SERVER_ERROR, body: Body::Empty },
        },
{
    match outcome {
        Ok(item) => Response { status: CREATED, body: Body::Record(item) },
        Err(_) => Response { status: INTERNAL_SERVER_ERROR, body: Body::Empty },
    }
}

/// Answers a list from the select's outcome: 200 with the records, or 500 on
/// any failure.
pub fn get_items(outcome: Result<Vec<Item>, StoreError>) -> (r: Response)
    ensures
        r == match outcome {
            Ok(items) => Response { status: OK, body: Body::Records(items) },
            Err(_) => Response { status: INTERNAL_SERVER_ERROR, body: Body::Empty },
        },
{
    match outcome {
        Ok(items) => Response { status: OK, body: Body::Records(items) },
        Err(_) => Response { status: INTERNAL_SERVER_ERROR, body: Body::Empty },
    }
}

/// Answers a get-one from the lookup's outcome: 200 with the record, 404 when
/// no visible row carries the identifier, 500 on any other failure.
pub fn get_item(outcome: Result<Item, StoreError>) -> (r: Response)
    ensures
        r == match outcome {
            Ok(item) => Response { status: OK, body: Body::Record(item) },
            Err(e) => failure_response(e),
        },
{
    match outcome {
        Ok(item) => Response { status: OK, body: Body::Record(item) },
        Err(e) => failure(e),
    }
}

/// Answers an update from the statement's outcome: 200 with the updated
/// record, 404 when no row carries the identifier, 500 on any other failure.
pub fn update_item(outcome: Result<Item, StoreError>) -> (r: Response)
    ensures
        r == match outcome {
            Ok(item) => Response { status: OK, body: Body::Record(item) },
            Err(e) => failure_response(e),
        },
{
    match outcome {
        Ok(item) => Response { status: OK, body: Body::Record(item) },
        Err(e) => failure(e),
    }
}

/// Answers a delete from the statement's outcome: 200 with an empty body, 404
/// when no row carries the identifier, 500 on any other failure.
pub fn delete_item(outcome: Result<Item, StoreError>) -> (r: Response)
    ensures
        r == match outcome {
            Ok(_) => Response { status: OK, body: Body::Empty },
            Err(e) => failure_response(e),
        },
{
    match outcome {
        Ok(_) => Response { status: OK, body: Body::Empty },
        Err(e) => failure(e),
    }
}

} // verus!
