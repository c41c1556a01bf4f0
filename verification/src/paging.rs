//! Pages of a listing: where a scan starts, how long a page is, and the
//! token that leads to the next page.

use vstd::prelude::*;

use crate::error::Error;
use crate::id::{max_id, Id};

verus! {

/// The length of a page where the caller names none.
pub const DEFAULT_PAGE_SIZE: u16 = 10;

pub const MIN_PAGE_SIZE: u16 = 2;

pub const MAX_PAGE_SIZE: u16 = 1000;

/// The length of a page: the one asked for if it is between the least and
/// the greatest, the usual one if none is asked for.
pub fn page_size(asked: Option<u16>) -> (r: Result<u16, Error>)
    ensures
        r == match asked {
            None => Ok::<u16, Error>(DEFAULT_PAGE_SIZE),
            Some(n) => if MIN_PAGE_SIZE <= n <= MAX_PAGE_SIZE {
                Ok::<u16, Error>(n)
            } else {
                Err::<u16, Error>(Error::InvalidArgument)
            },
        },
{
    match asked {
        None => Ok(DEFAULT_PAGE_SIZE),
        Some(n) => {
            if MIN_PAGE_SIZE <= n && n <= MAX_PAGE_SIZE {
                Ok(n)
            } else {
                Err(Error::InvalidArgument)
            }
        },
    }
}

/// The identifier below which a scan reads: the token of the page before,
/// or the greatest identifier where the scan begins.
pub fn scan_below(token: Option<Id>) -> (r: Id)
    ensures
        r == match token {
            Some(id) => id,
            None => max_id(),
        },
{
    match token {
        Some(id) => id,
        None => max_id(),
    }
}

/// The token for the page after a page that holds the rows with the given
/// identifiers: the last identifier if the page is full, none if it is
/// not.
pub fn next_page_token(ids: &Vec<Id>, page_size: u16) -> (r: Option<Id>)
    ensures
        r == if ids@.len() >= page_size && ids@.len() > 0 {
            Some(ids@.last())
        } else {
            None
        },
{
    let n: usize = ids.len();
    if n >= page_size as usize && n > 0 {
        Some(ids[n - 1])
    } else {
        None
    }
}

} // verus!
