use vstd::prelude::*;
use crate::models::StoreError;
use crate::reply::{bare_of, notice_of, success_of, Notice, Reply, ResponseStatus};
use crate::text::{blank, is_blank};

verus! {

/// A beer that matched a search, with the name of its brewery.
#[derive(Clone, Debug, PartialEq, Eq)]
pub struct BeerSearchResult {
    pub id: i32,
    pub name: String,
    pub brewery_id: i32,
    pub brewery_name: String,
}

/// A brewery that matched a search.
#[derive(Clone, Debug, PartialEq, Eq)]
pub struct BrewerySearchResult {
    pub id: i32,
    pub name: String,
}

/// What a search does: run the query, or answer at once.
#[derive(Debug)]
pub enum SearchCommand<T> {
    Search { query: String },
    Respond(Reply<Vec<T>>),
}

pub open spec fn search_command_of<T>(query: String) -> SearchCommand<T> {
    if is_blank(query@) {
        SearchCommand::Respond(notice_of(400, ResponseStatus::Fail, Notice::EmptyQuery))
    } else {
        SearchCommand::Search { query }
    }
}

fn search_command<T>(query: String) -> (r: SearchCommand<T>)
    ensures
        r == search_command_of::<T>(query),
{
    if blank(query.as_str()) {
        SearchCommand::Respond(Reply::notice(400, ResponseStatus::Fail, Notice::EmptyQuery))
    } else {
        SearchCommand::Search { query }
    }
}

/// A search of beers by name: a query of white space alone (the empty one
/// too) is a bad request.
pub fn search_beer(query: String) -> (r: SearchCommand<BeerSearchResult>)
    ensures
        r == search_command_of::<BeerSearchResult>(query),
        query@.len() == 0 ==> r is Respond && r->Respond_0.code == 400,
{
    search_command(query)
}

/// A search of breweries by name: a query of white space alone (the empty
/// one too) is a bad request.
pub fn search_brewery(query: String) -> (r: SearchCommand<BrewerySearchResult>)
    ensures
        r == search_command_of::<BrewerySearchResult>(query),
        query@.len() == 0 ==> r is Respond && r->Respond_0.code == 400,
{
    search_command(query)
}

/// The answer to a search that ran: its matches, or a bare internal error.
pub fn search_reply<T>(found: Result<Vec<T>, StoreError>) -> (r: Reply<Vec<T>>)
    ensures
        found matches Ok(v) ==> r == success_of(v),
        found is Err ==> r == bare_of::<Vec<T>>(500),
{
    match found {
        Ok(v) => Reply::success(v),
        Err(_) => Reply::bare(500),
    }
}

} // verus!
