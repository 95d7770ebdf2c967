//! The search query: validation of the tool's argument object and the
//! search URL built from it.
//!
//! Four arguments are mandatory and must hold strings: `fly_from`, `fly_to`,
//! `date_from` and `date_to`; the first of them that is absent or not a
//! string names the failure. Every other argument is optional with a fixed
//! default.

use vstd::prelude::*;
use crate::json::{Json, spec_field, spec_str_field_or, json_field, str_field_or};
use crate::text::{spec_dec, push_dec};

verus! {

/// A validated flight search: the mandatory fields as given, each optional
/// field as given or as its default.
#[derive(Debug)]
pub struct FlightQuery {
    pub fly_from: String,
    pub fly_to: String,
    pub date_from: String,
    pub date_to: String,
    pub return_from: Option<String>,
    pub return_to: Option<String>,
    pub adults: u64,
    pub children: u64,
    pub infants: u64,
    pub selected_cabins: String,
    pub curr: String,
    pub max_stopovers: u64,
    pub sort: String,
    pub limit: u64,
}

/// Why an argument object was rejected.
#[derive(Debug, Clone, Copy, PartialEq, Eq)]
pub enum QueryError {
    MissingArguments,
    MissingFlyFrom,
    MissingFlyTo,
    MissingDateFrom,
    MissingDateTo,
}

/// The request-level error text for each failure.
pub open spec fn spec_message(e: QueryError) -> Seq<char> {
    match e {
        QueryError::MissingArguments => ("Missing arguments")@,
        QueryError::MissingFlyFrom => ("Missing or invalid fly_from parameter")@,
        QueryError::MissingFlyTo => ("Missing or invalid fly_to parameter")@,
        QueryError::MissingDateFrom => ("Missing or invalid date_from parameter")@,
        QueryError::MissingDateTo => ("Missing or invalid date_to parameter")@,
    }
}

impl QueryError {
    /// The request-level error text for this failure.
    pub fn message(&self) -> (r: String)
        ensures
            r@ == spec_message(*self),
    {
        match self {
            QueryError::MissingArguments => String::from_str("Missing arguments"),
            QueryError::MissingFlyFrom => String::from_str("Missing or invalid fly_from parameter"),
            QueryError::MissingFlyTo => String::from_str("Missing or invalid fly_to parameter"),
            QueryError::MissingDateFrom => String::from_str(
                "Missing or invalid date_from parameter",
            ),
            QueryError::MissingDateTo => String::from_str("Missing or invalid date_to parameter"),
        }
    }
}

/// The text under `key` when the argument holds a string; `None` otherwise.
pub open spec fn spec_arg_str(a: Json, key: Seq<char>) -> Option<Seq<char>> {
    match spec_field(a, key) {
        Some(Json::Str(s)) => Some(s@),
        _ => None,
    }
}

/// The unsigned reading of the number under `key`; `dflt` where the argument
/// is absent, not a number, or has no unsigned reading.
pub open spec fn spec_arg_uint_or(a: Json, key: Seq<char>, dflt: u64) -> u64 {
    match spec_field(a, key) {
        Some(Json::Num(n)) => match n.uint_value {
            Some(u) => u,
            None => dflt,
        },
        _ => dflt,
    }
}

/// The first mandatory argument that is absent or not a string, in the order
/// `fly_from`, `fly_to`, `date_from`, `date_to`; `None` when all four hold.
pub open spec fn spec_query_error(a: Json) -> Option<QueryError> {
    if spec_arg_str(a, ("fly_from")@) is None {
        Some(QueryError::MissingFlyFrom)
    } else if spec_arg_str(a, ("fly_to")@) is None {
        Some(QueryError::MissingFlyTo)
    } else if spec_arg_str(a, ("date_from")@) is None {
        Some(QueryError::MissingDateFrom)
    } else if spec_arg_str(a, ("date_to")@) is None {
        Some(QueryError::MissingDateTo)
    } else {
        None
    }
}

/// `q` is exactly the query that the argument object `a` describes: the four
/// mandatory strings as given, and each optional field as given or as its
/// documented default.
pub open spec fn spec_query_matches(a: Json, q: FlightQuery) -> bool {
    &&& spec_arg_str(a, ("fly_from")@) == Some(q.fly_from@)
    &&& spec_arg_str(a, ("fly_to")@) == Some(q.fly_to@)
    &&& spec_arg_str(a, ("date_from")@) == Some(q.date_from@)
    &&& spec_arg_str(a, ("date_to")@) == Some(q.date_to@)
    &&& match spec_arg_str(a, ("return_from")@) {
        Some(s) => q.return_from matches Some(t) && t@ == s,
        None => q.return_from is None,
    }
    &&& match spec_arg_str(a, ("return_to")@) {
        Some(s) => q.return_to matches Some(t) && t@ == s,
        None => q.return_to is None,
    }
    &&& q.adults == spec_arg_uint_or(a, ("adults")@, 1)
    &&& q.children == spec_arg_uint_or(a, ("children")@, 0)
    &&& q.infants == spec_arg_uint_or(a, ("infants")@, 0)
    &&& q.selected_cabins@ == spec_str_field_or(a, ("selected_cabins")@, ("M")@)
    &&& q.curr@ == spec_str_field_or(a, ("curr")@, ("EUR")@)
    &&& q.max_stopovers == spec_arg_uint_or(a, ("max_stopovers")@, 2)
    &&& q.sort@ == spec_str_field_or(a, ("sort")@, ("price")@)
    &&& q.limit == spec_arg_uint_or(a, ("limit")@, 5)
}

/// An argument object whose `fly_to` is absent or not a string is rejected
/// with the error naming `fly_to`, whenever `fly_from` itself holds a
/// string; validation therefore fails before any search request could be
/// built from the arguments.
pub proof fn lemma_missing_fly_to(a: Json)
    requires
        spec_arg_str(a, ("fly_from")@) is Some,
        spec_arg_str(a, ("fly_to")@) is None,
    ensures
        spec_query_error(a) == Some(QueryError::MissingFlyTo),
{
}

fn arg_str(a: &Json, key: &str) -> (r: Option<String>)
    ensures
        match spec_arg_str(*a, key@) {
            Some(s) => r matches Some(rs) && rs@ == s,
            None => r is None,
        },
{
    match json_field(a, key) {
        Some(Json::Str(s)) => Some(s.clone()),
        _ => None,
    }
}

fn arg_uint_or(a: &Json, key: &str, dflt: u64) -> (r: u64)
    ensures
        r == spec_arg_uint_or(*a, key@, dflt),
{
    match json_field(a, key) {
        Some(Json::Num(n)) => match n.uint_value {
            Some(u) => u,
            None => dflt,
        },
        _ => dflt,
    }
}

/// Validates an argument object into a query.
///
/// Fails with `MissingArguments` when there is no argument object at all,
/// and with the error naming the first mandatory argument that is absent or
/// not a string; succeeds exactly when all four mandatory arguments hold
/// strings, and then returns the query they describe.
pub fn parse_query(args: Option<&Json>) -> (r: Result<FlightQuery, QueryError>)
    ensures
        args is None ==> r == Err::<FlightQuery, QueryError>(QueryError::MissingArguments),
        args matches Some(a) ==> match spec_query_error(*a) {
            Some(e) => r == Err::<FlightQuery, QueryError>(e),
            None => r matches Ok(q) && spec_query_matches(*a, q),
        },
{
    let a = match args {
        Some(a) => a,
        None => {
            return Err(QueryError::MissingArguments);
        },
    };
    let fly_from = match arg_str(a, "fly_from") {
        Some(s) => s,
        None => {
            return Err(QueryError::MissingFlyFrom);
        },
    };
    let fly_to = match arg_str(a, "fly_to") {
        Some(s) => s,
        None => {
            return Err(QueryError::MissingFlyTo);
        },
    };
    let date_from = match arg_str(a, "date_from") {
        Some(s) => s,
        None => {
            return Err(QueryError::MissingDateFrom);
        },
    };
    let date_to = match arg_str(a, "date_to") {
        Some(s) => s,
        None => {
            return Err(QueryError::MissingDateTo);
        },
    };
    let return_from = arg_str(a, "return_from");
    let return_to = arg_str(a, "return_to");
    let adults = arg_uint_or(a, "adults", 1);
    let children = arg_uint_or(a, "children", 0);
    let infants = arg_uint_or(a, "infants", 0);
    let selected_cabins = str_field_or(a, "selected_cabins", "M").to_owned();
    let curr = str_field_or(a, "curr", "EUR").to_owned();
    let max_stopovers = arg_uint_or(a, "max_stopovers", 2);
    let sort = str_field_or(a, "sort", "price").to_owned();
    let limit = arg_uint_or(a, "limit", 5);
    Ok(
        FlightQuery {
            fly_from,
            fly_to,
            date_from,
            date_to,
            return_from,
            return_to,
            adults,
            children,
            infants,
            selected_cabins,
            curr,
            max_stopovers,
            sort,
            limit,
        },
    )
}

/// The full search URL for a query: the fixed endpoint, every always-present
/// parameter in fixed order, then the two return-date parameters, each only
/// when the query has it.
pub open spec fn spec_search_url(q: FlightQuery) -> Seq<char> {
    ("https://api.tequila.kiwi.com/v2/search?fly_from=")@ + q.fly_from@ + ("&fly_to=")@
        + q.fly_to@ + ("&date_from=")@ + q.date_from@ + ("&date_to=")@ + q.date_to@ + ("&adults=")@
        + spec_dec(q.adults as nat) + ("&children=")@ + spec_dec(q.children as nat) + ("&infants=")@
        + spec_dec(q.infants as nat) + ("&selected_cabins=")@ + q.selected_cabins@ + ("&curr=")@
        + q.curr@ + ("&max_stopovers=")@ + spec_dec(q.max_stopovers as nat) + ("&sort=")@ + q.sort@
        + ("&limit=")@ + spec_dec(q.limit as nat) + (match q.return_from {
        Some(s) => ("&return_from=")@ + s@,
        None => Seq::<char>::empty(),
    }) + (match q.return_to {
        Some(s) => ("&return_to=")@ + s@,
        None => Seq::<char>::empty(),
    })
}

/// Builds the search URL for a validated query.
pub fn build_search_url(q: &FlightQuery) -> (r: String)
    ensures
        r@ == spec_search_url(*q),
{
    let mut out = String::new();
    out.append("https://api.tequila.kiwi.com/v2/search?fly_from=");
    out.append(q.fly_from.as_str());
    out.append("&fly_to=");
    out.append(q.fly_to.as_str());
    out.append("&date_from=");
    out.append(q.date_from.as_str());
    out.append("&date_to=");
    out.append(q.date_to.as_str());
    out.append("&adults=");
    push_dec(&mut out, q.adults);
    out.append("&children=");
    push_dec(&mut out, q.children);
    out.append("&infants=");
    push_dec(&mut out, q.infants);
    out.append("&selected_cabins=");
    out.append(q.selected_cabins.as_str());
    out.append("&curr=");
    out.append(q.curr.as_str());
    out.append("&max_stopovers=");
    push_dec(&mut out, q.max_stopovers);
    out.append("&sort=");
    out.append(q.sort.as_str());
    out.append("&limit=");
    push_dec(&mut out, q.limit);
    match &q.return_from {
        Some(s) => {
            out.append("&return_from=");
            out.append(s.as_str());
        },
        None => {},
    }
    match &q.return_to {
        Some(s) => {
            out.append("&return_to=");
            out.append(s.as_str());
        },
        None => {},
    }
    proof {
        assert(out@ =~= spec_search_url(*q));
    }
    out
}

} // verus!
