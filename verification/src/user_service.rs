//! The user directory: what each request is answered with once the store has
//! done its part, and the links of a page of the listing.

use crate::error::{field_errors_view, ApiErrorType, StoreError};
use crate::model::{Link, LinkHref, Meta, User, UserListResponse, UserView, Users};
use crate::request::{Pagination, Reply};
use crate::text::{integer, integer_spec};
use vstd::prelude::*;
use vstd::string::*;

verus! {

/// Where a listing starts where the request does not say.
pub const DEFAULT_SKIP_SIZE: u64 = 0;

/// How long a page is where the request does not say.
pub const DEFAULT_LIMIT_SIZE: i64 = 20;

/// The address of the page that starts at `offset` and has `limit` entries.
pub open spec fn href_spec(offset: int, limit: int) -> Seq<char> {
    "/api/users?offset="@ + integer_spec(offset) + "&limit="@ + integer_spec(limit)
}

/// A number of 64 bits and a sign, read as the 64 bits without the sign: a
/// negative one counts from 2^64 down.
pub open spec fn unsigned_spec(n: int) -> int {
    if n >= 0 {
        n
    } else {
        n + 0x1_0000_0000_0000_0000
    }
}

/// The start of the last page: the largest multiple of the limit, read
/// without its sign, that is not above `total`.
pub open spec fn last_offset_spec(total: nat, limit: i64) -> nat
    recommends
        limit != 0,
{
    ((total / unsigned_spec(limit as int) as nat) * unsigned_spec(limit as int)) as nat
}

/// The offset that the neighbouring pages are counted from: the offset
/// itself, or 0 where it does not fit a signed number of 64 bits.
pub open spec fn base_offset_spec(offset: u64) -> nat {
    if offset <= i64::MAX {
        offset as nat
    } else {
        0
    }
}

/// The addresses of a page and of the pages around it.
pub struct LinkView {
    pub first: Seq<char>,
    pub last: Seq<char>,
    pub previous: Option<Seq<char>>,
    pub next: Option<Seq<char>>,
    pub self_link: Seq<char>,
}

impl View for Link {
    type V = LinkView;

    open spec fn view(&self) -> LinkView {
        LinkView {
            first: self.first.href@,
            last: self.last.href@,
            previous: match self.previous {
                Some(link) => Some(link.href@),
                None => None,
            },
            next: match self.next {
                Some(link) => Some(link.href@),
                None => None,
            },
            self_link: self.self_link.href@,
        }
    }
}

/// The links of the page at `offset` with `limit` entries, out of `total`.
/// The first page starts at 0 and the last at `last_offset_spec`. The page
/// before starts one limit below the base offset and is there unless that is
/// below 0; the page after starts one limit above it and is there unless that
/// start, read without its sign, is above the start of the last page. All of
/// it is counted in whole numbers, so that nothing wraps; with a limit below
/// 0 the page before lies above the offset and the page after below it.
pub open spec fn links_spec(offset: u64, limit: i64, total: u64) -> LinkView
    recommends
        limit != 0,
{
    let base = base_offset_spec(offset);
    let last = last_offset_spec(total as nat, limit);
    LinkView {
        first: href_spec(0, limit as int),
        last: href_spec(last as int, limit as int),
        previous: if base - limit < 0 {
            None
        } else {
            Some(href_spec(base - limit, limit as int))
        },
        next: if unsigned_spec(base + limit) > last {
            None
        } else {
            Some(href_spec(base + limit, limit as int))
        },
        self_link: href_spec(offset as int, limit as int),
    }
}

/// The offset and the limit of a request: its own where it names them, 0 and
/// 20 where it does not.
pub open spec fn page_spec(pagination: Pagination) -> (u64, i64) {
    (
        match pagination.offset {
            Some(offset) => offset,
            None => DEFAULT_SKIP_SIZE,
        },
        match pagination.limit {
            Some(limit) => limit,
            None => DEFAULT_LIMIT_SIZE,
        },
    )
}

/// The largest multiple of a positive number within another is not above it.
proof fn multiple_within(total: nat, limit: nat)
    requires
        limit > 0,
    ensures
        (total / limit) * limit <= total,
{
    vstd::arithmetic::div_mod::lemma_fundamental_div_mod(total as int, limit as int);
    vstd::arithmetic::div_mod::lemma_mod_bound(total as int, limit as int);
    assert((total / limit) * limit == limit * (total / limit)) by (nonlinear_arith);
}

fn href(offset: i128, limit: i64) -> (r: LinkHref)
    requires
        -0x1_0000_0000_0000_0000 < offset < 0x1_0000_0000_0000_0000,
    ensures
        r.href@ == href_spec(offset as int, limit as int),
{
    let mut text = "/api/users?offset=".to_owned();
    text.append(integer(offset).as_str());
    text.append("&limit=");
    text.append(integer(limit as i128).as_str());
    LinkHref { href: text }
}

/// The offset and the limit that the store is asked with.
pub fn page_of(pagination: &Pagination) -> (r: (u64, i64))
    ensures
        r == page_spec(*pagination),
{
    let offset = match pagination.offset {
        Some(offset) => offset,
        None => DEFAULT_SKIP_SIZE,
    };
    let limit = match pagination.limit {
        Some(limit) => limit,
        None => DEFAULT_LIMIT_SIZE,
    };
    (offset, limit)
}

/// The links of the page at `offset` with `limit` entries, out of `total`.
/// There is no page of no entries: the limit is not 0.
pub fn page_links(offset: u64, limit: i64, total: u64) -> (r: Link)
    requires
        limit != 0,
    ensures
        r@ == links_spec(offset, limit, total),
{
    let wide: i128 = limit as i128;
    let step: u64 = if limit > 0 {
        limit as u64
    } else {
        (wide + 0x1_0000_0000_0000_0000) as u64
    };
    assert(step == unsigned_spec(limit as int));
    proof {
        multiple_within(total as nat, step as nat);
    }
    let last: u64 = (total / step) * step;
    let base: i128 = if offset <= 0x7FFF_FFFF_FFFF_FFFF {
        offset as i128
    } else {
        0
    };
    let before: i128 = base - wide;
    let after: i128 = base + wide;
    let after_unsigned: i128 = if after >= 0 {
        after
    } else {
        after + 0x1_0000_0000_0000_0000
    };
    let previous = if before < 0 {
        None
    } else {
        Some(href(before, limit))
    };
    let next = if after_unsigned > last as i128 {
        None
    } else {
        Some(href(after, limit))
    };
    Link {
        first: href(0, limit),
        last: href(last as i128, limit),
        previous,
        next,
        self_link: href(offset as i128, limit),
    }
}

/// What a request for a page of the listing is answered with, from what the
/// store gave: an internal error where it could not list, whatever the page;
/// a bad request for a page of no entries; else the page, with the total as
/// the store counted it, or 0 where it could not count.
pub open spec fn listing_spec(
    r: Result<UserListResponse, ApiErrorType>,
    pagination: Pagination,
    user_list: Result<Vec<Users>, StoreError>,
    user_count: Result<u64, StoreError>,
) -> bool {
    let (offset, limit) = page_spec(pagination);
    match user_list {
        Err(_) => r == Err::<UserListResponse, ApiErrorType>(ApiErrorType::InternalServerError),
        Ok(users) => if limit == 0 {
            r == Err::<UserListResponse, ApiErrorType>(ApiErrorType::BadRequest)
        } else {
            let total = match user_count {
                Ok(n) => n,
                Err(_) => 0,
            };
            &&& r matches Ok(page)
            &&& page.data == users
            &&& page.meta.offset == offset
            &&& page.meta.limit == limit
            &&& page.meta.total_results == total
            &&& page.meta.search_criteria is None
            &&& page.meta.sort_by is None
            &&& page._link@ == links_spec(offset, limit, total)
        },
    }
}

/// The answer to a request for a page of the listing, from what the store
/// gave: the users of the page and their number in all.
pub fn get_all_users(
    pagination: &Pagination,
    user_list: Result<Vec<Users>, StoreError>,
    user_count: Result<u64, StoreError>,
) -> (r: Result<UserListResponse, ApiErrorType>)
    ensures
        listing_spec(r, *pagination, user_list, user_count),
{
    let (offset, limit) = page_of(pagination);
    let total = match user_count {
        Ok(n) => n,
        Err(_) => 0,
    };
    match user_list {
        Err(_) => Err(ApiErrorType::InternalServerError),
        Ok(users) => {
            if limit == 0 {
                return Err(ApiErrorType::BadRequest);
            }
            Ok(
                UserListResponse {
                    data: users,
                    meta: Meta {
                        offset,
                        limit,
                        total_results: total,
                        search_criteria: None,
                        sort_by: None,
                    },
                    _link: page_links(offset, limit, total),
                },
            )
        },
    }
}

/// Holds a user that a client sent to its rules, and refuses it with every
/// field that breaks one.
pub fn validate_user(sent: &User) -> (r: Result<(), ApiErrorType>)
    ensures
        sent.violations().len() == 0 <==> r is Ok,
        r matches Err(e) ==> e matches ApiErrorType::ValidationError { validation_error, object }
            && field_errors_view(validation_error@) == sent.violations() && object@ == "User"@,
{
    let errors = sent.validate();
    if errors.len() == 0 {
        Ok(())
    } else {
        Err(ApiErrorType::ValidationError { validation_error: errors, object: "User".to_owned() })
    }
}

/// The user that is stored for a new user: what the client sent, without an
/// identifier.
pub fn new_user(sent: &User) -> (r: User)
    ensures
        r@ == (UserView { id: None, ..sent@ }),
{
    User {
        id: None,
        name: sent.name.clone(),
        location: sent.location.clone(),
        title: sent.title.clone(),
    }
}

/// The answer to the creation of a user, from what the store gave back: the
/// stored user with status 201, or an internal error where the store failed
/// or has nothing to show.
pub fn create_user(created: Result<Option<User>, StoreError>) -> (r: Result<
    Reply<User>,
    ApiErrorType,
>)
    ensures
        match created {
            Ok(Some(user)) => r == Ok::<Reply<User>, ApiErrorType>(Reply { status: 201, body: user }),
            _ => r == Err::<Reply<User>, ApiErrorType>(ApiErrorType::InternalServerError),
        },
{
    match created {
        Ok(Some(user)) => Ok(Reply { status: 201, body: user }),
        Ok(None) => Err(ApiErrorType::InternalServerError),
        Err(_) => Err(ApiErrorType::InternalServerError),
    }
}

/// The answer to a request for one user, from what the store found.
pub fn handle_optional_user_response(user: Result<Option<User>, StoreError>) -> (r: Result<
    Reply<User>,
    ApiErrorType,
>)
    ensures
        match user {
            Ok(Some(found)) => r == Ok::<Reply<User>, ApiErrorType>(
                Reply { status: 200, body: found },
            ),
            Ok(None) => r == Err::<Reply<User>, ApiErrorType>(ApiErrorType::UserNotFound),
            Err(_) => r == Err::<Reply<User>, ApiErrorType>(ApiErrorType::InternalServerError),
        },
{
    match user {
        Ok(Some(found)) => Ok(Reply { status: 200, body: found }),
        Ok(None) => Err(ApiErrorType::UserNotFound),
        Err(_) => Err(ApiErrorType::InternalServerError),
    }
}

/// Whether a user can be looked up by `id`: not by an empty one.
pub fn get_user_by_id(id: &str) -> (r: Result<(), ApiErrorType>)
    ensures
        id@.len() > 0 ==> r is Ok,
        id@.len() == 0 ==> r == Err::<(), ApiErrorType>(ApiErrorType::BadRequest),
{
    if id.unicode_len() == 0 {
        Err(ApiErrorType::BadRequest)
    } else {
        Ok(())
    }
}

/// The user that an update writes under `id`: what the client sent, with
/// that identifier. An empty identifier is a bad request.
pub fn update_user(id: &str, sent: &User) -> (r: Result<User, ApiErrorType>)
    ensures
        id@.len() == 0 ==> r == Err::<User, ApiErrorType>(ApiErrorType::BadRequest),
        id@.len() > 0 ==> (r matches Ok(user) && user@ == (UserView {
            id: Some(id@),
            ..sent@
        })),
{
    if id.unicode_len() == 0 {
        return Err(ApiErrorType::BadRequest);
    }
    Ok(
        User {
            id: Some(id.to_owned()),
            name: sent.name.clone(),
            location: sent.location.clone(),
            title: sent.title.clone(),
        },
    )
}

/// What follows an update, from the number of users that the store matched:
/// with exactly one the user is read again, with any other number there is no
/// such user.
pub fn updated(matched_count: Result<u64, StoreError>) -> (r: Result<(), ApiErrorType>)
    ensures
        match matched_count {
            Ok(n) => if n == 1 {
                r is Ok
            } else {
                r == Err::<(), ApiErrorType>(ApiErrorType::UserNotFound)
            },
            Err(_) => r == Err::<(), ApiErrorType>(ApiErrorType::InternalServerError),
        },
{
    match matched_count {
        Ok(n) => if n == 1 {
            Ok(())
        } else {
            Err(ApiErrorType::UserNotFound)
        },
        Err(_) => Err(ApiErrorType::InternalServerError),
    }
}

/// Whether a user can be deleted by `id`: an empty one names no user.
pub fn delete_user(id: &str) -> (r: Result<(), ApiErrorType>)
    ensures
        id@.len() > 0 ==> r is Ok,
        id@.len() == 0 ==> r == Err::<(), ApiErrorType>(ApiErrorType::UserNotFound),
{
    if id.unicode_len() == 0 {
        Err(ApiErrorType::UserNotFound)
    } else {
        Ok(())
    }
}

/// The status that answers a deletion, from the number of users that the
/// store deleted: 204 for exactly one, no such user for any other number.
pub fn deleted(deleted_count: Result<u64, StoreError>) -> (r: Result<u16, ApiErrorType>)
    ensures
        match deleted_count {
            Ok(n) => if n == 1 {
                r == Ok::<u16, ApiErrorType>(204)
            } else {
                r == Err::<u16, ApiErrorType>(ApiErrorType::UserNotFound)
            },
            Err(_) => r == Err::<u16, ApiErrorType>(ApiErrorType::InternalServerError),
        },
{
    match deleted_count {
        Ok(n) => if n == 1 {
            Ok(204)
        } else {
            Err(ApiErrorType::UserNotFound)
        },
        Err(_) => Err(ApiErrorType::InternalServerError),
    }
}

} // verus!
