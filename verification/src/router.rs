//! Route resolution: the dispatcher's decision of which handler a request
//! gets. The table maps a (method, target) pair to a handler key and keeps a
//! fallback handler key for each error status; later registrations of the
//! same pair win, as a map insert would. The handler bodies themselves are
//! external collaborators — the table only names them by key.

use vstd::prelude::*;

use crate::http::HttpError;
use crate::http::HttpMethod;
use crate::http::HttpRequest;

verus! {

/// One registered route: a (method, target) pair and the key of its handler.
pub struct RouteEntry {
    pub method: HttpMethod,
    pub uri: String,
    pub handler: u64,
}

/// The route table plus the fallback handler key for each error status.
pub struct Router {
    /// Registered routes, oldest first; the latest matching entry wins.
    pub routes: Vec<RouteEntry>,
    /// Handler key used when no route matches.
    pub not_found: u64,
    /// Handler key used when the request line cannot be parsed.
    pub bad_request: u64,
    /// Handler key used for server-side failures.
    pub internal_error: u64,
}

/// The handler key the table gives a (method, target) pair: that of the most
/// recently registered matching entry, if any.
pub open spec fn find_route(rs: Seq<RouteEntry>, m: HttpMethod, uri: Seq<char>) -> Option<u64>
    decreases rs.len(),
{
    if rs.len() == 0 {
        None
    } else if rs.last().method == m && rs.last().uri@ == uri {
        Some(rs.last().handler)
    } else {
        find_route(rs.drop_last(), m, uri)
    }
}

/// Whether two string slices hold the same characters.
fn str_eq(a: &str, b: &str) -> (r: bool)
    ensures
        r == (a@ == b@),
{
    let na = a.unicode_len();
    let nb = b.unicode_len();
    if na != nb {
        return false;
    }
    let mut i: usize = 0;
    while i < na
        invariant
            i <= na,
            na == a@.len(),
            na == b@.len(),
            forall|k: int| 0 <= k < i ==> a@[k] == b@[k],
        decreases na - i,
    {
        if a.get_char(i) != b.get_char(i) {
            return false;
        }
        i = i + 1;
    }
    proof {
        assert(a@ =~= b@);
    }
    true
}

impl Router {
    /// Builds an empty table with the three fallback handler keys.
    pub fn new(not_found: u64, bad_request: u64, internal_error: u64) -> (r: Router)
        ensures
            r.routes@.len() == 0,
            r.not_found == not_found,
            r.bad_request == bad_request,
            r.internal_error == internal_error,
    {
        Router { routes: Vec::new(), not_found, bad_request, internal_error }
    }

    /// Registers a handler key for a (method, target) pair. A later
    /// registration of the same pair overrides earlier ones.
    pub fn add_route(&mut self, method: HttpMethod, uri: String, handler: u64)
        ensures
            final(self).routes@ == old(self).routes@.push(RouteEntry { method, uri, handler }),
            final(self).not_found == old(self).not_found,
            final(self).bad_request == old(self).bad_request,
            final(self).internal_error == old(self).internal_error,
    {
        self.routes.push(RouteEntry { method, uri, handler });
    }

    /// Looks the (method, target) pair up in the table.
    pub fn resolve(&self, method: &HttpMethod, uri: &str) -> (h: Option<u64>)
        ensures
            h == find_route(self.routes@, *method, uri@),
    {
        let ghost rs = self.routes@;
        let mut i: usize = self.routes.len();
        proof {
            assert(rs.take(i as int) =~= rs);
        }
        while i > 0
            invariant
                i <= self.routes@.len(),
                rs == self.routes@,
                find_route(rs, *method, uri@) == find_route(rs.take(i as int), *method, uri@),
            decreases i,
        {
            let e = &self.routes[i - 1];
            proof {
                assert(rs.take(i as int).last() == rs[i - 1]);
                assert(rs.take(i as int).drop_last() =~= rs.take(i as int - 1));
            }
            if e.method == *method && str_eq(e.uri.as_str(), uri) {
                return Some(e.handler);
            }
            i = i - 1;
        }
        proof {
            assert(rs.take(0) =~= Seq::<RouteEntry>::empty());
        }
        None
    }

    /// The fallback handler key for an error status.
    pub fn error_handler(&self, e: &HttpError) -> (h: u64)
        ensures
            *e is BadRequest ==> h == self.bad_request,
            *e is NotFound ==> h == self.not_found,
            *e is InternalServerError ==> h == self.internal_error,
    {
        match e {
            HttpError::BadRequest => self.bad_request,
            HttpError::NotFound => self.not_found,
            HttpError::InternalServerError => self.internal_error,
        }
    }

    /// The dispatcher's whole decision for one connection: exactly one
    /// handler key per parsed (or unparsable) request line. An unreadable
    /// line gets the bad-request handler, an unknown route the not-found
    /// handler, and a registered route its own handler.
    pub fn dispatch(&self, req: &Option<HttpRequest>) -> (h: u64)
        ensures
            req is None ==> h == self.bad_request,
            req is Some ==> match find_route(
                self.routes@,
                req.unwrap().method,
                req.unwrap().uri@,
            ) {
                Some(k) => h == k,
                None => h == self.not_found,
            },
    {
        match req {
            None => self.bad_request,
            Some(r) => match self.resolve(&r.method, r.uri.as_str()) {
                Some(k) => k,
                None => self.not_found,
            },
        }
    }
}

} // verus!
