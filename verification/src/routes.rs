//! The routes that every vendor must serve, and the handler that serves each.
use vstd::prelude::*;
use crate::text::text_eq;

verus! {

/// The HTTP methods of the vendor routes.
#[derive(PartialEq, Eq, Structural, Clone, Copy, Debug)]
pub enum RouteMethod {
    GET,
    POST,
    PUT,
    PATCH,
    DELETE,
}

/// The handlers of the common vendor routes.
#[derive(PartialEq, Eq, Structural, Clone, Copy, Debug)]
pub enum VendorHandler {
    GetQuote,
    CreateEsim,
    GetEsim,
    AddExtension,
    GetExtension,
    DeleteExtension,
    GetPackage,
    UpdatePackage,
    AddBalance,
    RefundBalance,
    GetBalance,
}

impl VendorHandler {
    /// The method and path of the route that this handler serves.
    pub open spec fn route(self) -> (RouteMethod, Seq<char>) {
        match self {
            VendorHandler::GetQuote => (RouteMethod::GET, "/get-quote"@),
            VendorHandler::GetEsim => (RouteMethod::GET, "/esim"@),
            VendorHandler::CreateEsim => (RouteMethod::POST, "/esim"@),
            VendorHandler::GetExtension => (RouteMethod::GET, "/extension"@),
            VendorHandler::AddExtension => (RouteMethod::POST, "/extension"@),
            VendorHandler::DeleteExtension => (RouteMethod::DELETE, "/extension/:iccid/:extension_id"@),
            VendorHandler::GetPackage => (RouteMethod::GET, "/package"@),
            VendorHandler::UpdatePackage => (RouteMethod::PATCH, "/package/:id"@),
            VendorHandler::GetBalance => (RouteMethod::GET, "/balance/:iccid"@),
            VendorHandler::AddBalance => (RouteMethod::POST, "/balance/:iccid/topup"@),
            VendorHandler::RefundBalance => (RouteMethod::POST, "/balance/:iccid/refund"@),
        }
    }
}

/// The handler of a common route, by method and path; `None` for a route
/// that this vendor does not serve.
pub open spec fn handler_spec(method: RouteMethod, path: Seq<char>) -> Option<VendorHandler> {
    match method {
        RouteMethod::GET => if path == "/get-quote"@ {
            Some(VendorHandler::GetQuote)
        } else if path == "/esim"@ {
            Some(VendorHandler::GetEsim)
        } else if path == "/extension"@ {
            Some(VendorHandler::GetExtension)
        } else if path == "/package"@ {
            Some(VendorHandler::GetPackage)
        } else if path == "/balance/:iccid"@ {
            Some(VendorHandler::GetBalance)
        } else {
            None
        },
        RouteMethod::POST => if path == "/esim"@ {
            Some(VendorHandler::CreateEsim)
        } else if path == "/extension"@ {
            Some(VendorHandler::AddExtension)
        } else if path == "/balance/:iccid/topup"@ {
            Some(VendorHandler::AddBalance)
        } else if path == "/balance/:iccid/refund"@ {
            Some(VendorHandler::RefundBalance)
        } else {
            None
        },
        RouteMethod::PATCH => if path == "/package/:id"@ {
            Some(VendorHandler::UpdatePackage)
        } else {
            None
        },
        RouteMethod::DELETE => if path == "/extension/:iccid/:extension_id"@ {
            Some(VendorHandler::DeleteExtension)
        } else {
            None
        },
        RouteMethod::PUT => None,
    }
}

/// The handler of a common route.
pub fn vendor_handler(method: RouteMethod, path: &str) -> (r: Option<VendorHandler>)
    ensures
        r == handler_spec(method, path@),
        forall|h: VendorHandler| r == Some(h) <==> #[trigger] h.route() == (method, path@),
{
    proof {
        assert forall|h: VendorHandler| handler_spec(method, path@) == Some(h) <==> #[trigger] h.route() == (
            method,
            path@,
        ) by {
            lemma_route_table(method, path@, h);
        }
    }
    match method {
        RouteMethod::GET => if text_eq(path, "/get-quote") {
            Some(VendorHandler::GetQuote)
        } else if text_eq(path, "/esim") {
            Some(VendorHandler::GetEsim)
        } else if text_eq(path, "/extension") {
            Some(VendorHandler::GetExtension)
        } else if text_eq(path, "/package") {
            Some(VendorHandler::GetPackage)
        } else if text_eq(path, "/balance/:iccid") {
            Some(VendorHandler::GetBalance)
        } else {
            None
        },
        RouteMethod::POST => if text_eq(path, "/esim") {
            Some(VendorHandler::CreateEsim)
        } else if text_eq(path, "/extension") {
            Some(VendorHandler::AddExtension)
        } else if text_eq(path, "/balance/:iccid/topup") {
            Some(VendorHandler::AddBalance)
        } else if text_eq(path, "/balance/:iccid/refund") {
            Some(VendorHandler::RefundBalance)
        } else {
            None
        },
        RouteMethod::PATCH => if text_eq(path, "/package/:id") {
            Some(VendorHandler::UpdatePackage)
        } else {
            None
        },
        RouteMethod::DELETE => if text_eq(path, "/extension/:iccid/:extension_id") {
            Some(VendorHandler::DeleteExtension)
        } else {
            None
        },
        RouteMethod::PUT => None,
    }
}

/// A common route: its method and path.
#[derive(Debug)]
pub struct VendorRoute {
    pub method: RouteMethod,
    pub path: String,
}

/// The first common route that this vendor does not serve, if any: such a
/// route is an error of the vendor interface.
pub fn first_unsupported_route(routes: &Vec<VendorRoute>) -> (r: Option<usize>)
    ensures
        match r {
            Some(i) => {
                &&& i < routes@.len()
                &&& handler_spec(routes@[i as int].method, routes@[i as int].path@) is None
                &&& forall|k: int| 0 <= k < i ==> #[trigger] handler_spec(routes@[k].method, routes@[k].path@) is Some
            },
            None => forall|k: int|
                0 <= k < routes@.len() ==> #[trigger] handler_spec(routes@[k].method, routes@[k].path@) is Some,
        },
{
    let mut i: usize = 0;
    while i < routes.len()
        invariant
            i <= routes.len(),
            forall|k: int| 0 <= k < i ==> #[trigger] handler_spec(routes@[k].method, routes@[k].path@) is Some,
        decreases routes.len() - i,
    {
        if vendor_handler(routes[i].method, routes[i].path.as_str()).is_none() {
            return Some(i);
        }
        i = i + 1;
    }
    None
}

/// The handlers of all the common routes, in order. Every route must be one
/// that this vendor serves (see `first_unsupported_route`): the vendor
/// interface cannot be served otherwise.
pub fn plan_common_routes(routes: &Vec<VendorRoute>) -> (handlers: Vec<VendorHandler>)
    requires
        forall|k: int| 0 <= k < routes@.len() ==> #[trigger] handler_spec(routes@[k].method, routes@[k].path@) is Some,
    ensures
        handlers@.len() == routes@.len(),
        forall|k: int|
            0 <= k < routes@.len() ==> handler_spec(routes@[k].method, routes@[k].path@) == Some(
                #[trigger] handlers@[k],
            ),
{
    let mut handlers: Vec<VendorHandler> = Vec::new();
    let mut i: usize = 0;
    while i < routes.len()
        invariant
            i <= routes.len(),
            handlers@.len() == i,
            forall|k: int| 0 <= k < routes@.len() ==> #[trigger] handler_spec(routes@[k].method, routes@[k].path@) is Some,
            forall|k: int|
                0 <= k < i ==> handler_spec(routes@[k].method, routes@[k].path@) == Some(#[trigger] handlers@[k]),
        decreases routes.len() - i,
    {
        let h = vendor_handler(routes[i].method, routes[i].path.as_str());
        assert(handler_spec(routes@[i as int].method, routes@[i as int].path@) is Some);
        handlers.push(h.unwrap());
        i = i + 1;
    }
    handlers
}

/// Each common route is served by the handler of its name, and by no other:
/// a method and path lead to a handler exactly when they are that handler's
/// route (GET /balance/:iccid to the balance, POST /balance/:iccid/topup to
/// the top-up, POST /balance/:iccid/refund to the refund, and so on).
pub proof fn lemma_route_table(method: RouteMethod, path: Seq<char>, h: VendorHandler)
    ensures
        handler_spec(method, path) == Some(h) <==> h.route() == (method, path),
        handler_spec(h.route().0, h.route().1) == Some(h),
{
    reveal_strlit("/get-quote");
    reveal_strlit("/esim");
    reveal_strlit("/extension");
    reveal_strlit("/package");
    reveal_strlit("/balance/:iccid");
    reveal_strlit("/balance/:iccid/topup");
    reveal_strlit("/balance/:iccid/refund");
    reveal_strlit("/package/:id");
    reveal_strlit("/extension/:iccid/:extension_id");
    // The paths that one method serves differ in length, but for two of
    // the same length that differ in their second character.
    assert("/get-quote"@.len() == 10 && "/extension"@.len() == 10);
    assert("/get-quote"@[1] != "/extension"@[1]);
    assert("/esim"@.len() == 5 && "/package"@.len() == 8 && "/balance/:iccid"@.len() == 15);
    assert("/balance/:iccid/topup"@.len() == 21 && "/balance/:iccid/refund"@.len() == 22);
    match h {
        VendorHandler::GetQuote => {},
        VendorHandler::GetEsim => {},
        VendorHandler::CreateEsim => {},
        VendorHandler::GetExtension => {},
        VendorHandler::AddExtension => {},
        VendorHandler::DeleteExtension => {},
        VendorHandler::GetPackage => {},
        VendorHandler::UpdatePackage => {},
        VendorHandler::GetBalance => {},
        VendorHandler::AddBalance => {},
        VendorHandler::RefundBalance => {},
    }
}

/// No two common routes share a handler: each handler serves one method and path.
pub proof fn lemma_handlers_serve_one_route(m1: RouteMethod, p1: Seq<char>, m2: RouteMethod, p2: Seq<char>)
    requires
        handler_spec(m1, p1) is Some,
        handler_spec(m1, p1) == handler_spec(m2, p2),
    ensures
        m1 == m2,
        p1 == p2,
{
    reveal_strlit("/get-quote");
    reveal_strlit("/esim");
    reveal_strlit("/extension");
    reveal_strlit("/package");
    reveal_strlit("/balance/:iccid");
    reveal_strlit("/balance/:iccid/topup");
    reveal_strlit("/balance/:iccid/refund");
    reveal_strlit("/package/:id");
    reveal_strlit("/extension/:iccid/:extension_id");
}

} // verus!
