//! The requests that the service answers, and the handler of each.

use vstd::prelude::*;

verus! {

/// Where the routes are mounted.
pub const MOUNT_POINT: &'static str = "/vinyl_library";

/// The method of a request.
#[derive(Clone, Copy, Debug, PartialEq, Eq, Structural)]
pub enum Method {
    Get,
    Post,
}

/// The handler that a request goes to.
#[derive(Clone, Copy, Debug, PartialEq, Eq, Structural)]
pub enum Endpoint {
    ListAllArtists,
    AddArtist,
    ListVinylsForArtist,
    DeleteArtist,
    UpdateArtist,
    ListAllVinyls,
    AddVinyl,
    UpdateVinyl,
    DeleteVinyl,
    ShuffleVinyls,
    GetImage,
    GetImageNames,
    UploadImage,
}

/// One route: a method, a path below the mount point, in which angle
/// brackets name what the request supplies, and the handler.
#[derive(Clone, Copy, Debug, PartialEq, Eq)]
pub struct Route {
    pub method: Method,
    pub path: &'static str,
    pub endpoint: Endpoint,
}

/// What a [`Route`] is to a contract.
pub struct RouteView {
    pub method: Method,
    pub path: Seq<char>,
    pub endpoint: Endpoint,
}

impl DeepView for Route {
    type V = RouteView;

    open spec fn deep_view(&self) -> RouteView {
        RouteView { method: self.method, path: self.path@, endpoint: self.endpoint }
    }
}

/// The route of a `GET` request.
pub open spec fn get(path: &'static str, endpoint: Endpoint) -> RouteView {
    RouteView { method: Method::Get, path: path@, endpoint }
}

/// The route of a `POST` request.
pub open spec fn post(path: &'static str, endpoint: Endpoint) -> RouteView {
    RouteView { method: Method::Post, path: path@, endpoint }
}

/// The routes of the service.
pub open spec fn route_table() -> Seq<RouteView> {
    seq![
        get("/artists", Endpoint::ListAllArtists),
        post("/artists", Endpoint::AddArtist),
        get("/artists/list_vinyls?<id>", Endpoint::ListVinylsForArtist),
        post("/artists/delete?<id>", Endpoint::DeleteArtist),
        post("/artists/update?<id>", Endpoint::UpdateArtist),
        get("/vinyls", Endpoint::ListAllVinyls),
        post("/vinyls", Endpoint::AddVinyl),
        post("/vinyls/update?<id>", Endpoint::UpdateVinyl),
        post("/vinyls/delete?<id>", Endpoint::DeleteVinyl),
        get("/vinyls/shuffle?<count>", Endpoint::ShuffleVinyls),
        get("/images/<image_name>", Endpoint::GetImage),
        get("/images", Endpoint::GetImageNames),
        post("/images/upload/<filename>", Endpoint::UploadImage),
    ]
}

fn route(method: Method, path: &'static str, endpoint: Endpoint) -> (route: Route)
    ensures
        route.deep_view() == (RouteView { method, path: path@, endpoint }),
{
    Route { method, path, endpoint }
}

/// The routes to mount at [`MOUNT_POINT`]: one for each handler.
pub fn rocket() -> (routes: Vec<Route>)
    ensures
        routes.deep_view() == route_table(),
{
    let mut routes: Vec<Route> = Vec::new();
    routes.push(route(Method::Get, "/artists", Endpoint::ListAllArtists));
    routes.push(route(Method::Post, "/artists", Endpoint::AddArtist));
    routes.push(route(Method::Get, "/artists/list_vinyls?<id>", Endpoint::ListVinylsForArtist));
    routes.push(route(Method::Post, "/artists/delete?<id>", Endpoint::DeleteArtist));
    routes.push(route(Method::Post, "/artists/update?<id>", Endpoint::UpdateArtist));
    routes.push(route(Method::Get, "/vinyls", Endpoint::ListAllVinyls));
    routes.push(route(Method::Post, "/vinyls", Endpoint::AddVinyl));
    routes.push(route(Method::Post, "/vinyls/update?<id>", Endpoint::UpdateVinyl));
    routes.push(route(Method::Post, "/vinyls/delete?<id>", Endpoint::DeleteVinyl));
    routes.push(route(Method::Get, "/vinyls/shuffle?<count>", Endpoint::ShuffleVinyls));
    routes.push(route(Method::Get, "/images/<image_name>", Endpoint::GetImage));
    routes.push(route(Method::Get, "/images", Endpoint::GetImageNames));
    routes.push(route(Method::Post, "/images/upload/<filename>", Endpoint::UploadImage));
    assert(routes.deep_view() =~= route_table());
    routes
}

} // verus!
