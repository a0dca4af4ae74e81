//! Routes: the method and the rendered path of one API operation.

use vstd::prelude::*;

verus! {

/// The HTTP methods that the API's routes use.
#[derive(Clone, Copy, Debug, PartialEq, Eq, Hash, Structural)]
pub enum LightMethod {
    /// Indicates that a route is for the `DELETE` method only.
    Delete,
    /// Indicates that a route is for the `GET` method only.
    Get,
    /// Indicates that a route is for the `PATCH` method only.
    Patch,
    /// Indicates that a route is for the `POST` method only.
    Post,
    /// Indicates that a route is for the `PUT` method only.
    Put,
}

impl LightMethod {
    /// The method's name as it stands in a request line.
    pub open spec fn name(self) -> Seq<char> {
        match self {
            LightMethod::Delete => "DELETE"@,
            LightMethod::Get => "GET"@,
            LightMethod::Patch => "PATCH"@,
            LightMethod::Post => "POST"@,
            LightMethod::Put => "PUT"@,
        }
    }
}

/// A logical API operation: its method, the template of its path, and the
/// path rendered with the operation's parameters. The rendered path may
/// already be fully qualified, that is, begin with the API's base address.
#[derive(Clone, Copy, Debug)]
pub struct RouteInfo<'a> {
    pub method: LightMethod,
    pub template: &'a str,
    pub path: &'a str,
}

impl<'a> RouteInfo<'a> {
    /// A route with the given method, path template and rendered path.
    pub fn new(method: LightMethod, template: &'a str, path: &'a str) -> (route: Self)
        ensures
            route.method == method,
            route.template@ == template@,
            route.path@ == path@,
    {
        RouteInfo { method, template, path }
    }

    /// The method, the path template and the rendered path of the route.
    pub fn deconstruct(&self) -> (parts: (LightMethod, &'a str, &'a str))
        ensures
            parts.0 == self.method,
            parts.1@ == self.template@,
            parts.2@ == self.path@,
    {
        (self.method, self.template, self.path)
    }
}

} // verus!
