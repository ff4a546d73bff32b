//! Where a yield is carried out: by this crate's own future, or by the native
//! yield of a host runtime.
use vstd::prelude::*;
use tokio::runtime::Handle;

verus! {

/// The host runtimes that are built into the program.
#[derive(Clone, Copy, Debug, PartialEq, Eq)]
pub struct Hosts {
    /// tokio, which can be asked whether one of its runtimes is running here.
    pub tokio: bool,
    /// async-std, known by its presence alone.
    pub async_std: bool,
    /// futures-lite, known by its presence alone.
    pub futures_lite: bool,
}

/// The way a yield is carried out.
#[derive(Clone, Copy, Debug, PartialEq, Eq)]
pub enum Route {
    /// `tokio::task::yield_now`.
    Tokio,
    /// `async_std::task::yield_now`.
    AsyncStd,
    /// `futures_lite::future::yield_now`.
    FuturesLite,
    /// This crate's own `YieldNow`.
    Bare,
}

impl Hosts {
    /// Whether the host behind `route` is built in. The bare route always is.
    pub open spec fn offers(self, route: Route) -> bool {
        match route {
            Route::Tokio => self.tokio,
            Route::AsyncStd => self.async_std,
            Route::FuturesLite => self.futures_lite,
            Route::Bare => true,
        }
    }

    /// The number of hosts that are built in.
    pub open spec fn count(self) -> nat {
        (if self.tokio { 1nat } else { 0nat })
            + (if self.async_std { 1nat } else { 0nat })
            + (if self.futures_lite { 1nat } else { 0nat })
    }
}

/// The route of a yield, given the hosts that are built in and whether a
/// tokio runtime is running at the place of the call.
///
/// A tokio that is built in and running goes before everything else. Failing
/// that, the hosts that are known by their presence alone are tried, async-std
/// before futures-lite. A tokio that is built in but not running comes after
/// them, and the bare route is what is left when no host is built in.
///
/// So a host that is seen running is preferred to one that is merely present,
/// and a host that is the only one built in is used whether it is running or
/// not.
pub open spec fn route_for(hosts: Hosts, tokio_running: bool) -> Route {
    if hosts.tokio && tokio_running {
        Route::Tokio
    } else if hosts.async_std {
        Route::AsyncStd
    } else if hosts.futures_lite {
        Route::FuturesLite
    } else if hosts.tokio {
        Route::Tokio
    } else {
        Route::Bare
    }
}

/// Picks the route for the given hosts, `tokio_running` being the answer of
/// tokio to the question whether one of its runtimes is running here.
pub fn choose_route(hosts: Hosts, tokio_running: bool) -> (route: Route)
    ensures
        route == route_for(hosts, tokio_running),
{
    if hosts.tokio && tokio_running {
        Route::Tokio
    } else if hosts.async_std {
        Route::AsyncStd
    } else if hosts.futures_lite {
        Route::FuturesLite
    } else if hosts.tokio {
        Route::Tokio
    } else {
        Route::Bare
    }
}

/// Picks the route at the place of the call: asks tokio, if it is built in,
/// whether a runtime is running on this thread, and goes by the answer.
///
/// Without tokio nothing is asked and the route is fixed by `hosts`. With
/// tokio the route is the one that [`route_for`] gives for tokio's answer,
/// whichever it was.
pub fn current_route(hosts: Hosts) -> (route: Route)
    ensures
        !hosts.tokio ==> route == route_for(hosts, false),
        hosts.tokio ==> route == route_for(hosts, true) || route == route_for(hosts, false),
{
    let tokio_running = hosts.tokio && Handle::try_current().is_ok();
    choose_route(hosts, tokio_running)
}

/// A yield is never sent to a host that is not built in.
pub proof fn route_is_offered(hosts: Hosts, tokio_running: bool)
    ensures
        hosts.offers(route_for(hosts, tokio_running)),
{
}

/// A tokio that is built in and running takes the yield, whatever else is
/// built in.
pub proof fn running_host_goes_first(hosts: Hosts)
    requires
        hosts.tokio,
    ensures
        route_for(hosts, true) == Route::Tokio,
{
}

/// With exactly one host built in, that host takes the yield, running or not.
pub proof fn single_host_is_used(hosts: Hosts, tokio_running: bool)
    requires
        hosts.count() == 1,
    ensures
        route_for(hosts, tokio_running) != Route::Bare,
        hosts.offers(route_for(hosts, tokio_running)),
{
}

/// The bare route is taken exactly when no host is built in.
pub proof fn bare_only_without_hosts(hosts: Hosts, tokio_running: bool)
    ensures
        route_for(hosts, tokio_running) == Route::Bare <==> hosts.count() == 0,
{
}

} // verus!
