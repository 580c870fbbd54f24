//! Routing of the LEAP provisioning site.
//!
//! The provisioning site walks the user through the configuration of a
//! device: storage, network and LEAP settings, until provisioning is
//! complete. The server reports the current [`ProvisionStatus`]; each status
//! has the [`Route`] of the page where the user continues, and a page that
//! is not that route redirects there.
use vstd::prelude::*;

verus! {

/// The provisioning status that the server reports: the step of the
/// provisioning process that the device has reached.
#[derive(Debug, Clone, Copy, PartialEq, Eq, Structural)]
pub enum ProvisionStatus {
    /// The storage is to be configured.
    StorageConfig,
    /// The network is to be configured.
    NetworkConfig,
    /// The LEAP settings are to be configured.
    LeapConfig,
    /// Provisioning is complete.
    Completed,
}

/// Represents the different routes available in the provisioning application.
#[derive(Debug, Clone, Copy, PartialEq, Eq, Structural)]
pub enum Route {
    /// The initial landing page.
    Start,
    /// The page for configuring storage settings.
    StorageConfig,
    /// The page for configuring network settings.
    NetworkConfig,
    /// The page for configuring LEAP-specific settings.
    LeapConfig,
    /// The page shown when provisioning is complete.
    Completed,
}

/// The route of the page where the user continues at the status `status`.
pub open spec fn route_of(status: ProvisionStatus) -> Route {
    match status {
        ProvisionStatus::StorageConfig => Route::StorageConfig,
        ProvisionStatus::NetworkConfig => Route::NetworkConfig,
        ProvisionStatus::LeapConfig => Route::LeapConfig,
        ProvisionStatus::Completed => Route::Completed,
    }
}

impl vstd::std_specs::convert::FromSpecImpl<ProvisionStatus> for Route {
    open spec fn obeys_from_spec() -> bool {
        true
    }

    open spec fn from_spec(v: ProvisionStatus) -> Route {
        route_of(v)
    }
}

impl From<ProvisionStatus> for Route {
    fn from(value: ProvisionStatus) -> (r: Route) {
        match value {
            ProvisionStatus::StorageConfig => Route::StorageConfig,
            ProvisionStatus::NetworkConfig => Route::NetworkConfig,
            ProvisionStatus::LeapConfig => Route::LeapConfig,
            ProvisionStatus::Completed => Route::Completed,
        }
    }
}

/// The page that shows the route `current` redirects to the route of the
/// provisioning status `status` where that route is another one.
pub open spec fn spec_redirect(status: ProvisionStatus, current: Route) -> Option<Route> {
    if route_of(status) != current {
        Some(route_of(status))
    } else {
        None
    }
}

/// Decides where the page that shows the route `current` redirects the user
/// once the server has reported the provisioning status `status`: to the
/// route of that status, or nowhere where the page already shows it.
pub fn redirect_target(status: ProvisionStatus, current: Route) -> (r: Option<Route>)
    ensures
        r == spec_redirect(status, current),
{
    let target = Route::from(status);
    if target != current {
        Some(target)
    } else {
        None
    }
}

/// Each provisioning status has its own route, and none of them is the
/// start page.
pub proof fn lemma_route_of_is_injective(a: ProvisionStatus, b: ProvisionStatus)
    ensures
        route_of(a) != Route::Start,
        route_of(a) == route_of(b) ==> a == b,
{
}

/// Redirection settles: a page redirects exactly where it does not show the
/// route of the status, it redirects to that route, and the page there does
/// not redirect again.
pub proof fn lemma_redirect_settles(status: ProvisionStatus, current: Route)
    ensures
        spec_redirect(status, current) is None <==> current == route_of(status),
        spec_redirect(status, current) matches Some(target) ==> target == route_of(status)
            && spec_redirect(status, target) is None,
{
}

} // verus!
