use ostui::models::common::Route;
use ostui::router::{Router, MAX_HISTORY};

#[test]
fn test_router_navigate() {
    let mut router = Router::new(Route::Servers);
    router.navigate(Route::Networks);
    assert_eq!(router.current(), Route::Networks);
    assert_eq!(router.previous(), Some(Route::Servers));
}

#[test]
fn test_router_back() {
    let mut router = Router::new(Route::Servers);
    router.navigate(Route::Networks);
    router.navigate(Route::Volumes);

    let prev = router.back();
    assert_eq!(prev, Some(Route::Networks));
    assert_eq!(router.current(), Route::Networks);

    let prev = router.back();
    assert_eq!(prev, Some(Route::Servers));
    assert_eq!(router.current(), Route::Servers);
}

#[test]
fn test_router_back_empty() {
    let mut router = Router::new(Route::Servers);
    assert_eq!(router.back(), None);
    assert_eq!(router.current(), Route::Servers);
}

#[test]
fn test_router_replace() {
    let mut router = Router::new(Route::Servers);
    router.navigate(Route::Networks);
    router.replace(Route::Volumes);

    assert_eq!(router.current(), Route::Volumes);
    let prev = router.back();
    assert_eq!(prev, Some(Route::Servers));
}

#[test]
fn test_router_reset() {
    let mut router = Router::new(Route::Servers);
    router.navigate(Route::Networks);
    router.navigate(Route::Volumes);

    router.reset(Route::Projects);
    assert_eq!(router.current(), Route::Projects);
    assert_eq!(router.back(), None);
}

#[test]
fn test_router_history_limit() {
    let mut router = Router::new(Route::Servers);
    let routes = [
        Route::Networks,
        Route::Volumes,
        Route::Images,
        Route::Projects,
        Route::Users,
        Route::Flavors,
        Route::Aggregates,
        Route::ComputeServices,
        Route::Hypervisors,
        Route::SecurityGroups,
        Route::FloatingIps,
        Route::Agents,
        Route::Snapshots,
        Route::Usage,
        Route::ServerDetail,
        Route::NetworkDetail,
        Route::VolumeDetail,
        Route::ImageDetail,
        Route::SecurityGroupDetail,
        Route::ServerCreate,
        Route::VolumeCreate,
    ];
    for &r in &routes {
        router.navigate(r);
    }
    assert!(router.history().len() <= MAX_HISTORY);
    assert_eq!(router.current(), Route::VolumeCreate);
    assert!(!router.history().contains(&Route::Servers));
}

#[test]
fn test_router_navigate_same_route() {
    let mut router = Router::new(Route::Servers);
    router.navigate(Route::Servers);
    assert_eq!(router.back(), None);
    assert_eq!(router.current(), Route::Servers);
}

#[test]
fn back_after_navigate_returns_to_the_start() {
    let mut router = Router::new(Route::Flavors);
    router.navigate(Route::Images);
    assert_eq!(router.back(), Some(Route::Flavors));
    assert_eq!(router.current(), Route::Flavors);
    assert_eq!(router.history().len(), 0);
}
