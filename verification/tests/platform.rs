use awake_toggle::controller::ToggleController;
use awake_toggle::platform::{HostError, Platform};

#[test]
fn darwin_triples_are_macos() {
    assert_eq!(Platform::from_triple("aarch64-apple-darwin"), Platform::MacOS);
    assert_eq!(Platform::from_triple("x86_64-apple-darwin"), Platform::MacOS);
}

#[test]
fn windows_triples_are_windows() {
    assert_eq!(Platform::from_triple("x86_64-pc-windows-msvc"), Platform::Windows);
    assert_eq!(Platform::from_triple("i686-pc-windows-gnu"), Platform::Windows);
}

#[test]
fn android_triples_are_android() {
    assert_eq!(Platform::from_triple("aarch64-linux-android"), Platform::Android);
}

#[test]
fn ios_triples_are_ios() {
    assert_eq!(Platform::from_triple("aarch64-apple-ios"), Platform::Ios);
}

#[test]
fn other_triples_are_linux() {
    assert_eq!(Platform::from_triple("x86_64-unknown-linux-gnu"), Platform::Linux);
    assert_eq!(Platform::from_triple("x86_64-unknown-freebsd"), Platform::Linux);
    assert_eq!(Platform::from_triple(""), Platform::Linux);
    assert_eq!(Platform::from_triple("darwi"), Platform::Linux);
}

#[test]
fn first_marker_in_the_fixed_order_decides() {
    assert_eq!(Platform::from_triple("windows-darwin"), Platform::MacOS);
    assert_eq!(Platform::from_triple("ios-android-windows"), Platform::Windows);
    assert_eq!(Platform::from_triple("ios-android"), Platform::Android);
    assert_eq!(Platform::from_triple("xxdarwinxx"), Platform::MacOS);
}

#[test]
fn only_macos_keeps_awake() {
    assert!(Platform::MacOS.keeps_awake());
    assert!(!Platform::Windows.keeps_awake());
    assert!(!Platform::Linux.keeps_awake());
    assert!(!Platform::Android.keeps_awake());
    assert!(!Platform::Ios.keeps_awake());
}

#[test]
fn controller_exists_on_macos_only() {
    assert!(ToggleController::for_platform(Platform::MacOS).is_some());
    assert!(ToggleController::for_platform(Platform::Windows).is_none());
    assert!(ToggleController::for_platform(Platform::Linux).is_none());
    assert!(ToggleController::for_platform(Platform::Android).is_none());
    assert!(ToggleController::for_platform(Platform::Ios).is_none());
}

#[test]
fn lookup_that_found_a_triple_gives_its_platform() {
    assert_eq!(
        Platform::from_lookup(Ok(String::from("aarch64-apple-darwin"))),
        Ok(Platform::MacOS)
    );
    assert_eq!(
        Platform::from_lookup(Ok(String::from("x86_64-unknown-linux-musl"))),
        Ok(Platform::Linux)
    );
}

#[test]
fn lookup_error_is_passed_on() {
    assert_eq!(Platform::from_lookup(Err(HostError::Architecture)), Err(HostError::Architecture));
    assert_eq!(Platform::from_lookup(Err(HostError::Os)), Err(HostError::Os));
    assert_eq!(Platform::from_lookup(Err(HostError::Environment)), Err(HostError::Environment));
    assert_eq!(Platform::from_lookup(Err(HostError::Other)), Err(HostError::Other));
}

#[test]
fn host_platform_is_one_a_triple_can_name() {
    match Platform::of_host() {
        Ok(platform) => assert!(matches!(
            platform,
            Platform::MacOS | Platform::Windows | Platform::Linux
        )),
        Err(error) => assert!(matches!(
            error,
            HostError::Architecture | HostError::Os | HostError::Environment
        )),
    }
}
