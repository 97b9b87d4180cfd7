use partbooter::linux_iso;
use partbooter::model::PayloadKind;
use partbooter::service::PartBooterService;
use partbooter::winpe;

#[test]
fn detects_supported_ubuntu_iso() {
    let detected = linux_iso::detect("C:\\images\\ubuntu-24.04.iso").expect("iso expected");
    assert_eq!(detected.kind, PayloadKind::LinuxIso);
    assert!(detected.supported);
    assert_eq!(detected.profile, "ubuntu-live");
}

#[test]
fn rejects_unknown_profile_as_unsupported() {
    let detected = linux_iso::detect("C:\\images\\random.iso").expect("iso expected");
    assert!(!detected.supported);
    assert_eq!(detected.profile, "unsupported-linux-iso");
}

#[test]
fn detects_supported_winpe_wim() {
    let detected = winpe::detect("C:\\images\\winpe_boot.wim").expect("wim expected");
    assert_eq!(detected.kind, PayloadKind::WinPe);
    assert!(detected.supported);
    assert_eq!(detected.profile, "winpe-wim");
}

#[test]
fn linux_profiles_are_recognised_in_any_case() {
    let debian = linux_iso::detect("/images/DEBIAN-12.ISO").expect("iso expected");
    assert_eq!(debian.profile, "debian-live");
    assert_eq!(debian.display_name, "Debian Live");
    let fedora = linux_iso::detect("/images/Fedora-Workstation.iso").expect("iso expected");
    assert_eq!(fedora.profile, "fedora-live");
    assert_eq!(fedora.source_path, "/images/Fedora-Workstation.iso");
    assert_eq!(
        fedora.notes,
        vec!["Profile supports the v1 Linux ISO loopback path.".to_string()]
    );
}

#[test]
fn other_extensions_are_not_classified() {
    assert!(linux_iso::detect("/images/ubuntu.img").is_none());
    assert!(winpe::detect("/images/ubuntu.iso").is_none());
    assert!(linux_iso::detect("/images/noextension").is_none());
}

#[test]
fn unsupported_wim_names_are_flagged() {
    let detected = winpe::detect("/images/install.wim").expect("wim expected");
    assert!(!detected.supported);
    assert_eq!(detected.profile, "unsupported-winpe");
    assert_eq!(detected.display_name, "Windows PE");
}

#[test]
fn classification_is_exact_in_extension_and_name() {
    let p = winpe::classify("x", Some("WIM"), Some("Boot.wim")).expect("wim expected");
    assert_eq!(p.profile, "winpe-wim");
    assert!(winpe::classify("x", Some("iso"), Some("boot.iso")).is_none());
    assert!(linux_iso::classify("x", Some("iso"), None).is_none());
}

#[test]
fn inspecting_an_unknown_payload_gives_the_unsupported_payload() {
    let service = PartBooterService::new(".partbooter");
    let payload = service.inspect_payload("C:\\images\\notes.txt");
    assert_eq!(payload.kind, PayloadKind::Unsupported);
    assert_eq!(payload.profile, "unsupported");
    assert_eq!(payload.display_name, "Unsupported payload");
    assert!(!payload.supported);
    assert_eq!(
        payload.notes,
        vec!["Only supported Linux ISO profiles and WinPE WIM payloads are accepted in v1.".to_string()]
    );
    let wim = service.inspect_payload("C:\\images\\winpe_boot.wim");
    assert_eq!(wim.kind, PayloadKind::WinPe);
    let iso = service.inspect_payload("C:\\images\\ubuntu.iso");
    assert_eq!(iso.kind, PayloadKind::LinuxIso);
}
