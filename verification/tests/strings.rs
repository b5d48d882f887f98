use upload_server::network::{
    ip_to_string, is_virtual_name, phone_info, pick_preferred, url_for, Ipv4Addr, PhoneInterface,
};
use upload_server::text::{
    contains_substring, extension_of, i64_to_string, mime_for, raw_extension_of, str_eq, trim,
    u64_to_string,
};

fn iface(
    name: &str,
    is_loopback: bool,
    is_private: bool,
    is_link_local: bool,
    is_virtual: bool,
) -> PhoneInterface {
    PhoneInterface {
        name: name.to_string(),
        ip: String::new(),
        url: format!("http://{}/phone", name),
        is_loopback,
        is_private,
        is_link_local,
        is_virtual,
    }
}

#[test]
fn renders_decimals() {
    assert_eq!(u64_to_string(0), "0");
    assert_eq!(u64_to_string(7), "7");
    assert_eq!(u64_to_string(8787), "8787");
    assert_eq!(u64_to_string(18446744073709551615), "18446744073709551615");
    assert_eq!(i64_to_string(0), "0");
    assert_eq!(i64_to_string(1699999999999), "1699999999999");
    assert_eq!(i64_to_string(-45), "-45");
    assert_eq!(i64_to_string(i64::MIN), "-9223372036854775808");
}

#[test]
fn compares_and_searches_strings() {
    assert!(str_eq("image", "image"));
    assert!(!str_eq("image", "images"));
    assert!(!str_eq("image", "imagf"));
    assert!(contains_substring("ethernet bridge 2", "bridge"));
    assert!(contains_substring("abc", ""));
    assert!(!contains_substring("ab", "abc"));
    assert!(!contains_substring("vmnet", "vmware"));
}

#[test]
fn trims_whitespace() {
    assert_eq!(trim("  png\t"), "png");
    assert_eq!(trim(""), "");
    assert_eq!(trim(" \n "), "");
    assert_eq!(trim("jpg"), "jpg");
}

#[test]
fn extracts_extensions() {
    assert_eq!(raw_extension_of("photo.webp"), "webp");
    assert_eq!(raw_extension_of("archive.tar.gz"), "gz");
    assert_eq!(raw_extension_of("noext"), "noext");
    assert_eq!(raw_extension_of("name."), "");
    assert_eq!(extension_of("photo.webp"), "webp");
    assert_eq!(extension_of("photo. png "), "png");
    assert_eq!(extension_of("noext"), "jpg");
    assert_eq!(extension_of("name."), "jpg");
    assert_eq!(extension_of(""), "jpg");
}

#[test]
fn maps_extensions_to_mime_types() {
    assert_eq!(mime_for("a.png"), "image/png");
    assert_eq!(mime_for("a.jpg"), "image/jpeg");
    assert_eq!(mime_for("a.jpeg"), "image/jpeg");
    assert_eq!(mime_for("a.webp"), "image/webp");
    assert_eq!(mime_for("a.gif"), "image/jpeg");
    assert_eq!(mime_for("noext"), "image/jpeg");
}

#[test]
fn classifies_virtual_adapter_names() {
    assert!(is_virtual_name("VMware Network Adapter VMnet8"));
    assert!(is_virtual_name("vEthernet (WSL)"));
    assert!(is_virtual_name("Hyper-V Virtual Switch"));
    assert!(is_virtual_name("docker0"));
    assert!(is_virtual_name("Loopback Pseudo-Interface 1"));
    assert!(is_virtual_name("br-bridge0"));
    assert!(!is_virtual_name("Ethernet"));
    assert!(!is_virtual_name("wlan0"));
}

#[test]
fn renders_addresses_and_urls() {
    let a = Ipv4Addr { o0: 192, o1: 168, o2: 1, o3: 7 };
    assert_eq!(ip_to_string(&a), "192.168.1.7");
    assert_eq!(url_for(&a, 8787), "http://192.168.1.7:8787/phone");
}

#[test]
fn classifies_address_ranges() {
    let lo = Ipv4Addr { o0: 127, o1: 0, o2: 0, o3: 1 };
    assert!(lo.is_loopback());
    assert!(!lo.is_private());
    let p10 = Ipv4Addr { o0: 10, o1: 1, o2: 2, o3: 3 };
    let p172 = Ipv4Addr { o0: 172, o1: 16, o2: 0, o3: 1 };
    let p172_out = Ipv4Addr { o0: 172, o1: 32, o2: 0, o3: 1 };
    let p192 = Ipv4Addr { o0: 192, o1: 168, o2: 0, o3: 1 };
    let ll = Ipv4Addr { o0: 169, o1: 254, o2: 9, o3: 9 };
    assert!(p10.is_private());
    assert!(p172.is_private());
    assert!(!p172_out.is_private());
    assert!(p192.is_private());
    assert!(ll.is_link_local());
    assert!(!p192.is_link_local());
}

#[test]
fn prefers_private_non_loopback_interface() {
    let interfaces = vec![
        iface("lo", true, false, false, false),
        iface("eth0", false, true, false, false),
        iface("eth1", false, false, true, false),
    ];
    let url = pick_preferred(&interfaces).unwrap();
    assert_eq!(url, "http://eth0/phone");
}

#[test]
fn preference_breaks_ties_leftmost() {
    let interfaces = vec![
        iface("a", false, true, false, false),
        iface("b", false, true, false, false),
    ];
    assert_eq!(pick_preferred(&interfaces).unwrap(), "http://a/phone");
    assert_eq!(pick_preferred(&[]), None);
}

#[test]
fn phone_info_classifies_and_picks() {
    let netifas = vec![
        ("lo".to_string(), Ipv4Addr { o0: 127, o1: 0, o2: 0, o3: 1 }),
        ("eth0".to_string(), Ipv4Addr { o0: 192, o1: 168, o2: 1, o3: 7 }),
    ];
    let info = phone_info(8788, netifas);
    assert_eq!(info.port, 8788);
    assert_eq!(info.interfaces.len(), 2);
    assert_eq!(info.urls.len(), 2);
    assert!(info.interfaces[0].is_loopback);
    assert!(info.interfaces[1].is_private);
    assert_eq!(info.interfaces[1].ip, "192.168.1.7");
    assert_eq!(info.preferred_url, "http://192.168.1.7:8788/phone");
}

#[test]
fn phone_info_synthesizes_loopback_fallback() {
    let info = phone_info(8787, Vec::new());
    assert_eq!(info.interfaces.len(), 1);
    assert_eq!(info.interfaces[0].name, "loopback");
    assert_eq!(info.interfaces[0].ip, "127.0.0.1");
    assert!(info.interfaces[0].is_loopback);
    assert!(!info.interfaces[0].is_virtual);
    assert_eq!(info.urls, vec!["http://127.0.0.1:8787/phone".to_string()]);
    assert_eq!(info.preferred_url, "http://127.0.0.1:8787/phone");
}
