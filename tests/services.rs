use axon_engine::services::{interface_description, mdns_fullname, mdns_host_name};

#[test]
fn mdns_names() {
    assert_eq!(mdns_host_name("axon-desk"), "axon-desk.local.");
    assert_eq!(mdns_fullname("axon-desk", "_axon._tcp.local."), "axon-desk._axon._tcp.local.");
}

#[test]
fn description_stops_at_first_nul() {
    let mut buffer = [0u16; 16];
    for (i, c) in "Wi-Fi 6".encode_utf16().enumerate() {
        buffer[i] = c;
    }
    buffer[9] = 0x41;
    assert_eq!(interface_description(&buffer), "Wi-Fi 6");
}

#[test]
fn description_without_nul_takes_whole_buffer() {
    let buffer: Vec<u16> = "Intel".encode_utf16().collect();
    assert_eq!(interface_description(&buffer), "Intel");
}

#[test]
fn description_replaces_unpaired_surrogates() {
    let buffer = [0x41u16, 0xD800, 0x42, 0];
    assert_eq!(interface_description(&buffer), "A\u{FFFD}B");
    assert_eq!(interface_description(&[0u16, 0x41]), "");
}
