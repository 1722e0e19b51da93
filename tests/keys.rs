use axon_engine::keys::{all_keys, dump_key_catalog, map_key_to_vk, Key};

#[test]
fn virtual_key_codes() {
    assert_eq!(map_key_to_vk(Key::VkA), 0x41);
    assert_eq!(map_key_to_vk(Key::VkZ), 0x5A);
    assert_eq!(map_key_to_vk(Key::VkLshift), 0xA0);
    assert_eq!(map_key_to_vk(Key::VkRcontrol), 0xA3);
    assert_eq!(map_key_to_vk(Key::VkRmenu), 0xA5);
    assert_eq!(map_key_to_vk(Key::VkReturn), 0x0D);
    assert_eq!(map_key_to_vk(Key::VkBack), 0x08);
    assert_eq!(map_key_to_vk(Key::VkDown), 0x28);
    assert_eq!(map_key_to_vk(Key::VkLeft), 0x25);
}

#[test]
fn every_key_has_its_own_code() {
    let keys = all_keys();
    assert_eq!(keys.len(), 41);
    for (i, a) in keys.iter().enumerate() {
        for b in keys.iter().skip(i + 1) {
            assert_ne!(a, b);
            assert_ne!(map_key_to_vk(*a), map_key_to_vk(*b));
        }
    }
}

#[test]
fn key_names() {
    assert_eq!(Key::VkA.name(), "VK_A");
    assert_eq!(Key::VkA.atom(), "vk_a");
    assert_eq!(Key::VkLcontrol.name(), "VK_LCTRL");
    assert_eq!(Key::VkLcontrol.atom(), "vk_lcontrol");
    assert_eq!(Key::VkReturn.name(), "VK_ENTER");
    assert_eq!(Key::VkReturn.atom(), "vk_return");
    assert_eq!(Key::VkEscape.name(), "VK_ESCAPE");
}

#[test]
fn catalog_listing_is_stable_and_names_each_key_once() {
    let first = dump_key_catalog();
    let second = dump_key_catalog();
    assert_eq!(first.len(), 41);
    assert_eq!(first.len(), second.len());
    for (a, b) in first.iter().zip(second.iter()) {
        assert_eq!(a.name, b.name);
        assert_eq!(a.atom, b.atom);
    }
    for (i, a) in first.iter().enumerate() {
        for b in first.iter().skip(i + 1) {
            assert_ne!(a.name, b.name);
            assert_ne!(a.atom, b.atom);
        }
    }
    assert!(first.iter().any(|d| d.name == "VK_A" && d.atom == "vk_a"));
    assert!(first.iter().any(|d| d.name == "VK_LSHIFT" && d.atom == "vk_lshift"));
    assert_eq!(first[0].name, "VK_A");
    assert_eq!(first[40].name, "VK_RIGHT");
    assert_eq!(first[40].atom, "vk_right");
}
