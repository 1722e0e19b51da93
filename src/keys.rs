//! The key catalog: the closed set of symbolic keys, the platform
//! virtual-key code of each, and the names under which callers know them.
use vstd::prelude::*;

verus! {

/// A symbolic key of the catalog.
#[derive(Clone, Copy, Debug, PartialEq, Eq, Structural, Hash)]
pub enum Key {
    VkA,
    VkB,
    VkC,
    VkD,
    VkE,
    VkF,
    VkG,
    VkH,
    VkI,
    VkJ,
    VkK,
    VkL,
    VkM,
    VkN,
    VkO,
    VkP,
    VkQ,
    VkR,
    VkS,
    VkT,
    VkU,
    VkV,
    VkW,
    VkX,
    VkY,
    VkZ,
    VkLshift,
    VkRshift,
    VkLcontrol,
    VkRcontrol,
    VkLmenu,
    VkRmenu,
    VkReturn,
    VkSpace,
    VkBack,
    VkTab,
    VkEscape,
    VkUp,
    VkDown,
    VkLeft,
    VkRight,
}

/// The platform virtual-key code of each key.
pub open spec fn vk_code(k: Key) -> u16 {
    match k {
        Key::VkA => 0x41,
        Key::VkB => 0x42,
        Key::VkC => 0x43,
        Key::VkD => 0x44,
        Key::VkE => 0x45,
        Key::VkF => 0x46,
        Key::VkG => 0x47,
        Key::VkH => 0x48,
        Key::VkI => 0x49,
        Key::VkJ => 0x4A,
        Key::VkK => 0x4B,
        Key::VkL => 0x4C,
        Key::VkM => 0x4D,
        Key::VkN => 0x4E,
        Key::VkO => 0x4F,
        Key::VkP => 0x50,
        Key::VkQ => 0x51,
        Key::VkR => 0x52,
        Key::VkS => 0x53,
        Key::VkT => 0x54,
        Key::VkU => 0x55,
        Key::VkV => 0x56,
        Key::VkW => 0x57,
        Key::VkX => 0x58,
        Key::VkY => 0x59,
        Key::VkZ => 0x5A,
        Key::VkLshift => 0xA0,
        Key::VkRshift => 0xA1,
        Key::VkLcontrol => 0xA2,
        Key::VkRcontrol => 0xA3,
        Key::VkLmenu => 0xA4,
        Key::VkRmenu => 0xA5,
        Key::VkReturn => 0x0D,
        Key::VkSpace => 0x20,
        Key::VkBack => 0x08,
        Key::VkTab => 0x09,
        Key::VkEscape => 0x1B,
        Key::VkUp => 0x26,
        Key::VkDown => 0x28,
        Key::VkLeft => 0x25,
        Key::VkRight => 0x27,
    }
}

/// The display name of each key, as callers see it in the catalog listing.
pub open spec fn display_name(k: Key) -> Seq<char> {
    match k {
        Key::VkA => "VK_A"@,
        Key::VkB => "VK_B"@,
        Key::VkC => "VK_C"@,
        Key::VkD => "VK_D"@,
        Key::VkE => "VK_E"@,
        Key::VkF => "VK_F"@,
        Key::VkG => "VK_G"@,
        Key::VkH => "VK_H"@,
        Key::VkI => "VK_I"@,
        Key::VkJ => "VK_J"@,
        Key::VkK => "VK_K"@,
        Key::VkL => "VK_L"@,
        Key::VkM => "VK_M"@,
        Key::VkN => "VK_N"@,
        Key::VkO => "VK_O"@,
        Key::VkP => "VK_P"@,
        Key::VkQ => "VK_Q"@,
        Key::VkR => "VK_R"@,
        Key::VkS => "VK_S"@,
        Key::VkT => "VK_T"@,
        Key::VkU => "VK_U"@,
        Key::VkV => "VK_V"@,
        Key::VkW => "VK_W"@,
        Key::VkX => "VK_X"@,
        Key::VkY => "VK_Y"@,
        Key::VkZ => "VK_Z"@,
        Key::VkLshift => "VK_LSHIFT"@,
        Key::VkRshift => "VK_RSHIFT"@,
        Key::VkLcontrol => "VK_LCTRL"@,
        Key::VkRcontrol => "VK_RCTRL"@,
        Key::VkLmenu => "VK_LMENU"@,
        Key::VkRmenu => "VK_RMENU"@,
        Key::VkReturn => "VK_ENTER"@,
        Key::VkSpace => "VK_SPACE"@,
        Key::VkBack => "VK_BACK"@,
        Key::VkTab => "VK_TAB"@,
        Key::VkEscape => "VK_ESCAPE"@,
        Key::VkUp => "VK_UP"@,
        Key::VkDown => "VK_DOWN"@,
        Key::VkLeft => "VK_LEFT"@,
        Key::VkRight => "VK_RIGHT"@,
    }
}

/// The symbolic identifier of each key: its variant name in snake case.
pub open spec fn atom_name(k: Key) -> Seq<char> {
    match k {
        Key::VkA => "vk_a"@,
        Key::VkB => "vk_b"@,
        Key::VkC => "vk_c"@,
        Key::VkD => "vk_d"@,
        Key::VkE => "vk_e"@,
        Key::VkF => "vk_f"@,
        Key::VkG => "vk_g"@,
        Key::VkH => "vk_h"@,
        Key::VkI => "vk_i"@,
        Key::VkJ => "vk_j"@,
        Key::VkK => "vk_k"@,
        Key::VkL => "vk_l"@,
        Key::VkM => "vk_m"@,
        Key::VkN => "vk_n"@,
        Key::VkO => "vk_o"@,
        Key::VkP => "vk_p"@,
        Key::VkQ => "vk_q"@,
        Key::VkR => "vk_r"@,
        Key::VkS => "vk_s"@,
        Key::VkT => "vk_t"@,
        Key::VkU => "vk_u"@,
        Key::VkV => "vk_v"@,
        Key::VkW => "vk_w"@,
        Key::VkX => "vk_x"@,
        Key::VkY => "vk_y"@,
        Key::VkZ => "vk_z"@,
        Key::VkLshift => "vk_lshift"@,
        Key::VkRshift => "vk_rshift"@,
        Key::VkLcontrol => "vk_lcontrol"@,
        Key::VkRcontrol => "vk_rcontrol"@,
        Key::VkLmenu => "vk_lmenu"@,
        Key::VkRmenu => "vk_rmenu"@,
        Key::VkReturn => "vk_return"@,
        Key::VkSpace => "vk_space"@,
        Key::VkBack => "vk_back"@,
        Key::VkTab => "vk_tab"@,
        Key::VkEscape => "vk_escape"@,
        Key::VkUp => "vk_up"@,
        Key::VkDown => "vk_down"@,
        Key::VkLeft => "vk_left"@,
        Key::VkRight => "vk_right"@,
    }
}

/// Every key of the catalog, in catalog order.
pub open spec fn catalog() -> Seq<Key> {
    seq![
        Key::VkA, Key::VkB, Key::VkC, Key::VkD, Key::VkE, Key::VkF,
        Key::VkG, Key::VkH, Key::VkI, Key::VkJ, Key::VkK, Key::VkL,
        Key::VkM, Key::VkN, Key::VkO, Key::VkP, Key::VkQ, Key::VkR,
        Key::VkS, Key::VkT, Key::VkU, Key::VkV, Key::VkW, Key::VkX,
        Key::VkY, Key::VkZ, Key::VkLshift, Key::VkRshift, Key::VkLcontrol, Key::VkRcontrol,
        Key::VkLmenu, Key::VkRmenu, Key::VkReturn, Key::VkSpace, Key::VkBack, Key::VkTab,
        Key::VkEscape, Key::VkUp, Key::VkDown, Key::VkLeft, Key::VkRight,
    ]
}

/// The position of each key in the catalog.
pub open spec fn key_position(k: Key) -> int {
    match k {
        Key::VkA => 0,
        Key::VkB => 1,
        Key::VkC => 2,
        Key::VkD => 3,
        Key::VkE => 4,
        Key::VkF => 5,
        Key::VkG => 6,
        Key::VkH => 7,
        Key::VkI => 8,
        Key::VkJ => 9,
        Key::VkK => 10,
        Key::VkL => 11,
        Key::VkM => 12,
        Key::VkN => 13,
        Key::VkO => 14,
        Key::VkP => 15,
        Key::VkQ => 16,
        Key::VkR => 17,
        Key::VkS => 18,
        Key::VkT => 19,
        Key::VkU => 20,
        Key::VkV => 21,
        Key::VkW => 22,
        Key::VkX => 23,
        Key::VkY => 24,
        Key::VkZ => 25,
        Key::VkLshift => 26,
        Key::VkRshift => 27,
        Key::VkLcontrol => 28,
        Key::VkRcontrol => 29,
        Key::VkLmenu => 30,
        Key::VkRmenu => 31,
        Key::VkReturn => 32,
        Key::VkSpace => 33,
        Key::VkBack => 34,
        Key::VkTab => 35,
        Key::VkEscape => 36,
        Key::VkUp => 37,
        Key::VkDown => 38,
        Key::VkLeft => 39,
        Key::VkRight => 40,
    }
}

/// Every key occurs in the catalog, exactly once.
pub proof fn lemma_catalog_lists_each_key_once(k: Key)
    ensures
        catalog().contains(k),
        catalog().no_duplicates(),
        catalog().len() == 41,
{
    assert(catalog()[key_position(k)] == k);
    assert forall|i: int, j: int| 0 <= i < catalog().len() && 0 <= j < catalog().len() && i != j
        implies catalog()[i] != catalog()[j] by {
        assert(key_position(catalog()[i]) == i);
        assert(key_position(catalog()[j]) == j);
    }
}

/// The platform code mapping is injective: distinct keys have distinct codes.
pub proof fn lemma_vk_code_injective(a: Key, b: Key)
    ensures
        vk_code(a) == vk_code(b) ==> a == b,
{
}

/// Distinct keys have distinct display names and distinct symbolic identifiers.
pub proof fn lemma_names_injective(a: Key, b: Key)
    ensures
        display_name(a) == display_name(b) ==> a == b,
        atom_name(a) == atom_name(b) ==> a == b,
{
    reveal_strlit("VK_A");
    reveal_strlit("VK_B");
    reveal_strlit("VK_C");
    reveal_strlit("VK_D");
    reveal_strlit("VK_E");
    reveal_strlit("VK_F");
    reveal_strlit("VK_G");
    reveal_strlit("VK_H");
    reveal_strlit("VK_I");
    reveal_strlit("VK_J");
    reveal_strlit("VK_K");
    reveal_strlit("VK_L");
    reveal_strlit("VK_M");
    reveal_strlit("VK_N");
    reveal_strlit("VK_O");
    reveal_strlit("VK_P");
    reveal_strlit("VK_Q");
    reveal_strlit("VK_R");
    reveal_strlit("VK_S");
    reveal_strlit("VK_T");
    reveal_strlit("VK_U");
    reveal_strlit("VK_V");
    reveal_strlit("VK_W");
    reveal_strlit("VK_X");
    reveal_strlit("VK_Y");
    reveal_strlit("VK_Z");
    reveal_strlit("VK_LSHIFT");
    reveal_strlit("VK_RSHIFT");
    reveal_strlit("VK_LCTRL");
    reveal_strlit("VK_RCTRL");
    reveal_strlit("VK_LMENU");
    reveal_strlit("VK_RMENU");
    reveal_strlit("VK_ENTER");
    reveal_strlit("VK_SPACE");
    reveal_strlit("VK_BACK");
    reveal_strlit("VK_TAB");
    reveal_strlit("VK_ESCAPE");
    reveal_strlit("VK_UP");
    reveal_strlit("VK_DOWN");
    reveal_strlit("VK_LEFT");
    reveal_strlit("VK_RIGHT");
    reveal_strlit("vk_a");
    reveal_strlit("vk_b");
    reveal_strlit("vk_c");
    reveal_strlit("vk_d");
    reveal_strlit("vk_e");
    reveal_strlit("vk_f");
    reveal_strlit("vk_g");
    reveal_strlit("vk_h");
    reveal_strlit("vk_i");
    reveal_strlit("vk_j");
    reveal_strlit("vk_k");
    reveal_strlit("vk_l");
    reveal_strlit("vk_m");
    reveal_strlit("vk_n");
    reveal_strlit("vk_o");
    reveal_strlit("vk_p");
    reveal_strlit("vk_q");
    reveal_strlit("vk_r");
    reveal_strlit("vk_s");
    reveal_strlit("vk_t");
    reveal_strlit("vk_u");
    reveal_strlit("vk_v");
    reveal_strlit("vk_w");
    reveal_strlit("vk_x");
    reveal_strlit("vk_y");
    reveal_strlit("vk_z");
    reveal_strlit("vk_lshift");
    reveal_strlit("vk_rshift");
    reveal_strlit("vk_lcontrol");
    reveal_strlit("vk_rcontrol");
    reveal_strlit("vk_lmenu");
    reveal_strlit("vk_rmenu");
    reveal_strlit("vk_return");
    reveal_strlit("vk_space");
    reveal_strlit("vk_back");
    reveal_strlit("vk_tab");
    reveal_strlit("vk_escape");
    reveal_strlit("vk_up");
    reveal_strlit("vk_down");
    reveal_strlit("vk_left");
    reveal_strlit("vk_right");
    let (na, nb) = (display_name(a), display_name(b));
    let (ta, tb) = (atom_name(a), atom_name(b));
    if a != b {
        assert(na.len() != nb.len() || na[3] != nb[3] || na[4] != nb[4]);
        assert(ta.len() != tb.len() || ta[3] != tb[3] || ta[4] != tb[4] || ta[5] != tb[5]);
    }
}


/// Translates a symbolic key to its platform virtual-key code.
pub fn map_key_to_vk(key: Key) -> (r: u16)
    ensures
        r == vk_code(key),
{
    match key {
        Key::VkA => 0x41,
        Key::VkB => 0x42,
        Key::VkC => 0x43,
        Key::VkD => 0x44,
        Key::VkE => 0x45,
        Key::VkF => 0x46,
        Key::VkG => 0x47,
        Key::VkH => 0x48,
        Key::VkI => 0x49,
        Key::VkJ => 0x4A,
        Key::VkK => 0x4B,
        Key::VkL => 0x4C,
        Key::VkM => 0x4D,
        Key::VkN => 0x4E,
        Key::VkO => 0x4F,
        Key::VkP => 0x50,
        Key::VkQ => 0x51,
        Key::VkR => 0x52,
        Key::VkS => 0x53,
        Key::VkT => 0x54,
        Key::VkU => 0x55,
        Key::VkV => 0x56,
        Key::VkW => 0x57,
        Key::VkX => 0x58,
        Key::VkY => 0x59,
        Key::VkZ => 0x5A,
        Key::VkLshift => 0xA0,
        Key::VkRshift => 0xA1,
        Key::VkLcontrol => 0xA2,
        Key::VkRcontrol => 0xA3,
        Key::VkLmenu => 0xA4,
        Key::VkRmenu => 0xA5,
        Key::VkReturn => 0x0D,
        Key::VkSpace => 0x20,
        Key::VkBack => 0x08,
        Key::VkTab => 0x09,
        Key::VkEscape => 0x1B,
        Key::VkUp => 0x26,
        Key::VkDown => 0x28,
        Key::VkLeft => 0x25,
        Key::VkRight => 0x27,
    }
}

impl Key {
    /// The display name of the key (`VK_A`, `VK_LSHIFT`, ...).
    pub fn name(&self) -> (r: &'static str)
        ensures
            r@ == display_name(*self),
    {
        match self {
            Key::VkA => "VK_A",
            Key::VkB => "VK_B",
            Key::VkC => "VK_C",
            Key::VkD => "VK_D",
            Key::VkE => "VK_E",
            Key::VkF => "VK_F",
            Key::VkG => "VK_G",
            Key::VkH => "VK_H",
            Key::VkI => "VK_I",
            Key::VkJ => "VK_J",
            Key::VkK => "VK_K",
            Key::VkL => "VK_L",
            Key::VkM => "VK_M",
            Key::VkN => "VK_N",
            Key::VkO => "VK_O",
            Key::VkP => "VK_P",
            Key::VkQ => "VK_Q",
            Key::VkR => "VK_R",
            Key::VkS => "VK_S",
            Key::VkT => "VK_T",
            Key::VkU => "VK_U",
            Key::VkV => "VK_V",
            Key::VkW => "VK_W",
            Key::VkX => "VK_X",
            Key::VkY => "VK_Y",
            Key::VkZ => "VK_Z",
            Key::VkLshift => "VK_LSHIFT",
            Key::VkRshift => "VK_RSHIFT",
            Key::VkLcontrol => "VK_LCTRL",
            Key::VkRcontrol => "VK_RCTRL",
            Key::VkLmenu => "VK_LMENU",
            Key::VkRmenu => "VK_RMENU",
            Key::VkReturn => "VK_ENTER",
            Key::VkSpace => "VK_SPACE",
            Key::VkBack => "VK_BACK",
            Key::VkTab => "VK_TAB",
            Key::VkEscape => "VK_ESCAPE",
            Key::VkUp => "VK_UP",
            Key::VkDown => "VK_DOWN",
            Key::VkLeft => "VK_LEFT",
            Key::VkRight => "VK_RIGHT",
        }
    }

    /// The symbolic identifier of the key (`vk_a`, `vk_lshift`, ...).
    pub fn atom(&self) -> (r: &'static str)
        ensures
            r@ == atom_name(*self),
    {
        match self {
            Key::VkA => "vk_a",
            Key::VkB => "vk_b",
            Key::VkC => "vk_c",
            Key::VkD => "vk_d",
            Key::VkE => "vk_e",
            Key::VkF => "vk_f",
            Key::VkG => "vk_g",
            Key::VkH => "vk_h",
            Key::VkI => "vk_i",
            Key::VkJ => "vk_j",
            Key::VkK => "vk_k",
            Key::VkL => "vk_l",
            Key::VkM => "vk_m",
            Key::VkN => "vk_n",
            Key::VkO => "vk_o",
            Key::VkP => "vk_p",
            Key::VkQ => "vk_q",
            Key::VkR => "vk_r",
            Key::VkS => "vk_s",
            Key::VkT => "vk_t",
            Key::VkU => "vk_u",
            Key::VkV => "vk_v",
            Key::VkW => "vk_w",
            Key::VkX => "vk_x",
            Key::VkY => "vk_y",
            Key::VkZ => "vk_z",
            Key::VkLshift => "vk_lshift",
            Key::VkRshift => "vk_rshift",
            Key::VkLcontrol => "vk_lcontrol",
            Key::VkRcontrol => "vk_rcontrol",
            Key::VkLmenu => "vk_lmenu",
            Key::VkRmenu => "vk_rmenu",
            Key::VkReturn => "vk_return",
            Key::VkSpace => "vk_space",
            Key::VkBack => "vk_back",
            Key::VkTab => "vk_tab",
            Key::VkEscape => "vk_escape",
            Key::VkUp => "vk_up",
            Key::VkDown => "vk_down",
            Key::VkLeft => "vk_left",
            Key::VkRight => "vk_right",
        }
    }
}

/// Every key of the catalog, in catalog order; each call yields the same list.
pub fn all_keys() -> (r: Vec<Key>)
    ensures
        r@ == catalog(),
{
    vec![
        Key::VkA, Key::VkB, Key::VkC, Key::VkD, Key::VkE, Key::VkF,
        Key::VkG, Key::VkH, Key::VkI, Key::VkJ, Key::VkK, Key::VkL,
        Key::VkM, Key::VkN, Key::VkO, Key::VkP, Key::VkQ, Key::VkR,
        Key::VkS, Key::VkT, Key::VkU, Key::VkV, Key::VkW, Key::VkX,
        Key::VkY, Key::VkZ, Key::VkLshift, Key::VkRshift, Key::VkLcontrol, Key::VkRcontrol,
        Key::VkLmenu, Key::VkRmenu, Key::VkReturn, Key::VkSpace, Key::VkBack, Key::VkTab,
        Key::VkEscape, Key::VkUp, Key::VkDown, Key::VkLeft, Key::VkRight,
    ]
}

/// One entry of the catalog listing: a key's display name and symbolic identifier.
pub struct KeyDefinition {
    pub name: String,
    pub atom: String,
}

/// Whether `d` lists the catalog: one entry per key, in catalog order.
pub open spec fn lists_catalog(d: Seq<KeyDefinition>) -> bool {
    &&& d.len() == catalog().len()
    &&& forall|i: int| 0 <= i < d.len() ==> {
        &&& (#[trigger] d[i]).name@ == display_name(catalog()[i])
        &&& d[i].atom@ == atom_name(catalog()[i])
    }
}

/// The catalog listing, for building caller-side lookup tables: the display
/// name and symbolic identifier of every key, in catalog order.
pub fn dump_key_catalog() -> (r: Vec<KeyDefinition>)
    ensures
        lists_catalog(r@),
{
    let keys = all_keys();
    let mut out: Vec<KeyDefinition> = Vec::new();
    let mut i: usize = 0;
    while i < keys.len()
        invariant
            keys@ == catalog(),
            i <= keys@.len(),
            out@.len() == i,
            forall|j: int| 0 <= j < i ==> {
                &&& (#[trigger] out@[j]).name@ == display_name(catalog()[j])
                &&& out@[j].atom@ == atom_name(catalog()[j])
            },
        decreases keys@.len() - i,
    {
        let key = keys[i];
        out.push(KeyDefinition { name: String::from_str(key.name()), atom: String::from_str(key.atom()) });
        i = i + 1;
    }
    out
}

/// The catalog listing is the same on every call, and names each key exactly
/// once: any two listings agree entry by entry, every key has an entry, and no
/// two entries share a display name or a symbolic identifier.
pub proof fn lemma_listing_is_stable_and_complete(a: Seq<KeyDefinition>, b: Seq<KeyDefinition>, k: Key)
    requires
        lists_catalog(a),
        lists_catalog(b),
    ensures
        a.len() == b.len(),
        forall|i: int| 0 <= i < a.len() ==> (#[trigger] a[i]).name@ == b[i].name@ && a[i].atom@ == b[i].atom@,
        exists|i: int| 0 <= i < a.len() && (#[trigger] a[i]).name@ == display_name(k) && a[i].atom@ == atom_name(k),
        forall|i: int, j: int| 0 <= i < a.len() && 0 <= j < a.len() && i != j ==>
            (#[trigger] a[i]).name@ != (#[trigger] a[j]).name@ && a[i].atom@ != a[j].atom@,
{
    lemma_catalog_lists_each_key_once(k);
    let p = key_position(k);
    assert(catalog()[p] == k);
    assert(a[p].name@ == display_name(k));
    assert forall|i: int, j: int| 0 <= i < a.len() && 0 <= j < a.len() && i != j implies
        (#[trigger] a[i]).name@ != (#[trigger] a[j]).name@ && a[i].atom@ != a[j].atom@ by {
        lemma_names_injective(catalog()[i], catalog()[j]);
    }
}

} // verus!
