//! Identifiers of the interfaces that the RGB20, RGB21 and RGB25 interface
//! classes cover, and the test of whether an interface belongs to a class.

use vstd::prelude::*;

verus! {

pub const RGB20_FIXED_IFACE_ID: [u8; 32] = [
    0x9a, 0x9c, 0x75, 0x65, 0xab, 0x09, 0x78, 0x0e, 0xeb, 0xb5, 0x7b, 0x12, 0x7c, 0x47, 0x47, 0xcb,
    0x80, 0x1b, 0xc4, 0xbc, 0x99, 0x00, 0x3e, 0xa5, 0xd5, 0x62, 0x2a, 0x34, 0x63, 0x2a, 0x31, 0x0d,
];

pub const RGB20_RENAMABLE_IFACE_ID: [u8; 32] = [
    0x46, 0x36, 0x53, 0x99, 0xba, 0xd5, 0x41, 0x06, 0xe9, 0x98, 0x21, 0x7b, 0x81, 0x05, 0x57, 0x43,
    0x44, 0xfa, 0xda, 0xe6, 0x5a, 0xd2, 0xec, 0xd9, 0x1e, 0xa7, 0xc1, 0x9a, 0xcf, 0xd9, 0x83, 0xac,
];

pub const RGB20_INFLATABLE_IFACE_ID: [u8; 32] = [
    0xf6, 0x87, 0x32, 0x54, 0xf6, 0xd1, 0xbd, 0x87, 0x4c, 0xac, 0xd5, 0xbf, 0xe8, 0x3d, 0x47, 0xed,
    0xfa, 0xc3, 0x2a, 0xfb, 0x3f, 0x1c, 0xc3, 0x5f, 0xbd, 0xc5, 0xfb, 0x78, 0xa7, 0x8a, 0x4f, 0x16,
];

pub const RGB20_INFLATABLE_BURNABLE_IFACE_ID: [u8; 32] = [
    0x3a, 0x14, 0xd6, 0xad, 0x94, 0x35, 0xc1, 0xe0, 0x10, 0x71, 0xcf, 0xdf, 0x07, 0x15, 0x25, 0x0b,
    0xa7, 0x8c, 0x73, 0xf2, 0xf6, 0xf7, 0x41, 0x60, 0x04, 0xb6, 0x38, 0x6c, 0x54, 0xdc, 0xec, 0xb3,
];

pub const RGB20_BURNABLE_IFACE_ID: [u8; 32] = [
    0x7f, 0xe0, 0x3c, 0xb1, 0xa9, 0x54, 0x84, 0xaa, 0x21, 0xc4, 0xaa, 0x1c, 0xd3, 0x9e, 0x51, 0x28,
    0x2a, 0x10, 0xf1, 0xc7, 0x41, 0xaa, 0x61, 0xb4, 0x33, 0x93, 0x2f, 0xb8, 0x10, 0xb5, 0x9a, 0x9e,
];

pub const RGB20_RENAMABLE_INFLATABLE_IFACE_ID: [u8; 32] = [
    0xab, 0x23, 0xbb, 0x04, 0x98, 0xba, 0x70, 0x01, 0x18, 0x39, 0x12, 0xa4, 0x52, 0x26, 0x47, 0x06,
    0x02, 0xb1, 0xda, 0x41, 0x9e, 0x58, 0xca, 0x04, 0xb1, 0x48, 0x3b, 0xc5, 0x59, 0xeb, 0xc2, 0x2d,
];

pub const RGB20_REPLACABLE_IFACE_ID: [u8; 32] = [
    0x65, 0x0d, 0xc2, 0xae, 0x09, 0x0e, 0xfb, 0x7a, 0x4d, 0xe5, 0x09, 0x74, 0x68, 0x85, 0x8b, 0x6b,
    0xc3, 0x79, 0xde, 0x93, 0xf2, 0x28, 0xd3, 0xe8, 0x1e, 0x10, 0x2d, 0x1a, 0xaa, 0x9f, 0x1c, 0x41,
];

pub const RGB20_RENAMABLE_BURNABLE_IFACE_ID: [u8; 32] = [
    0x7c, 0xd0, 0x3a, 0xc6, 0xbc, 0x2c, 0xc9, 0x18, 0x60, 0xef, 0x9d, 0xf0, 0xde, 0xb9, 0xa6, 0x9b,
    0x16, 0xc8, 0x0c, 0xfe, 0x56, 0xc1, 0xf0, 0x61, 0xf1, 0x56, 0x8d, 0x9c, 0x3f, 0x6c, 0x9c, 0xdf,
];

pub const RGB20_RENAMABLE_INFLATABLE_BURNABLE_IFACE_ID: [u8; 32] = [
    0xaf, 0x55, 0x4a, 0x38, 0x9f, 0x1f, 0xbf, 0x58, 0x3a, 0x98, 0x92, 0x29, 0xb2, 0x27, 0x9c, 0xb9,
    0xdf, 0x75, 0xaa, 0x78, 0x3f, 0xd8, 0x51, 0x68, 0xd9, 0xb9, 0x5d, 0x86, 0x28, 0x43, 0x5d, 0xe2,
];

pub const RGB20_FULL_IFACE_ID: [u8; 32] = [
    0xfc, 0x76, 0x7c, 0xaa, 0xf9, 0x2d, 0xa4, 0xfe, 0xcc, 0x22, 0xd7, 0x23, 0x51, 0x0b, 0xe9, 0xf6,
    0xed, 0x33, 0xc3, 0x27, 0x49, 0xe2, 0x23, 0x46, 0x29, 0x4e, 0xf3, 0x9a, 0x48, 0x2b, 0xd9, 0x85,
];

pub const RGB21_UNIQUE_IFACE_ID: [u8; 32] = [
    0x62, 0x3f, 0x7e, 0xfe, 0xb2, 0x47, 0x48, 0x6d, 0x37, 0x8a, 0x9c, 0xb4, 0xbe, 0x88, 0x4b, 0x31,
    0xd3, 0x53, 0x8e, 0xf3, 0x6d, 0xd1, 0xfd, 0xad, 0x1d, 0x38, 0x84, 0x78, 0x07, 0x99, 0xb3, 0xeb,
];

pub const RGB21_IFACE_ID: [u8; 32] = [
    0x69, 0x43, 0xe5, 0xa0, 0x2a, 0xcd, 0x2b, 0x96, 0x0b, 0xb6, 0xbf, 0x4c, 0xcc, 0x9d, 0x99, 0xce,
    0xb9, 0xac, 0x73, 0x63, 0x94, 0xda, 0x94, 0x93, 0xd4, 0xe1, 0x08, 0x3a, 0x1f, 0xc0, 0x00, 0xc7,
];

pub const RGB25_BASE_IFACE_ID: [u8; 32] = [
    0x96, 0x85, 0x74, 0xcd, 0x51, 0x94, 0x32, 0x7d, 0x5e, 0x40, 0xfa, 0x7b, 0x4c, 0xba, 0xbb, 0x7a,
    0x22, 0x00, 0x1c, 0x0c, 0xbe, 0xfe, 0x40, 0x0b, 0x7d, 0xd7, 0x1e, 0x5a, 0x69, 0x3f, 0x89, 0x9e,
];

pub const RGB25_IFACE_ID: [u8; 32] = [
    0x7f, 0x0b, 0xb8, 0xe8, 0xfe, 0x3e, 0xda, 0x6d, 0x38, 0x10, 0xed, 0x1c, 0x4b, 0xc6, 0x19, 0x2c,
    0xe4, 0x8f, 0xc1, 0x28, 0x53, 0x1d, 0x4a, 0x4c, 0xb5, 0x77, 0x97, 0xea, 0x40, 0x46, 0x3c, 0x31,
];

/// The interfaces of the RGB20 class: a fungible asset that is fixed,
/// renamable, inflatable, burnable, replaceable, or a combination of these.
pub open spec fn rgb20_iface_ids() -> Seq<Seq<u8>> {
    seq![
        RGB20_FIXED_IFACE_ID@,
        RGB20_RENAMABLE_IFACE_ID@,
        RGB20_INFLATABLE_IFACE_ID@,
        RGB20_INFLATABLE_BURNABLE_IFACE_ID@,
        RGB20_BURNABLE_IFACE_ID@,
        RGB20_RENAMABLE_INFLATABLE_IFACE_ID@,
        RGB20_REPLACABLE_IFACE_ID@,
        RGB20_RENAMABLE_BURNABLE_IFACE_ID@,
        RGB20_RENAMABLE_INFLATABLE_BURNABLE_IFACE_ID@,
        RGB20_FULL_IFACE_ID@,
    ]
}

/// The interfaces of the RGB21 class.
pub open spec fn rgb21_iface_ids() -> Seq<Seq<u8>> {
    seq![RGB21_UNIQUE_IFACE_ID@, RGB21_IFACE_ID@]
}

/// The interfaces of the RGB25 class.
pub open spec fn rgb25_iface_ids() -> Seq<Seq<u8>> {
    seq![RGB25_BASE_IFACE_ID@, RGB25_IFACE_ID@]
}

/// Whether two interface identifiers are the same, byte for byte.
pub fn same_iface_id(a: &[u8; 32], b: &[u8; 32]) -> (r: bool)
    ensures
        r == (a@ == b@),
{
    let mut i: usize = 0;
    while i < 32
        invariant
            i <= 32,
            a@.len() == 32,
            b@.len() == 32,
            forall|j: int| 0 <= j < i ==> a@[j] == b@[j],
        decreases 32 - i,
    {
        if a[i] != b[i] {
            return false;
        }
        i = i + 1;
    }
    assert(a@ =~= b@);
    true
}

/// Whether `id` is one of `ids`.
pub fn iface_id_in(id: &[u8; 32], ids: &[[u8; 32]]) -> (r: bool)
    ensures
        r == ids@.map_values(|x: [u8; 32]| x@).contains(id@),
{
    let ghost views = ids@.map_values(|x: [u8; 32]| x@);
    let n = ids.len();
    for i in 0..n
        invariant
            n == ids@.len(),
            views == ids@.map_values(|x: [u8; 32]| x@),
            forall|j: int| 0 <= j < i ==> views[j] != id@,
    {
        if same_iface_id(id, &ids[i]) {
            assert(views[i as int] == id@);
            return true;
        }
    }
    assert(!views.contains(id@)) by {
        if views.contains(id@) {
            let k = choose|k: int| 0 <= k < views.len() && views[k] == id@;
            assert(views[k] != id@);
        }
    }
    false
}

/// Whether `id` identifies one of the RGB20 interfaces.
pub fn is_rgb20_iface_id(id: &[u8; 32]) -> (r: bool)
    ensures
        r == rgb20_iface_ids().contains(id@),
{
    let ids: [[u8; 32]; 10] = [
        RGB20_FIXED_IFACE_ID,
        RGB20_RENAMABLE_IFACE_ID,
        RGB20_INFLATABLE_IFACE_ID,
        RGB20_INFLATABLE_BURNABLE_IFACE_ID,
        RGB20_BURNABLE_IFACE_ID,
        RGB20_RENAMABLE_INFLATABLE_IFACE_ID,
        RGB20_REPLACABLE_IFACE_ID,
        RGB20_RENAMABLE_BURNABLE_IFACE_ID,
        RGB20_RENAMABLE_INFLATABLE_BURNABLE_IFACE_ID,
        RGB20_FULL_IFACE_ID,
    ];
    let r = iface_id_in(id, &ids);
    assert(ids@.map_values(|x: [u8; 32]| x@) =~= rgb20_iface_ids());
    r
}

/// Whether `id` identifies one of the RGB21 interfaces.
pub fn is_rgb21_iface_id(id: &[u8; 32]) -> (r: bool)
    ensures
        r == rgb21_iface_ids().contains(id@),
{
    let ids: [[u8; 32]; 2] = [RGB21_UNIQUE_IFACE_ID, RGB21_IFACE_ID];
    let r = iface_id_in(id, &ids);
    assert(ids@.map_values(|x: [u8; 32]| x@) =~= rgb21_iface_ids());
    r
}

/// Whether `id` identifies one of the RGB25 interfaces.
pub fn is_rgb25_iface_id(id: &[u8; 32]) -> (r: bool)
    ensures
        r == rgb25_iface_ids().contains(id@),
{
    let ids: [[u8; 32]; 2] = [RGB25_BASE_IFACE_ID, RGB25_IFACE_ID];
    let r = iface_id_in(id, &ids);
    assert(ids@.map_values(|x: [u8; 32]| x@) =~= rgb25_iface_ids());
    r
}

/// The RGB20 class is exactly the ten RGB20 interfaces, each listed once:
/// an identifier belongs to it if and only if it is one of the RGB20
/// interface constants.
pub proof fn lemma_rgb20_class(id: Seq<u8>)
    ensures
        rgb20_iface_ids().len() == 10,
        rgb20_iface_ids().no_duplicates(),
        rgb20_iface_ids().contains(id) <==> {
            ||| id == RGB20_FIXED_IFACE_ID@
            ||| id == RGB20_RENAMABLE_IFACE_ID@
            ||| id == RGB20_INFLATABLE_IFACE_ID@
            ||| id == RGB20_INFLATABLE_BURNABLE_IFACE_ID@
            ||| id == RGB20_BURNABLE_IFACE_ID@
            ||| id == RGB20_RENAMABLE_INFLATABLE_IFACE_ID@
            ||| id == RGB20_REPLACABLE_IFACE_ID@
            ||| id == RGB20_RENAMABLE_BURNABLE_IFACE_ID@
            ||| id == RGB20_RENAMABLE_INFLATABLE_BURNABLE_IFACE_ID@
            ||| id == RGB20_FULL_IFACE_ID@
        },
{
    lemma_rgb20_ids_distinct();
    if rgb20_iface_ids().contains(id) {
        let k = choose|k: int| 0 <= k < 10 && rgb20_iface_ids()[k] == id;
    }
    assert(rgb20_iface_ids()[0] == RGB20_FIXED_IFACE_ID@);
    assert(rgb20_iface_ids()[0] == RGB20_FIXED_IFACE_ID@);
    assert(rgb20_iface_ids()[1] == RGB20_RENAMABLE_IFACE_ID@);
    assert(rgb20_iface_ids()[2] == RGB20_INFLATABLE_IFACE_ID@);
    assert(rgb20_iface_ids()[3] == RGB20_INFLATABLE_BURNABLE_IFACE_ID@);
    assert(rgb20_iface_ids()[4] == RGB20_BURNABLE_IFACE_ID@);
    assert(rgb20_iface_ids()[5] == RGB20_RENAMABLE_INFLATABLE_IFACE_ID@);
    assert(rgb20_iface_ids()[6] == RGB20_REPLACABLE_IFACE_ID@);
    assert(rgb20_iface_ids()[7] == RGB20_RENAMABLE_BURNABLE_IFACE_ID@);
    assert(rgb20_iface_ids()[8] == RGB20_RENAMABLE_INFLATABLE_BURNABLE_IFACE_ID@);
    assert(rgb20_iface_ids()[9] == RGB20_FULL_IFACE_ID@);
}

/// The ten RGB20 interface identifiers differ from one another.
proof fn lemma_rgb20_ids_distinct()
    ensures
        rgb20_iface_ids().no_duplicates(),
{
    let ids = rgb20_iface_ids();
    assert(ids[0] != ids[1]);
    assert(ids[0] != ids[2]);
    assert(ids[0] != ids[3]);
    assert(ids[0] != ids[4]);
    assert(ids[0] != ids[5]);
    assert(ids[0] != ids[6]);
    assert(ids[0] != ids[7]);
    assert(ids[0] != ids[8]);
    assert(ids[0] != ids[9]);
    assert(ids[1] != ids[2]);
    assert(ids[1] != ids[3]);
    assert(ids[1] != ids[4]);
    assert(ids[1] != ids[5]);
    assert(ids[1] != ids[6]);
    assert(ids[1] != ids[7]);
    assert(ids[1] != ids[8]);
    assert(ids[1] != ids[9]);
    assert(ids[2] != ids[3]);
    assert(ids[2] != ids[4]);
    assert(ids[2] != ids[5]);
    assert(ids[2] != ids[6]);
    assert(ids[2] != ids[7]);
    assert(ids[2] != ids[8]);
    assert(ids[2] != ids[9]);
    assert(ids[3] != ids[4]);
    assert(ids[3] != ids[5]);
    assert(ids[3] != ids[6]);
    assert(ids[3] != ids[7]);
    assert(ids[3] != ids[8]);
    assert(ids[3] != ids[9]);
    assert(ids[4] != ids[5]);
    assert(ids[4] != ids[6]);
    assert(ids[4] != ids[7]);
    assert(ids[4] != ids[8]);
    assert(ids[4] != ids[9]);
    assert(ids[5] != ids[6]);
    assert(ids[5] != ids[7]);
    assert(ids[5] != ids[8]);
    assert(ids[5] != ids[9]);
    assert(ids[6] != ids[7]);
    assert(ids[6] != ids[8]);
    assert(ids[6] != ids[9]);
    assert(ids[7] != ids[8]);
    assert(ids[7] != ids[9]);
    assert(ids[8] != ids[9]);
    assert(ids.no_duplicates());
}

/// The RGB21 class is exactly the two RGB21 interfaces.
pub proof fn lemma_rgb21_class(id: Seq<u8>)
    ensures
        rgb21_iface_ids().len() == 2,
        RGB21_UNIQUE_IFACE_ID@ != RGB21_IFACE_ID@,
        rgb21_iface_ids().contains(id) <==> (id == RGB21_UNIQUE_IFACE_ID@ || id == RGB21_IFACE_ID@),
{
    assert(RGB21_UNIQUE_IFACE_ID@[0] != RGB21_IFACE_ID@[0] || RGB21_UNIQUE_IFACE_ID@[1] != RGB21_IFACE_ID@[1]);
    assert(rgb21_iface_ids()[0] == RGB21_UNIQUE_IFACE_ID@);
    assert(rgb21_iface_ids()[1] == RGB21_IFACE_ID@);
}

/// The RGB25 class is exactly the two RGB25 interfaces.
pub proof fn lemma_rgb25_class(id: Seq<u8>)
    ensures
        rgb25_iface_ids().len() == 2,
        RGB25_BASE_IFACE_ID@ != RGB25_IFACE_ID@,
        rgb25_iface_ids().contains(id) <==> (id == RGB25_BASE_IFACE_ID@ || id == RGB25_IFACE_ID@),
{
    assert(RGB25_BASE_IFACE_ID@[0] != RGB25_IFACE_ID@[0] || RGB25_BASE_IFACE_ID@[1] != RGB25_IFACE_ID@[1]);
    assert(rgb25_iface_ids()[0] == RGB25_BASE_IFACE_ID@);
    assert(rgb25_iface_ids()[1] == RGB25_IFACE_ID@);
}

/// No interface belongs to two classes: an identifier recognised as RGB21
/// or RGB25 is never recognised as RGB20, and none is both RGB21 and RGB25.
pub proof fn lemma_classes_disjoint(id: Seq<u8>)
    ensures
        !(rgb20_iface_ids().contains(id) && rgb21_iface_ids().contains(id)),
        !(rgb20_iface_ids().contains(id) && rgb25_iface_ids().contains(id)),
        !(rgb21_iface_ids().contains(id) && rgb25_iface_ids().contains(id)),
{
    lemma_rgb20_class(id);
    lemma_rgb21_class(id);
    lemma_rgb25_class(id);
    assert(RGB20_FIXED_IFACE_ID@ != RGB21_UNIQUE_IFACE_ID@);
    assert(RGB20_FIXED_IFACE_ID@ != RGB21_IFACE_ID@);
    assert(RGB20_FIXED_IFACE_ID@ != RGB25_BASE_IFACE_ID@);
    assert(RGB20_FIXED_IFACE_ID@ != RGB25_IFACE_ID@);
    assert(RGB20_RENAMABLE_IFACE_ID@ != RGB21_UNIQUE_IFACE_ID@);
    assert(RGB20_RENAMABLE_IFACE_ID@ != RGB21_IFACE_ID@);
    assert(RGB20_RENAMABLE_IFACE_ID@ != RGB25_BASE_IFACE_ID@);
    assert(RGB20_RENAMABLE_IFACE_ID@ != RGB25_IFACE_ID@);
    assert(RGB20_INFLATABLE_IFACE_ID@ != RGB21_UNIQUE_IFACE_ID@);
    assert(RGB20_INFLATABLE_IFACE_ID@ != RGB21_IFACE_ID@);
    assert(RGB20_INFLATABLE_IFACE_ID@ != RGB25_BASE_IFACE_ID@);
    assert(RGB20_INFLATABLE_IFACE_ID@ != RGB25_IFACE_ID@);
    assert(RGB20_INFLATABLE_BURNABLE_IFACE_ID@ != RGB21_UNIQUE_IFACE_ID@);
    assert(RGB20_INFLATABLE_BURNABLE_IFACE_ID@ != RGB21_IFACE_ID@);
    assert(RGB20_INFLATABLE_BURNABLE_IFACE_ID@ != RGB25_BASE_IFACE_ID@);
    assert(RGB20_INFLATABLE_BURNABLE_IFACE_ID@ != RGB25_IFACE_ID@);
    assert(RGB20_BURNABLE_IFACE_ID@ != RGB21_UNIQUE_IFACE_ID@);
    assert(RGB20_BURNABLE_IFACE_ID@ != RGB21_IFACE_ID@);
    assert(RGB20_BURNABLE_IFACE_ID@ != RGB25_BASE_IFACE_ID@);
    assert(RGB20_BURNABLE_IFACE_ID@ != RGB25_IFACE_ID@);
    assert(RGB20_RENAMABLE_INFLATABLE_IFACE_ID@ != RGB21_UNIQUE_IFACE_ID@);
    assert(RGB20_RENAMABLE_INFLATABLE_IFACE_ID@ != RGB21_IFACE_ID@);
    assert(RGB20_RENAMABLE_INFLATABLE_IFACE_ID@ != RGB25_BASE_IFACE_ID@);
    assert(RGB20_RENAMABLE_INFLATABLE_IFACE_ID@ != RGB25_IFACE_ID@);
    assert(RGB20_REPLACABLE_IFACE_ID@ != RGB21_UNIQUE_IFACE_ID@);
    assert(RGB20_REPLACABLE_IFACE_ID@ != RGB21_IFACE_ID@);
    assert(RGB20_REPLACABLE_IFACE_ID@ != RGB25_BASE_IFACE_ID@);
    assert(RGB20_REPLACABLE_IFACE_ID@ != RGB25_IFACE_ID@);
    assert(RGB20_RENAMABLE_BURNABLE_IFACE_ID@ != RGB21_UNIQUE_IFACE_ID@);
    assert(RGB20_RENAMABLE_BURNABLE_IFACE_ID@ != RGB21_IFACE_ID@);
    assert(RGB20_RENAMABLE_BURNABLE_IFACE_ID@ != RGB25_BASE_IFACE_ID@);
    assert(RGB20_RENAMABLE_BURNABLE_IFACE_ID@ != RGB25_IFACE_ID@);
    assert(RGB20_RENAMABLE_INFLATABLE_BURNABLE_IFACE_ID@ != RGB21_UNIQUE_IFACE_ID@);
    assert(RGB20_RENAMABLE_INFLATABLE_BURNABLE_IFACE_ID@ != RGB21_IFACE_ID@);
    assert(RGB20_RENAMABLE_INFLATABLE_BURNABLE_IFACE_ID@ != RGB25_BASE_IFACE_ID@);
    assert(RGB20_RENAMABLE_INFLATABLE_BURNABLE_IFACE_ID@ != RGB25_IFACE_ID@);
    assert(RGB20_FULL_IFACE_ID@ != RGB21_UNIQUE_IFACE_ID@);
    assert(RGB20_FULL_IFACE_ID@ != RGB21_IFACE_ID@);
    assert(RGB20_FULL_IFACE_ID@ != RGB25_BASE_IFACE_ID@);
    assert(RGB20_FULL_IFACE_ID@ != RGB25_IFACE_ID@);
    assert(RGB21_UNIQUE_IFACE_ID@ != RGB25_BASE_IFACE_ID@);
    assert(RGB21_UNIQUE_IFACE_ID@ != RGB25_IFACE_ID@);
    assert(RGB21_IFACE_ID@ != RGB25_BASE_IFACE_ID@);
    assert(RGB21_IFACE_ID@ != RGB25_IFACE_ID@);
}

} // verus!
