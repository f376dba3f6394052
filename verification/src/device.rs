//! The attributes of a machine and the fingerprint derived from them.
//!
//! A fingerprint is the hexadecimal SHA3-256 digest of a fixed sequence of
//! attributes. Network interfaces enter that sequence in sorted order, so the
//! order in which the operating system lists them has no influence.

use crate::digest::{sha3_256, sha3_256_digest};
use crate::encoding::{append_text, append_u64, hex_encode, hex_text};
use vstd::bytes::spec_u64_to_le_bytes;
use vstd::prelude::*;
use vstd::relations::{sorted_by, total_ordering};
use vstd::seq_lib::lemma_sorted_unique;
use vstd::utf8::{encode_utf8, encode_utf8_decode_utf8};

verus! {

/// The first processor of the machine.
#[derive(Debug)]
pub struct Processor {
    pub brand: String,
    pub frequency: u64,
}

/// One network interface: its name and its hardware address as text.
#[derive(Debug)]
pub struct NetworkInterface {
    pub name: String,
    pub mac_address: String,
}

/// What is read from the machine to tell it from others.
#[derive(Debug)]
pub struct DeviceAttributes {
    pub processor: Option<Processor>,
    pub total_memory: u64,
    pub host_name: Option<String>,
    pub interfaces: Vec<NetworkInterface>,
    pub os_name: Option<String>,
    pub kernel_version: Option<String>,
}

/// The mathematical view of a [`Processor`]: texts are sequences of characters, byte
/// strings are sequences of bytes.
pub struct ProcessorView {
    pub brand: Seq<char>,
    pub frequency: u64,
}

/// The mathematical view of a [`NetworkInterface`]: texts are sequences of characters, byte
/// strings are sequences of bytes.
pub struct InterfaceView {
    pub name: Seq<char>,
    pub mac_address: Seq<char>,
}

/// The mathematical view of [`DeviceAttributes`]: texts are sequences of characters, byte
/// strings are sequences of bytes.
pub struct DeviceView {
    pub processor: Option<ProcessorView>,
    pub total_memory: u64,
    pub host_name: Option<Seq<char>>,
    pub interfaces: Seq<InterfaceView>,
    pub os_name: Option<Seq<char>>,
    pub kernel_version: Option<Seq<char>>,
}

impl View for Processor {
    type V = ProcessorView;

    open spec fn view(&self) -> ProcessorView {
        ProcessorView { brand: self.brand@, frequency: self.frequency }
    }
}

impl View for NetworkInterface {
    type V = InterfaceView;

    open spec fn view(&self) -> InterfaceView {
        InterfaceView { name: self.name@, mac_address: self.mac_address@ }
    }
}

/// The views of a list of interfaces, in the order of the list.
pub open spec fn interface_views(interfaces: Seq<NetworkInterface>) -> Seq<InterfaceView> {
    Seq::new(interfaces.len(), |i: int| interfaces[i]@)
}

/// The text inside an optional string.
pub open spec fn optional_text(text: Option<String>) -> Option<Seq<char>> {
    match text {
        Some(t) => Some(t@),
        None => None,
    }
}

impl View for DeviceAttributes {
    type V = DeviceView;

    open spec fn view(&self) -> DeviceView {
        DeviceView {
            processor: match self.processor {
                Some(p) => Some(p@),
                None => None,
            },
            total_memory: self.total_memory,
            host_name: optional_text(self.host_name),
            interfaces: interface_views(self.interfaces@),
            os_name: optional_text(self.os_name),
            kernel_version: optional_text(self.kernel_version),
        }
    }
}

/// Lexicographic order on byte strings from position `i` on, given that the
/// two strings agree before `i`.
pub open spec fn lex_le_from(a: Seq<u8>, b: Seq<u8>, i: int) -> bool
    decreases a.len() - i,
{
    if i < 0 || i >= a.len() {
        true
    } else if i >= b.len() {
        false
    } else if a[i] != b[i] {
        a[i] < b[i]
    } else {
        lex_le_from(a, b, i + 1)
    }
}

/// `a` comes before `b`, or equals it, in lexicographic order.
pub open spec fn lex_le(a: Seq<u8>, b: Seq<u8>) -> bool {
    lex_le_from(a, b, 0)
}

/// The order in which interfaces enter a fingerprint: by the bytes of the
/// name, and among equal names by the bytes of the address.
pub open spec fn interface_le(x: InterfaceView, y: InterfaceView) -> bool {
    if x.name == y.name {
        lex_le(encode_utf8(x.mac_address), encode_utf8(y.mac_address))
    } else {
        lex_le(encode_utf8(x.name), encode_utf8(y.name))
    }
}

/// The order of interfaces as a relation.
pub open spec fn interface_order() -> spec_fn(InterfaceView, InterfaceView) -> bool {
    |x: InterfaceView, y: InterfaceView| interface_le(x, y)
}

/// The interfaces in ascending order.
pub open spec fn sorted_interfaces(interfaces: Seq<InterfaceView>) -> Seq<InterfaceView> {
    interfaces.sort_by(interface_order())
}

/// Every byte string comes before or equals itself, from any position on.
pub proof fn lemma_lex_le_reflexive(a: Seq<u8>, i: int)
    ensures
        lex_le_from(a, a, i),
    decreases a.len() - i,
{
    if 0 <= i < a.len() {
        lemma_lex_le_reflexive(a, i + 1);
    }
}

/// Of two byte strings, one comes before or equals the other.
pub proof fn lemma_lex_le_connected(a: Seq<u8>, b: Seq<u8>, i: int)
    ensures
        lex_le_from(a, b, i) || lex_le_from(b, a, i),
    decreases a.len() - i,
{
    if 0 <= i < a.len() && i < b.len() && a[i] == b[i] {
        lemma_lex_le_connected(a, b, i + 1);
    }
}

/// Two byte strings that agree before `i` and come before each other from
/// `i` on are equal.
pub proof fn lemma_lex_le_antisymmetric(a: Seq<u8>, b: Seq<u8>, i: int)
    requires
        0 <= i,
        i <= a.len(),
        i <= b.len(),
        forall|k: int| 0 <= k < i ==> a[k] == b[k],
        lex_le_from(a, b, i),
        lex_le_from(b, a, i),
    ensures
        a == b,
    decreases a.len() - i,
{
    if i < a.len() && i < b.len() {
        lemma_lex_le_antisymmetric(a, b, i + 1);
    } else {
        assert(a =~= b);
    }
}

/// The lexicographic order is transitive.
pub proof fn lemma_lex_le_transitive(a: Seq<u8>, b: Seq<u8>, c: Seq<u8>, i: int)
    requires
        0 <= i,
        lex_le_from(a, b, i),
        lex_le_from(b, c, i),
    ensures
        lex_le_from(a, c, i),
    decreases a.len() - i,
{
    if i < a.len() && i < b.len() && i < c.len() && a[i] == b[i] && b[i] == c[i] {
        lemma_lex_le_transitive(a, b, c, i + 1);
    }
}

/// The order of interfaces is total: any two interfaces compare, and two
/// that come before each other are the same.
pub proof fn lemma_interface_order_is_total()
    ensures
        total_ordering(interface_order()),
{
    let leq = interface_order();
    assert forall|x: InterfaceView| #[trigger] leq(x, x) by {
        lemma_lex_le_reflexive(encode_utf8(x.mac_address), 0);
    }
    assert forall|x: InterfaceView, y: InterfaceView| #[trigger] leq(x, y) || #[trigger] leq(y, x) by {
        lemma_lex_le_connected(encode_utf8(x.mac_address), encode_utf8(y.mac_address), 0);
        lemma_lex_le_connected(encode_utf8(x.name), encode_utf8(y.name), 0);
    }
    assert forall|x: InterfaceView, y: InterfaceView| #[trigger] leq(x, y) && #[trigger] leq(
        y,
        x,
    ) implies x == y by {
        encode_utf8_decode_utf8(x.name);
        encode_utf8_decode_utf8(y.name);
        encode_utf8_decode_utf8(x.mac_address);
        encode_utf8_decode_utf8(y.mac_address);
        if x.name == y.name {
            lemma_lex_le_antisymmetric(encode_utf8(x.mac_address), encode_utf8(y.mac_address), 0);
        } else {
            lemma_lex_le_antisymmetric(encode_utf8(x.name), encode_utf8(y.name), 0);
        }
    }
    assert forall|x: InterfaceView, y: InterfaceView, z: InterfaceView| #[trigger] leq(x, y)
        && #[trigger] leq(y, z) implies leq(x, z) by {
        encode_utf8_decode_utf8(x.name);
        encode_utf8_decode_utf8(y.name);
        encode_utf8_decode_utf8(z.name);
        let xn = encode_utf8(x.name);
        let yn = encode_utf8(y.name);
        let zn = encode_utf8(z.name);
        if x.name == y.name && y.name == z.name {
            lemma_lex_le_transitive(
                encode_utf8(x.mac_address),
                encode_utf8(y.mac_address),
                encode_utf8(z.mac_address),
                0,
            );
        } else if x.name != y.name && y.name != z.name {
            lemma_lex_le_transitive(xn, yn, zn, 0);
            if x.name == z.name {
                lemma_lex_le_antisymmetric(xn, yn, 0);
            }
        }
    }
}

/// Putting `x` at position `p` of an ascending sequence keeps it ascending,
/// where all that stands before `p` comes before `x` and nothing from `p` on
/// does, and adds `x` to what the sequence holds.
pub proof fn lemma_insert_keeps_order(front: Seq<InterfaceView>, p: int, x: InterfaceView)
    requires
        sorted_by(front, interface_order()),
        0 <= p <= front.len(),
        p > 0 ==> interface_le(front[p - 1], x),
        forall|k: int| p <= k < front.len() ==> !interface_le(#[trigger] front[k], x),
    ensures
        sorted_by(front.insert(p, x), interface_order()),
        front.insert(p, x).to_multiset() == front.to_multiset().insert(x),
{
    let leq = interface_order();
    let grown = front.insert(p, x);
    lemma_interface_order_is_total();
    assert forall|i: int, j: int| 0 <= i < j < grown.len() implies #[trigger] leq(
        grown[i],
        grown[j],
    ) by {
        if j < p {
            assert(leq(front[i], front[j]));
        } else if j == p {
            if i < p - 1 {
                assert(leq(front[i], front[p - 1]));
            }
            assert(leq(front[p - 1], x));
            assert(leq(grown[i], front[p - 1]) && leq(front[p - 1], x) ==> leq(grown[i], x));
        } else if i < p {
            assert(leq(front[i], front[j - 1]));
        } else if i == p {
            assert(!interface_le(front[j - 1], x));
            assert(leq(front[j - 1], x) || leq(x, front[j - 1]));
        } else {
            assert(leq(front[i - 1], front[j - 1]));
        }
    }
    assert(grown.remove(p) =~= front);
    grown.to_multiset_ensures();
    assert(grown.to_multiset().remove(grown[p]) =~= front.to_multiset());
    assert(grown.to_multiset().count(x) > 0) by {
        assert(grown.contains(x)) by {
            assert(grown[p] == x);
        }
    }
    assert(grown.to_multiset() =~= front.to_multiset().insert(x));
}

/// The bytes that a list of interfaces contributes, in the order of the list.
pub open spec fn interfaces_bytes(interfaces: Seq<InterfaceView>) -> Seq<u8>
    decreases interfaces.len(),
{
    if interfaces.len() == 0 {
        Seq::empty()
    } else {
        interfaces_bytes(interfaces.drop_last()) + encode_utf8(interfaces.last().name)
            + encode_utf8(interfaces.last().mac_address)
    }
}

/// The bytes of an optional text: nothing where it is absent.
pub open spec fn optional_text_bytes(text: Option<Seq<char>>) -> Seq<u8> {
    match text {
        Some(t) => encode_utf8(t),
        None => Seq::empty(),
    }
}

/// The bytes of the processor: brand, then frequency in little-endian order.
pub open spec fn processor_bytes(processor: Option<ProcessorView>) -> Seq<u8> {
    match processor {
        Some(p) => encode_utf8(p.brand) + spec_u64_to_le_bytes(p.frequency),
        None => Seq::empty(),
    }
}

/// The byte string that is hashed into a fingerprint.
pub open spec fn fingerprint_material(device: DeviceView) -> Seq<u8> {
    processor_bytes(device.processor) + spec_u64_to_le_bytes(device.total_memory)
        + optional_text_bytes(device.host_name) + interfaces_bytes(
        sorted_interfaces(device.interfaces),
    ) + optional_text_bytes(device.os_name) + optional_text_bytes(device.kernel_version)
}

/// Number of hexadecimal digits in a fingerprint.
pub const FINGERPRINT_LEN: usize = 64;

/// The fingerprint of a machine: the digest of its attributes in lowercase
/// hexadecimal digits.
pub open spec fn device_fingerprint(device: DeviceView) -> Seq<char> {
    hex_text(sha3_256(fingerprint_material(device)))
}

/// Appends the UTF-8 bytes of `text`, where there is one.
pub fn append_optional_text(buffer: &mut Vec<u8>, text: &Option<String>)
    ensures
        final(buffer)@ == old(buffer)@ + optional_text_bytes(optional_text(*text)),
{
    match text {
        Some(t) => {
            append_text(buffer, t.as_str());
        },
        None => {
            assert(buffer@ =~= old(buffer)@ + Seq::<u8>::empty());
        },
    }
}

/// Decides the lexicographic order of two byte strings.
pub fn bytes_le(a: &[u8], b: &[u8]) -> (le: bool)
    ensures
        le == lex_le(a@, b@),
{
    let mut i: usize = 0;
    while i < a.len() && i < b.len()
        invariant
            i <= a@.len(),
            i <= b@.len(),
            lex_le(a@, b@) == lex_le_from(a@, b@, i as int),
        decreases a@.len() - i,
    {
        if a[i] != b[i] {
            return a[i] < b[i];
        }
        i = i + 1;
    }
    i >= a.len()
}

/// Decides whether interface `x` may stand before interface `y`.
pub fn interface_precedes(x: &NetworkInterface, y: &NetworkInterface) -> (le: bool)
    ensures
        le == interface_le(x@, y@),
{
    if x.name == y.name {
        bytes_le(x.mac_address.as_str().as_bytes(), y.mac_address.as_str().as_bytes())
    } else {
        bytes_le(x.name.as_str().as_bytes(), y.name.as_str().as_bytes())
    }
}

/// The interfaces that `order` picks out of `interfaces`, one for each
/// position that it names.
pub open spec fn selected(interfaces: Seq<NetworkInterface>, order: Seq<usize>) -> Seq<
    InterfaceView,
> {
    Seq::new(order.len(), |k: int| interfaces[order[k] as int]@)
}

/// Lists the positions of `interfaces` so that the interfaces they name
/// stand in ascending order.
pub fn sorted_order(interfaces: &Vec<NetworkInterface>) -> (order: Vec<usize>)
    ensures
        order@.len() == interfaces@.len(),
        forall|k: int| 0 <= k < order@.len() ==> (#[trigger] order@[k]) < interfaces@.len(),
        selected(interfaces@, order@) == sorted_interfaces(interface_views(interfaces@)),
{
    let ghost views = interface_views(interfaces@);
    let mut order: Vec<usize> = Vec::new();
    let mut n: usize = 0;
    proof {
        assert(selected(interfaces@, order@).to_multiset() =~= views.take(0).to_multiset()) by {
            assert(selected(interfaces@, order@) =~= views.take(0));
        }
    }
    while n < interfaces.len()
        invariant
            n <= interfaces@.len(),
            views == interface_views(interfaces@),
            order@.len() == n,
            forall|k: int| 0 <= k < order@.len() ==> (#[trigger] order@[k]) < n,
            sorted_by(selected(interfaces@, order@), interface_order()),
            selected(interfaces@, order@).to_multiset() == views.take(n as int).to_multiset(),
        decreases interfaces@.len() - n,
    {
        let ghost front = selected(interfaces@, order@);
        let ghost x = views[n as int];
        let mut p: usize = order.len();
        let mut searching = true;
        while searching && p > 0
            invariant
                p <= order@.len(),
                n < interfaces@.len(),
                x == interfaces@[n as int]@,
                front == selected(interfaces@, order@),
                forall|k: int| 0 <= k < order@.len() ==> (#[trigger] order@[k]) < n,
                forall|k: int| p <= k < front.len() ==> !interface_le(#[trigger] front[k], x),
                !searching ==> p > 0 && interface_le(front[p - 1], x),
            decreases p + if searching { 1int } else { 0int },
        {
            let candidate = order[p - 1];
            assert(front[p - 1] == interfaces@[candidate as int]@);
            if interface_precedes(&interfaces[candidate], &interfaces[n]) {
                searching = false;
            } else {
                p = p - 1;
            }
        }
        order.insert(p, n);
        proof {
            lemma_insert_keeps_order(front, p as int, x);
            assert(selected(interfaces@, order@) =~= front.insert(p as int, x));
            assert(views.take(n + 1) =~= views.take(n as int).push(x));
            views.take(n as int).to_multiset_ensures();
        }
        n = n + 1;
    }
    proof {
        assert(views.take(n as int) =~= views);
        lemma_interface_order_is_total();
        views.lemma_sort_by_ensures(interface_order());
        lemma_sorted_unique(selected(interfaces@, order@), sorted_interfaces(views), interface_order());
    }
    order
}

impl DeviceAttributes {
    /// Computes the fingerprint of the machine that these attributes
    /// describe.
    pub fn fingerprint(&self) -> (text: String)
        ensures
            text@ == device_fingerprint(self@),
            text@.len() == FINGERPRINT_LEN,
    {
        let mut material: Vec<u8> = Vec::new();
        match &self.processor {
            Some(p) => {
                append_text(&mut material, p.brand.as_str());
                append_u64(&mut material, p.frequency);
            },
            None => {},
        }
        assert(material@ =~= processor_bytes(self@.processor));
        append_u64(&mut material, self.total_memory);
        append_optional_text(&mut material, &self.host_name);
        let order = sorted_order(&self.interfaces);
        let ghost head = material@;
        let ghost sorted = sorted_interfaces(self@.interfaces);
        let mut k: usize = 0;
        while k < order.len()
            invariant
                k <= order@.len(),
                order@.len() == self.interfaces@.len(),
                forall|j: int|
                    0 <= j < order@.len() ==> (#[trigger] order@[j]) < self.interfaces@.len(),
                sorted == selected(self.interfaces@, order@),
                material@ == head + interfaces_bytes(sorted.take(k as int)),
            decreases order@.len() - k,
        {
            let interface = &self.interfaces[order[k]];
            append_text(&mut material, interface.name.as_str());
            append_text(&mut material, interface.mac_address.as_str());
            proof {
                assert(sorted.take(k + 1).drop_last() =~= sorted.take(k as int));
                assert(sorted.take(k + 1).last() == interface@);
                assert(material@ =~= head + interfaces_bytes(sorted.take(k + 1)));
            }
            k = k + 1;
        }
        assert(sorted.take(k as int) =~= sorted);
        append_optional_text(&mut material, &self.os_name);
        append_optional_text(&mut material, &self.kernel_version);
        assert(material@ =~= fingerprint_material(self@));
        let digest = sha3_256_digest(material.as_slice());
        hex_encode(digest.as_slice())
    }
}

} // verus!
