//! Capability values of the `ENABLE` command: recognition of the reserved UTF-8
//! names, the checked wrapper for every other name, and the wire encoding.
use vstd::prelude::*;

use crate::atom::Atom;

verus! {

/// The byte `b` with an ASCII capital letter turned into its lowercase form.
pub open spec fn ascii_lower(b: u8) -> u8 {
    if 0x41 <= b <= 0x5a {
        (b + 0x20) as u8
    } else {
        b
    }
}

/// The ASCII lowercase form of `s`: only `A` to `Z` change.
pub open spec fn lowercase(s: Seq<u8>) -> Seq<u8> {
    s.map_values(|b: u8| ascii_lower(b))
}

/// The two values of the UTF-8 capability.
#[derive(Debug, Clone, Copy, PartialEq, Eq, Hash, Structural)]
pub enum Utf8Kind {
    /// `UTF8=ACCEPT`: the client accepts UTF-8 in mailbox names and strings.
    Accept,
    /// `UTF8=ONLY`: the client asks for UTF-8 only.
    Only,
}

impl Utf8Kind {
    /// The canonical spelling on the wire: `UTF8=ACCEPT` or `UTF8=ONLY`.
    pub open spec fn wire(self) -> Seq<u8> {
        match self {
            Utf8Kind::Accept => seq![0x55u8, 0x54u8, 0x46u8, 0x38u8, 0x3du8, 0x41u8, 0x43u8, 0x43u8, 0x45u8, 0x50u8, 0x54u8],
            Utf8Kind::Only => seq![0x55u8, 0x54u8, 0x46u8, 0x38u8, 0x3du8, 0x4fu8, 0x4eu8, 0x4cu8, 0x59u8],
        }
    }

    /// The reserved name in lowercase: `utf8=accept` or `utf8=only`.
    pub open spec fn lower_name(self) -> Seq<u8> {
        match self {
            Utf8Kind::Accept => seq![0x75u8, 0x74u8, 0x66u8, 0x38u8, 0x3du8, 0x61u8, 0x63u8, 0x63u8, 0x65u8, 0x70u8, 0x74u8],
            Utf8Kind::Only => seq![0x75u8, 0x74u8, 0x66u8, 0x38u8, 0x3du8, 0x6fu8, 0x6eu8, 0x6cu8, 0x79u8],
        }
    }
}

/// The UTF-8 capability that the name `s` denotes, compared without regard to
/// ASCII case, or `None` where `s` is not reserved.
pub open spec fn reserved_kind(s: Seq<u8>) -> Option<Utf8Kind> {
    if lowercase(s) == Utf8Kind::Accept.lower_name() {
        Some(Utf8Kind::Accept)
    } else if lowercase(s) == Utf8Kind::Only.lower_name() {
        Some(Utf8Kind::Only)
    } else {
        None
    }
}

/// Whether `s` is one of the reserved capability names, in any casing.
pub open spec fn is_reserved(s: Seq<u8>) -> bool {
    reserved_kind(s) is Some
}

/// Appends `src` to `out`.
fn push_bytes(out: &mut Vec<u8>, src: &[u8])
    ensures
        final(out)@ == old(out)@ + src@,
{
    let mut i: usize = 0;
    while i < src.len()
        invariant
            i <= src@.len(),
            out@ == old(out)@ + src@.subrange(0, i as int),
        decreases src@.len() - i,
    {
        out.push(src[i]);
        i = i + 1;
        assert(out@ =~= old(out)@ + src@.subrange(0, i as int));
    }
    assert(src@.subrange(0, i as int) =~= src@);
}

/// Lowercases one byte, as [`ascii_lower`] says.
fn to_ascii_lower(b: u8) -> (r: u8)
    ensures
        r == ascii_lower(b),
{
    if 0x41 <= b && b <= 0x5a {
        b + 0x20
    } else {
        b
    }
}

/// Whether the ASCII lowercase form of `s` is exactly `target`.
fn lowercase_equals(s: &[u8], target: &[u8]) -> (r: bool)
    ensures
        r == (lowercase(s@) == target@),
{
    if s.len() != target.len() {
        assert(lowercase(s@).len() != target@.len());
        return false;
    }
    let mut i: usize = 0;
    while i < s.len()
        invariant
            s@.len() == target@.len(),
            i <= s@.len(),
            forall|j: int| 0 <= j < i ==> ascii_lower(#[trigger] s@[j]) == target@[j],
        decreases s@.len() - i,
    {
        if to_ascii_lower(s[i]) != target[i] {
            assert(lowercase(s@)[i as int] != target@[i as int]);
            return false;
        }
        i = i + 1;
    }
    assert(lowercase(s@) =~= target@);
    true
}

/// Finds which reserved capability, if any, the name `s` denotes.
fn reserved_kind_of(s: &[u8]) -> (r: Option<Utf8Kind>)
    ensures
        r == reserved_kind(s@),
{
    // `utf8=accept` and `utf8=only`
    let accept: [u8; 11] = [0x75u8, 0x74u8, 0x66u8, 0x38u8, 0x3du8, 0x61u8, 0x63u8, 0x63u8, 0x65u8, 0x70u8, 0x74u8];
    let only: [u8; 9] = [0x75u8, 0x74u8, 0x66u8, 0x38u8, 0x3du8, 0x6fu8, 0x6eu8, 0x6cu8, 0x79u8];
    assert(accept@ == Utf8Kind::Accept.lower_name());
    assert(only@ == Utf8Kind::Only.lower_name());
    if lowercase_equals(s, accept.as_slice()) {
        Some(Utf8Kind::Accept)
    } else if lowercase_equals(s, only.as_slice()) {
        Some(Utf8Kind::Only)
    } else {
        None
    }
}

/// Why a name was refused as a generic capability.
#[derive(Debug, Clone, Copy, PartialEq, Eq, Hash, PartialOrd, Ord)]
pub enum CapabilityEnableOtherError {
    /// The name is one of the UTF-8 capabilities: use [`CapabilityEnable::Utf8`].
    Reserved,
}

/// A capability that is not one of the reserved UTF-8 names. The only way to
/// build one is through a check of the name, so the wrapped atom is never
/// reserved in any casing.
#[derive(Debug, PartialEq, Eq, Hash)]
pub struct CapabilityEnableOther {
    atom: Atom,
}

impl View for CapabilityEnableOther {
    type V = Seq<u8>;

    closed spec fn view(&self) -> Seq<u8> {
        self.atom@
    }
}

impl CapabilityEnableOther {
    #[verifier::type_invariant]
    pub open spec fn inv(&self) -> bool {
        !is_reserved(self@)
    }

    /// Whether a name may stand as a generic capability.
    pub open spec fn accepts(name: Seq<u8>) -> bool {
        !is_reserved(name)
    }

    /// Wraps `atom`, which must not be a reserved name in any casing. The atom
    /// is kept as supplied.
    pub fn try_from(atom: Atom) -> (r: Result<CapabilityEnableOther, CapabilityEnableOtherError>)
        ensures
            r is Ok <==> Self::accepts(atom@),
            r matches Ok(o) ==> o@ == atom@,
            r matches Err(e) ==> e == CapabilityEnableOtherError::Reserved,
    {
        match reserved_kind_of(atom.as_bytes()) {
            Some(_) => Err(CapabilityEnableOtherError::Reserved),
            None => Ok(CapabilityEnableOther { atom }),
        }
    }

    /// The wrapped atom.
    pub fn atom(&self) -> (r: &Atom)
        ensures
            r@ == self@,
    {
        &self.atom
    }

    /// Appends the atom's bytes, unchanged, to `out`.
    pub fn encode(&self, out: &mut Vec<u8>)
        ensures
            final(out)@ == old(out)@ + self@,
    {
        push_bytes(out, self.atom.as_bytes());
    }
}

impl Clone for CapabilityEnableOther {
    fn clone(&self) -> (r: Self)
        ensures
            r@ == self@,
    {
        proof {
            use_type_invariant(self);
        }
        CapabilityEnableOther { atom: self.atom.clone() }
    }
}

/// A capability named in an `ENABLE` command.
#[derive(Debug, PartialEq, Eq, Hash)]
pub enum CapabilityEnable {
    /// One of the UTF-8 capabilities, always written in its canonical spelling.
    Utf8(Utf8Kind),
    /// Any other capability, written exactly as its name was supplied.
    Other(CapabilityEnableOther),
}

impl CapabilityEnable {
    /// Whether the value can exist: an `Other` name is never reserved.
    pub open spec fn wf(self) -> bool {
        match self {
            CapabilityEnable::Utf8(_) => true,
            CapabilityEnable::Other(o) => o.inv(),
        }
    }

    /// The bytes of the value on the wire: the canonical spelling of a UTF-8
    /// capability, or a generic name exactly as supplied.
    pub open spec fn wire(self) -> Seq<u8> {
        match self {
            CapabilityEnable::Utf8(k) => k.wire(),
            CapabilityEnable::Other(o) => o@,
        }
    }

    /// Whether `c` is what the atom `name` is recognized as: the UTF-8
    /// capability it names in any casing, or else a generic capability that
    /// keeps the atom as it is.
    pub open spec fn recognizes(name: Seq<u8>, c: CapabilityEnable) -> bool {
        match reserved_kind(name) {
            Some(k) => c == CapabilityEnable::Utf8(k),
            None => c matches CapabilityEnable::Other(o) && o@ == name,
        }
    }

    /// Recognizes `atom`. Never fails: a reserved name in any casing becomes
    /// the matching UTF-8 capability, every other name a generic one.
    pub fn from(atom: Atom) -> (r: CapabilityEnable)
        ensures
            Self::recognizes(atom@, r),
            lowercase(atom@) == Utf8Kind::Accept.lower_name() ==> r == CapabilityEnable::Utf8(
                Utf8Kind::Accept,
            ),
            lowercase(atom@) == Utf8Kind::Only.lower_name() ==> r == CapabilityEnable::Utf8(
                Utf8Kind::Only,
            ),
    {
        match reserved_kind_of(atom.as_bytes()) {
            Some(kind) => CapabilityEnable::Utf8(kind),
            None => CapabilityEnable::Other(CapabilityEnableOther { atom }),
        }
    }

    /// Appends the wire form of the value to `out`.
    pub fn encode(&self, out: &mut Vec<u8>)
        ensures
            final(out)@ == old(out)@ + self.wire(),
    {
        match self {
            CapabilityEnable::Utf8(Utf8Kind::Accept) => {
                // `UTF8=ACCEPT`
                let lit: [u8; 11] = [0x55u8, 0x54u8, 0x46u8, 0x38u8, 0x3du8, 0x41u8, 0x43u8, 0x43u8, 0x45u8, 0x50u8, 0x54u8];
                assert(lit@ == Utf8Kind::Accept.wire());
                push_bytes(out, lit.as_slice());
            },
            CapabilityEnable::Utf8(Utf8Kind::Only) => {
                // `UTF8=ONLY`
                let lit: [u8; 9] = [0x55u8, 0x54u8, 0x46u8, 0x38u8, 0x3du8, 0x4fu8, 0x4eu8, 0x4cu8, 0x59u8];
                assert(lit@ == Utf8Kind::Only.wire());
                push_bytes(out, lit.as_slice());
            },
            CapabilityEnable::Other(other) => other.encode(out),
        }
    }

    /// The wire form of the value, on its own.
    pub fn encode_detached(&self) -> (r: Vec<u8>)
        ensures
            r@ == self.wire(),
    {
        let mut out: Vec<u8> = Vec::new();
        self.encode(&mut out);
        assert(out@ =~= self.wire());
        out
    }
}

impl Clone for CapabilityEnable {
    fn clone(&self) -> (r: Self)
        ensures
            r.wire() == self.wire(),
            r is Utf8 <==> self is Utf8,
            self is Utf8 ==> r == *self,
    {
        match self {
            CapabilityEnable::Utf8(k) => CapabilityEnable::Utf8(*k),
            CapabilityEnable::Other(o) => CapabilityEnable::Other(o.clone()),
        }
    }
}

/// The canonical spelling of a UTF-8 capability, lowercased, is its reserved name.
pub proof fn lemma_lowercase_wire(k: Utf8Kind)
    ensures
        lowercase(k.wire()) == k.lower_name(),
{
    assert(lowercase(k.wire()) =~= k.lower_name());
}

/// A name that is not reserved in any casing is accepted as a generic
/// capability, and that capability encodes as exactly the bytes of the name.
pub proof fn lemma_other_round_trip(name: Seq<u8>, o: CapabilityEnableOther)
    requires
        lowercase(name) != Utf8Kind::Accept.lower_name(),
        lowercase(name) != Utf8Kind::Only.lower_name(),
        o@ == name,
    ensures
        CapabilityEnableOther::accepts(name),
        CapabilityEnable::Other(o).wire() == name,
{
}

/// The encoding tells the arms apart: two values that can exist and encode
/// alike are of the same arm, and two UTF-8 capabilities that encode alike
/// are the same capability.
pub proof fn lemma_wire_determines_arm(a: CapabilityEnable, b: CapabilityEnable)
    requires
        a.wf(),
        b.wf(),
        a.wire() == b.wire(),
    ensures
        a is Utf8 <==> b is Utf8,
        a is Utf8 ==> a == b,
{
    lemma_lowercase_wire(Utf8Kind::Accept);
    lemma_lowercase_wire(Utf8Kind::Only);
    let accept = Utf8Kind::Accept.wire();
    let only = Utf8Kind::Only.wire();
    assert(accept.len() != only.len());
    match (a, b) {
        (CapabilityEnable::Utf8(k), CapabilityEnable::Other(o)) => {
            assert(reserved_kind(o@) is Some);
        },
        (CapabilityEnable::Other(o), CapabilityEnable::Utf8(k)) => {
            assert(reserved_kind(o@) is Some);
        },
        (CapabilityEnable::Utf8(k1), CapabilityEnable::Utf8(k2)) => {
            assert(k1.wire().len() == k2.wire().len());
        },
        _ => {},
    }
}

} // verus!
