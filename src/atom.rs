//! Protocol atoms: non-empty runs of printable ASCII characters outside the
//! atom-specials of the IMAP grammar.
use vstd::prelude::*;
use vstd::string::StringSliceAdditionalSpecFns;

verus! {

/// Whether `b` is an `ATOM-CHAR`: a printable ASCII character other than
/// `(`, `)`, `{`, space, `%`, `*`, `"`, `\` and `]`.
pub open spec fn atom_char(b: u8) -> bool {
    &&& 0x21 <= b <= 0x7e
    &&& b != 0x28u8
    &&& b != 0x29u8
    &&& b != 0x7bu8
    &&& b != 0x25u8
    &&& b != 0x2au8
    &&& b != 0x22u8
    &&& b != 0x5cu8
    &&& b != 0x5du8
}

/// Whether `s` is a well-formed atom: at least one byte, every byte an `ATOM-CHAR`.
pub open spec fn is_atom(s: Seq<u8>) -> bool {
    &&& s.len() > 0
    &&& forall|i: int| 0 <= i < s.len() ==> atom_char(#[trigger] s[i])
}

/// Tests a single byte against [`atom_char`].
pub fn is_atom_char(b: u8) -> (r: bool)
    ensures
        r == atom_char(b),
{
    0x21 <= b && b <= 0x7e && b != 0x28u8 && b != 0x29u8 && b != 0x7bu8 && b != 0x25u8
        && b != 0x2au8 && b != 0x22u8 && b != 0x5cu8 && b != 0x5du8
}

/// Why a string was refused as an atom.
#[derive(Debug, Clone, Copy, PartialEq, Eq, Hash)]
pub enum AtomError {
    /// The string has no characters.
    Empty,
    /// The string holds a byte that may not appear in an atom.
    ByteNotAllowed { found: u8, position: usize },
}

/// A validated atom. Its bytes are kept exactly as supplied, casing included.
#[derive(Debug, PartialEq, Eq, Hash)]
pub struct Atom {
    bytes: Vec<u8>,
}

impl View for Atom {
    type V = Seq<u8>;

    closed spec fn view(&self) -> Seq<u8> {
        self.bytes@
    }
}

impl Atom {
    #[verifier::type_invariant]
    pub open spec fn inv(&self) -> bool {
        is_atom(self@)
    }

    /// Validates `s` as an atom.
    pub fn try_from(s: &str) -> (r: Result<Atom, AtomError>)
        ensures
            r is Ok <==> is_atom(s.spec_bytes()),
            r matches Ok(a) ==> a@ == s.spec_bytes(),
            r matches Err(AtomError::Empty) <==> s.spec_bytes().len() == 0,
            r matches Err(AtomError::ByteNotAllowed { found, position }) ==> {
                &&& position < s.spec_bytes().len()
                &&& s.spec_bytes()[position as int] == found
                &&& !atom_char(found)
                &&& forall|i: int| 0 <= i < position ==> atom_char(#[trigger] s.spec_bytes()[i])
            },
    {
        let src: &[u8] = s.as_bytes();
        if src.len() == 0 {
            return Err(AtomError::Empty);
        }
        let mut bytes: Vec<u8> = Vec::new();
        let mut i: usize = 0;
        while i < src.len()
            invariant
                src@ == s.spec_bytes(),
                i <= src@.len(),
                bytes@ == src@.subrange(0, i as int),
                forall|j: int| 0 <= j < i ==> atom_char(#[trigger] src@[j]),
            decreases src@.len() - i,
        {
            let b = src[i];
            if !is_atom_char(b) {
                return Err(AtomError::ByteNotAllowed { found: b, position: i });
            }
            bytes.push(b);
            i = i + 1;
        }
        assert(bytes@ == src@);
        Ok(Atom { bytes })
    }

    /// The atom's bytes, as supplied.
    pub fn as_bytes(&self) -> (r: &[u8])
        ensures
            r@ == self@,
    {
        self.bytes.as_slice()
    }
}

impl Clone for Atom {
    fn clone(&self) -> (r: Self)
        ensures
            r@ == self@,
    {
        proof {
            use_type_invariant(self);
        }
        let bytes = self.bytes.clone();
        assert(bytes@ =~= self.bytes@);
        Atom { bytes }
    }
}

} // verus!
