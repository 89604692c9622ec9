//! The `ENABLE` command body and its wire encoding.
use vstd::prelude::*;

use crate::enable::CapabilityEnable;
use crate::non_empty::{NonEmptyVec, NonEmptyVecError};

verus! {

/// The command name `ENABLE`.
pub open spec fn enable_keyword() -> Seq<u8> {
    seq![0x45u8, 0x4eu8, 0x41u8, 0x42u8, 0x4cu8, 0x45u8]
}

/// Each capability of `caps` in order, each one preceded by a space.
pub open spec fn spaced_wire(caps: Seq<CapabilityEnable>) -> Seq<u8>
    decreases caps.len(),
{
    if caps.len() == 0 {
        Seq::empty()
    } else {
        spaced_wire(caps.drop_last()) + seq![0x20u8] + caps.last().wire()
    }
}

/// A command body. `ENABLE` asks the server to turn on the listed extensions.
#[derive(Debug, Clone, PartialEq, Eq, Hash)]
pub enum CommandBody {
    Enable { capabilities: NonEmptyVec<CapabilityEnable> },
}

impl CommandBody {
    /// The bytes of the command body on the wire: `ENABLE` followed by each
    /// capability, in order, after a space.
    pub open spec fn wire(self) -> Seq<u8> {
        match self {
            CommandBody::Enable { capabilities } => enable_keyword() + spaced_wire(capabilities@),
        }
    }

    /// Builds an `ENABLE` command for `capabilities`, in the order given. Fails
    /// with `Empty` exactly when there are none.
    pub fn enable(capabilities: Vec<CapabilityEnable>) -> (r: Result<CommandBody, NonEmptyVecError>)
        ensures
            r is Ok <==> capabilities@.len() > 0,
            r matches Ok(CommandBody::Enable { capabilities: c }) ==> c@ == capabilities@,
            r matches Err(e) ==> e == NonEmptyVecError::Empty,
    {
        let capabilities = NonEmptyVec::try_from(capabilities)?;
        Ok(CommandBody::Enable { capabilities })
    }

    /// Appends the wire form of the command body to `out`.
    pub fn encode(&self, out: &mut Vec<u8>)
        ensures
            final(out)@ == old(out)@ + self.wire(),
    {
        match self {
            CommandBody::Enable { capabilities } => {
                // `ENABLE`
                let keyword: [u8; 6] = [0x45u8, 0x4eu8, 0x41u8, 0x42u8, 0x4cu8, 0x45u8];
                let mut i: usize = 0;
                while i < keyword.len()
                    invariant
                        keyword@ == enable_keyword(),
                        i <= keyword@.len(),
                        out@ == old(out)@ + keyword@.subrange(0, i as int),
                    decreases keyword@.len() - i,
                {
                    out.push(keyword[i]);
                    i = i + 1;
                    assert(out@ =~= old(out)@ + keyword@.subrange(0, i as int));
                }
                assert(keyword@.subrange(0, i as int) =~= keyword@);
                let caps = capabilities.as_slice();
                let ghost start = out@;
                let mut k: usize = 0;
                while k < caps.len()
                    invariant
                        caps@ == capabilities@,
                        k <= caps@.len(),
                        start == old(out)@ + enable_keyword(),
                        out@ == start + spaced_wire(caps@.subrange(0, k as int)),
                    decreases caps@.len() - k,
                {
                    assert(caps@.subrange(0, k + 1).drop_last() =~= caps@.subrange(0, k as int));
                    out.push(0x20u8);
                    caps[k].encode(out);
                    k = k + 1;
                    assert(out@ =~= start + spaced_wire(caps@.subrange(0, k as int)));
                }
                assert(caps@.subrange(0, k as int) =~= caps@);
                assert(out@ =~= old(out)@ + self.wire());
            },
        }
    }

    /// The wire form of the command body, on its own.
    pub fn encode_detached(&self) -> (r: Vec<u8>)
        ensures
            r@ == self.wire(),
    {
        let mut out: Vec<u8> = Vec::new();
        self.encode(&mut out);
        assert(out@ =~= self.wire());
        out
    }
}

} // verus!
