//! Structures and constants of the RISC-V Supervisor Binary Interface.
//!
//! The two-word call result and its classification live in [`binary`]; every
//! other module holds the identifiers of one standard extension, whose id is
//! either a literal or the packing of a short ASCII name (see
//! [`eid_from_str`]).
pub mod base;
pub mod binary;
pub mod cppc;
pub mod dbcn;
pub mod hsm;
pub mod legacy;
pub mod nacl;
pub mod pmu;
pub mod rfnc;
pub mod spi;
pub mod srst;
pub mod sta;
pub mod susp;
pub mod time;

use vstd::prelude::*;
use vstd::utf8::is_ascii_chars;

verus! {

/// A name that an extension id can be derived from: one to four ASCII
/// characters.
pub open spec fn is_eid_name(name: Seq<char>) -> bool {
    &&& 1 <= name.len() <= 4
    &&& is_ascii_chars(name)
}

/// The id that `name` stands for: its characters as bytes, packed big-endian,
/// the first character in the most significant byte used.
pub open spec fn eid_of(name: Seq<char>) -> int
    decreases name.len(),
{
    if name.len() == 0 {
        0
    } else {
        eid_of(name.drop_last()) * 256 + (name.last() as int)
    }
}

/// Converts an extension name of one to four ASCII characters to its id.
pub fn eid_from_str(name: &str) -> (r: i32)
    requires
        is_eid_name(name@),
    ensures
        r as int == eid_of(name@),
{
    let bytes = name.as_bytes();
    proof {
        vstd::string::is_ascii_spec_bytes(name);
    }
    let mut eid: i32 = 0;
    let mut i: usize = 0;
    while i < bytes.len()
        invariant
            is_eid_name(name@),
            bytes@.len() == name@.len(),
            forall|k: int| 0 <= k < name@.len() ==> bytes@[k] == name@[k] as u8,
            0 <= i <= name@.len(),
            eid as int == eid_of(name@.take(i as int)),
            i == 0 ==> eid == 0,
            i == 1 ==> 0 <= eid < 0x80,
            i == 2 ==> 0 <= eid < 0x8000,
            i == 3 ==> 0 <= eid < 0x80_0000,
        decreases name@.len() - i,
    {
        let b = bytes[i];
        assert(name@.take(i + 1).drop_last() =~= name@.take(i as int));
        assert(name@[i as int] as u8 == name@[i as int] as int);
        eid = eid * 256 + b as i32;
        i = i + 1;
    }
    assert(name@.take(i as int) =~= name@);
    eid
}

proof fn lemma_eid_nonnegative(name: Seq<char>)
    requires
        is_ascii_chars(name),
    ensures
        0 <= eid_of(name),
    decreases name.len(),
{
    if name.len() > 0 {
        assert(is_ascii_chars(name.drop_last()));
        assert((name.last() as int) < 128);
        lemma_eid_nonnegative(name.drop_last());
    }
}

/// Two different names of the same length never stand for the same id.
pub proof fn lemma_eid_injective(a: Seq<char>, b: Seq<char>)
    requires
        is_eid_name(a),
        is_eid_name(b),
        a.len() == b.len(),
        a != b,
    ensures
        eid_of(a) != eid_of(b),
{
    if eid_of(a) == eid_of(b) {
        lemma_eid_determines_name(a, b);
    }
}

proof fn lemma_eid_determines_name(a: Seq<char>, b: Seq<char>)
    requires
        is_ascii_chars(a),
        is_ascii_chars(b),
        a.len() == b.len(),
        eid_of(a) == eid_of(b),
    ensures
        a == b,
    decreases a.len(),
{
    if a.len() > 0 {
        let (pa, pb) = (a.drop_last(), b.drop_last());
        let (ca, cb) = (a.last() as int, b.last() as int);
        assert(is_ascii_chars(pa));
        assert(is_ascii_chars(pb));
        assert(0 <= ca < 128);
        assert(0 <= cb < 128);
        lemma_eid_nonnegative(pa);
        lemma_eid_nonnegative(pb);
        assert(eid_of(pa) == eid_of(pb) && ca == cb) by (nonlinear_arith)
            requires
                eid_of(pa) * 256 + ca == eid_of(pb) * 256 + cb,
                0 <= ca < 256,
                0 <= cb < 256,
        ;
        lemma_eid_determines_name(pa, pb);
        assert(a.last() == b.last());
        assert forall|i: int| 0 <= i < a.len() implies a[i] == b[i] by {
            if i < a.len() - 1 {
                assert(pa[i] == pb[i]);
            }
        }
        assert(a =~= b);
    } else {
        assert(a =~= b);
    }
}

/// The extension ids written as literals are the packing of their names.
pub proof fn lemma_registry_eids()
    ensures
        time::EID_TIME == eid_of("TIME"@),
        spi::EID_SPI == eid_of("sPI"@),
        rfnc::EID_RFNC == eid_of("RFNC"@),
        hsm::EID_HSM == eid_of("HSM"@),
        srst::EID_SRST == eid_of("SRST"@),
        pmu::EID_PMU == eid_of("PMU"@),
        dbcn::EID_DBCN == eid_of("DBCN"@),
        susp::EID_SUSP == eid_of("SUSP"@),
        cppc::EID_CPPC == eid_of("CPPC"@),
        nacl::EID_NACL == eid_of("NACL"@),
        sta::EID_STA == eid_of("STA"@),
{
    reveal_strlit("TIME");
    reveal_strlit("sPI");
    reveal_strlit("RFNC");
    reveal_strlit("HSM");
    reveal_strlit("SRST");
    reveal_strlit("PMU");
    reveal_strlit("DBCN");
    reveal_strlit("SUSP");
    reveal_strlit("CPPC");
    reveal_strlit("NACL");
    reveal_strlit("STA");
    reveal_with_fuel(eid_of, 5);
}

} // verus!
