//! The sample oscillator plugin's registration sequence.
//!
//! One signal-processing class, `RustOsc` under the host's `UGen`: a
//! constructor, a destructor, an object-data slot, a mono tick function,
//! and a float `freq` setter taking one float argument. Every name in the
//! sequence is ASCII with no null byte, so the whole sequence is proved to
//! succeed whenever the session is idle, and to record exactly this class.

use vstd::prelude::*;

use crate::cstring::encoded;
use crate::cstring::lemma_ascii_encodable;
use crate::error::CkError;
use crate::session::Query;
use crate::session::UgenFunc;

verus! {

/// Registers the oscillator class on an idle session, given the addresses
/// of its four trampolines, and returns the member-slot offset of the
/// object-data slot. With a class already open, nothing is recorded.
pub fn register_osc_class(q: &mut Query, ctor: u64, dtor: u64, tick: u64, set_freq: u64) -> (r:
    Result<u64, CkError>)
    requires
        old(q).wf(),
    ensures
        final(q).wf(),
        final(q).descriptor() == old(q).descriptor(),
        r is Ok <==> old(q).state() is Idle,
        r is Err ==> *final(q) == *old(q) && r == Err::<u64, CkError>(CkError::ClassAlreadyOpen),
        r matches Ok(offset) ==> {
            &&& offset == 0
            &&& final(q).state() is Idle
            &&& final(q).classes().len() == old(q).classes().len() + 1
            &&& final(q).classes().drop_last() == old(q).classes()
            &&& final(q).classes().last().name@ == encoded("RustOsc"@)
            &&& final(q).classes().last().parent@ == encoded("UGen"@)
            &&& final(q).classes().last().ctor == Some(ctor)
            &&& final(q).classes().last().dtor == Some(dtor)
            &&& final(q).classes().last().ugen == (Some(
                UgenFunc { fn_addr: tick, num_in: 0, num_out: 1 },
            ))
            &&& final(q).classes().last().mvars@.len() == 1
            &&& final(q).classes().last().mvars@[0].ty_name@ == encoded("int"@)
            &&& final(q).classes().last().mvars@[0].name@ == encoded("@data"@)
            &&& final(q).classes().last().mfuns@.len() == 1
            &&& final(q).classes().last().mfuns@[0].fn_addr == set_freq
            &&& final(q).classes().last().mfuns@[0].ty_name@ == encoded("float"@)
            &&& final(q).classes().last().mfuns@[0].name@ == encoded("freq"@)
            &&& final(q).classes().last().mfuns@[0].args@.len() == 1
            &&& final(q).classes().last().mfuns@[0].args@[0].ty_name@ == encoded("float"@)
            &&& final(q).classes().last().mfuns@[0].args@[0].name@ == encoded("f"@)
        },
{
    proof {
        reveal_strlit("RustOsc");
        reveal_strlit("UGen");
        reveal_strlit("int");
        reveal_strlit("@data");
        reveal_strlit("float");
        reveal_strlit("freq");
        reveal_strlit("f");
        assert(vstd::utf8::is_ascii_chars("RustOsc"@));
        assert(vstd::utf8::is_ascii_chars("UGen"@));
        assert(vstd::utf8::is_ascii_chars("int"@));
        assert(vstd::utf8::is_ascii_chars("@data"@));
        assert(vstd::utf8::is_ascii_chars("float"@));
        assert(vstd::utf8::is_ascii_chars("freq"@));
        assert(vstd::utf8::is_ascii_chars("f"@));
        lemma_ascii_encodable("RustOsc"@);
        lemma_ascii_encodable("UGen"@);
        lemma_ascii_encodable("int"@);
        lemma_ascii_encodable("@data"@);
        lemma_ascii_encodable("float"@);
        lemma_ascii_encodable("freq"@);
        lemma_ascii_encodable("f"@);
    }
    match q.begin_class("RustOsc", "UGen") {
        Ok(()) => (),
        Err(e) => {
            return Err(e);
        },
    }
    if q.add_ctor(ctor).is_err() {
        proof {
            assert(false);
        }
        return Err(CkError::NoOpenClass);
    }
    if q.add_dtor(dtor).is_err() {
        proof {
            assert(false);
        }
        return Err(CkError::NoOpenClass);
    }
    let offset = match q.add_mvar("int", "@data", false) {
        Ok(o) => o,
        Err(_) => {
            proof {
                assert(false);
            }
            return Err(CkError::NoOpenClass);
        },
    };
    if q.add_ugen_func(tick, 0, 1).is_err() {
        proof {
            assert(false);
        }
        return Err(CkError::NoOpenClass);
    }
    let mut setter_args: Vec<(String, String)> = Vec::new();
    setter_args.push(("float".to_owned(), "f".to_owned()));
    proof {
        assert(setter_args@[0].0@ == "float"@);
        assert(setter_args@[0].1@ == "f"@);
    }
    if q.add_mfun(set_freq, "float", "freq", &setter_args).is_err() {
        proof {
            assert(false);
        }
        return Err(CkError::NoOpenClass);
    }
    let ghost mid = *q;
    if q.end_class().is_err() {
        proof {
            assert(false);
        }
        return Err(CkError::NoOpenClass);
    }
    proof {
        assert(q.classes().drop_last() =~= mid.classes());
    }
    Ok(offset)
}

} // verus!
