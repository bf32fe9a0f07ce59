//! Positional decoding of call-time arguments.
//!
//! The host packs a method call's arguments into one contiguous buffer and
//! hands the plugin a bare pointer to it, with no bounds information: the
//! method signature declared at registration time is the only source of
//! truth for how many reads are valid, and in what order. [`ArgCursor`]
//! models that buffer as the packed values themselves; each read yields the
//! next value and advances the cursor by one. Reading past the declared
//! signature is a silent protocol violation with nothing to detect it at
//! run time, so here it is a precondition.

use vstd::prelude::*;

verus! {

/// A host floating-point value, carried by its bit pattern. The registered
/// method signature, not the buffer, decides that these bits are a float.
#[derive(Clone, Copy, Debug, PartialEq, Eq, Structural)]
pub struct CkFloat {
    pub bits: u64,
}

/// One packed call-time argument: the host's closed set of primitive value
/// types. An object reference is carried as the address the host passed.
#[derive(Clone, Copy, Debug, PartialEq, Eq, Structural)]
pub enum ArgValue {
    Int(i64),
    Float(CkFloat),
    Object(u64),
}

/// One step of a cursor: the value read and the advanced cursor, on the
/// ghost model `(packed values, position)`.
pub open spec fn spec_read(c: (Seq<ArgValue>, int)) -> (ArgValue, (Seq<ArgValue>, int))
    recommends
        0 <= c.1 < c.0.len(),
{
    (c.0[c.1], (c.0, c.1 + 1))
}

/// The values produced by `n` successive reads from cursor `c`.
pub open spec fn spec_reads(c: (Seq<ArgValue>, int), n: nat) -> Seq<ArgValue>
    decreases n,
{
    if n == 0 {
        Seq::empty()
    } else {
        seq![spec_read(c).0] + spec_reads(spec_read(c).1, (n - 1) as nat)
    }
}

/// The cursor left behind by `n` successive reads from cursor `c`.
pub open spec fn spec_cursor_after(c: (Seq<ArgValue>, int), n: nat) -> (Seq<ArgValue>, int) {
    (c.0, c.1 + n)
}

/// A cursor over a packed argument buffer, advanced one argument per read.
pub struct ArgCursor {
    buf: Vec<ArgValue>,
    pos: usize,
}

impl ArgCursor {
    /// The packed values the buffer was written with, in declared order.
    pub closed spec fn args(&self) -> Seq<ArgValue> {
        self.buf@
    }

    /// How many arguments have been read so far.
    pub closed spec fn position(&self) -> int {
        self.pos as int
    }

    /// A cursor at the start of a buffer packed with `args`, in order.
    pub fn new(args: Vec<ArgValue>) -> (c: ArgCursor)
        ensures
            c.args() == args@,
            c.position() == 0,
    {
        ArgCursor { buf: args, pos: 0 }
    }

    /// Reads the next argument and advances by one. Valid only while the
    /// declared signature still owes an argument.
    pub fn read(&mut self) -> (v: ArgValue)
        requires
            old(self).position() < old(self).args().len(),
        ensures
            v == spec_read((old(self).args(), old(self).position())).0,
            final(self).args() == spec_read((old(self).args(), old(self).position())).1.0,
            final(self).position() == spec_read((old(self).args(), old(self).position())).1.1,
    {
        let v = self.buf[self.pos];
        let n = self.buf.len();
        proof {
            assert(self.pos < n);
        }
        self.pos = self.pos + 1;
        v
    }

    /// Whether the cursor stands at the buffer's end.
    pub fn at_end(&self) -> (b: bool)
        ensures
            b == (self.position() == self.args().len()),
    {
        self.pos == self.buf.len()
    }
}

/// A host value type that can be read positionally off an argument cursor.
pub trait CKType: Sized {
    /// Whether a packed value carries this type.
    spec fn arg_matches(v: ArgValue) -> bool;

    /// The typed value a packed value carries.
    spec fn arg_value(v: ArgValue) -> Self;

    /// Reads the next argument as this type, advancing the cursor by one.
    /// The declared signature must owe an argument of this type here; a
    /// mismatch is a silent protocol violation the host cannot detect.
    fn get_next_arg(args: &mut ArgCursor) -> (r: Self)
        requires
            old(args).position() < old(args).args().len(),
            Self::arg_matches(old(args).args()[old(args).position()]),
        ensures
            final(args).args() == old(args).args(),
            final(args).position() == old(args).position() + 1,
            r == Self::arg_value(old(args).args()[old(args).position()]),
    ;
}

impl CKType for CkFloat {
    open spec fn arg_matches(v: ArgValue) -> bool {
        v is Float
    }

    open spec fn arg_value(v: ArgValue) -> CkFloat {
        v->Float_0
    }

    fn get_next_arg(args: &mut ArgCursor) -> (r: CkFloat) {
        let v = args.read();
        match v {
            ArgValue::Float(f) => f,
            _ => {
                proof {
                    assert(false);
                }
                CkFloat { bits: 0 }
            },
        }
    }
}

impl CKType for i64 {
    open spec fn arg_matches(v: ArgValue) -> bool {
        v is Int
    }

    open spec fn arg_value(v: ArgValue) -> i64 {
        v->Int_0
    }

    fn get_next_arg(args: &mut ArgCursor) -> (r: i64) {
        let v = args.read();
        match v {
            ArgValue::Int(n) => n,
            _ => {
                proof {
                    assert(false);
                }
                0
            },
        }
    }
}

/// Reads the next argument as the requested host type.
pub fn get_next_arg<T: CKType>(args: &mut ArgCursor) -> (r: T)
    requires
        old(args).position() < old(args).args().len(),
        T::arg_matches(old(args).args()[old(args).position()]),
    ensures
        final(args).args() == old(args).args(),
        final(args).position() == old(args).position() + 1,
        r == T::arg_value(old(args).args()[old(args).position()]),
{
    T::get_next_arg(args)
}

/// Reads the next argument as a host float.
pub fn get_next_float(args: &mut ArgCursor) -> (r: CkFloat)
    requires
        old(args).position() < old(args).args().len(),
        old(args).args()[old(args).position()] is Float,
    ensures
        final(args).args() == old(args).args(),
        final(args).position() == old(args).position() + 1,
        r == old(args).args()[old(args).position()]->Float_0,
{
    get_next_arg::<CkFloat>(args)
}

/// Successive reads walk the packed values in order: `n` reads from
/// position `from` produce exactly the packed values at positions
/// `from .. from + n`.
pub proof fn lemma_reads_are_subrange(vals: Seq<ArgValue>, from: int, n: nat)
    requires
        0 <= from,
        from + n <= vals.len(),
    ensures
        spec_reads((vals, from), n) == vals.subrange(from, from + n),
    decreases n,
{
    if n == 0 {
        assert(spec_reads((vals, from), n) =~= vals.subrange(from, from + n));
    } else {
        lemma_reads_are_subrange(vals, from + 1, (n - 1) as nat);
        assert(spec_reads((vals, from), n) =~= vals.subrange(from, from + n));
    }
}

/// Round trip of the argument cursor: packing values into a buffer in
/// declared order and reading them all back, one read per value, reproduces
/// exactly the packed values and leaves the cursor at the buffer's end.
pub proof fn lemma_cursor_round_trip(vals: Seq<ArgValue>)
    ensures
        spec_reads((vals, 0), vals.len()) == vals,
        spec_cursor_after((vals, 0), vals.len()).1 == vals.len(),
{
    lemma_reads_are_subrange(vals, 0, vals.len());
    assert(vals.subrange(0, vals.len() as int) =~= vals);
}

} // verus!
