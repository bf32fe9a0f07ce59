//! The class registration session.
//!
//! At load time the host hands the plugin an opaque query descriptor; the
//! plugin opens a session on it and registers each of its classes with a
//! begin → add constructor / destructor / member slot / methods / tick →
//! end sequence. The session is a two-state machine — idle, or exactly one
//! class open — and every operation below states precisely in which state
//! it is valid, which names it can encode, and what it adds to the class
//! being assembled. A finished class is a plain value: the unverified layer
//! that talks C to the host walks it and forwards it field by field.

use vstd::prelude::*;

use crate::cstring::CString;
use crate::cstring::encodable;
use crate::cstring::encoded;
use crate::error::CkError;
use crate::version::CK_FALSE;
use crate::version::CK_TRUE;

verus! {

/// A member variable declaration: the host's type token, the member name,
/// and whether the member is constant.
pub struct Mvar {
    pub ty_name: CString,
    pub name: CString,
    pub is_const: bool,
}

/// One declared method argument: the host's type token and the argument
/// name, in the position the argument cursor will later read it.
pub struct MethodArg {
    pub ty_name: CString,
    pub name: CString,
}

/// A method registration: the trampoline's address, the return type token,
/// the method name, and the declared arguments in declaration order.
pub struct Mfun {
    pub fn_addr: u64,
    pub ty_name: CString,
    pub name: CString,
    pub args: Vec<MethodArg>,
}

/// The per-sample tick registration of a signal-processing class: the tick
/// trampoline's address and the unit's channel counts.
pub struct UgenFunc {
    pub fn_addr: u64,
    pub num_in: u32,
    pub num_out: u32,
}

/// One assembled class description: everything a begin → … → end sequence
/// declared, as a plain value ready to be forwarded to the host.
pub struct ClassDesc {
    pub name: CString,
    pub parent: CString,
    pub ctor: Option<u64>,
    pub dtor: Option<u64>,
    pub mvars: Vec<Mvar>,
    pub mfuns: Vec<Mfun>,
    pub ugen: Option<UgenFunc>,
}

/// The two states of a registration session: no class open, or exactly one
/// class open.
#[derive(Clone, Copy, Debug, PartialEq, Eq, Structural)]
pub enum SessionState {
    Idle,
    InClass,
}

/// A registration session on the host's query descriptor. The descriptor
/// itself is host-owned and opaque; the session carries its address, the
/// class currently being assembled, if any, and the classes already
/// finished, in registration order.
pub struct Query {
    descriptor: u64,
    current: Option<ClassDesc>,
    classes: Vec<ClassDesc>,
}

impl Query {
    /// The address of the host's query descriptor.
    pub closed spec fn descriptor(&self) -> u64 {
        self.descriptor
    }

    /// The session's state: a class is open or none is.
    pub closed spec fn state(&self) -> SessionState {
        if self.current is Some {
            SessionState::InClass
        } else {
            SessionState::Idle
        }
    }

    /// The class currently being assembled.
    pub closed spec fn current_class(&self) -> ClassDesc
        recommends
            self.state() is InClass,
    {
        self.current->0
    }

    /// The classes finished so far, in registration order.
    pub closed spec fn classes(&self) -> Seq<ClassDesc> {
        self.classes@
    }

    /// Well-formed: the session is bound to a non-null descriptor. Once the
    /// host invalidates the descriptor behind the session's back, nothing
    /// here can detect it; that remains a documented precondition of the
    /// protocol, not a checked one.
    pub open spec fn wf(&self) -> bool {
        self.descriptor() != 0
    }

    /// Opens a session on the host's query descriptor, given by address.
    /// Rejects exactly the null handle.
    pub fn new(query: u64) -> (r: Result<Query, CkError>)
        ensures
            r is Ok <==> query != 0,
            r matches Ok(q) ==> q.wf() && q.descriptor() == query && q.state() is Idle
                && q.classes().len() == 0,
            r matches Err(e) ==> e == CkError::InvalidDescriptor,
    {
        if query != 0 {
            Ok(Query { descriptor: query, current: None, classes: Vec::new() })
        } else {
            Err(CkError::InvalidDescriptor)
        }
    }

    /// Whether no class is currently open.
    pub fn is_idle(&self) -> (b: bool)
        ensures
            b == (self.state() is Idle),
    {
        self.current.is_none()
    }

    /// The classes finished so far, for the layer that forwards them to the
    /// host.
    pub fn registered(&self) -> (v: &Vec<ClassDesc>)
        ensures
            v@ == self.classes(),
    {
        &self.classes
    }

    /// Opens a new class under `name`, deriving from `parent`. Valid only
    /// while no class is open; both names must be encodable as
    /// null-terminated byte strings. Whether `parent` actually names an
    /// existing host class only the host knows, and it answers when the
    /// class is finalized.
    pub fn begin_class(&mut self, name: &str, parent: &str) -> (r: Result<(), CkError>)
        requires
            old(self).wf(),
        ensures
            final(self).wf(),
            final(self).descriptor() == old(self).descriptor(),
            final(self).classes() == old(self).classes(),
            r is Ok <==> (old(self).state() is Idle && encodable(name@) && encodable(parent@)),
            r is Err ==> *final(self) == *old(self),
            old(self).state() is InClass ==> r == Err::<(), CkError>(CkError::ClassAlreadyOpen),
            old(self).state() is Idle && !(encodable(name@) && encodable(parent@)) ==> r == Err::<
                (),
                CkError,
            >(CkError::NameEncodingError),
            r is Ok ==> {
                &&& final(self).state() is InClass
                &&& final(self).current_class().name@ == encoded(name@)
                &&& final(self).current_class().parent@ == encoded(parent@)
                &&& final(self).current_class().ctor is None
                &&& final(self).current_class().dtor is None
                &&& final(self).current_class().mvars@.len() == 0
                &&& final(self).current_class().mfuns@.len() == 0
                &&& final(self).current_class().ugen is None
            },
    {
        if self.current.is_some() {
            return Err(CkError::ClassAlreadyOpen);
        }
        let name_c = match CString::new(name) {
            Ok(c) => c,
            Err(e) => return Err(e),
        };
        let parent_c = match CString::new(parent) {
            Ok(c) => c,
            Err(e) => return Err(e),
        };
        self.current = Some(
            ClassDesc {
                name: name_c,
                parent: parent_c,
                ctor: None,
                dtor: None,
                mvars: Vec::new(),
                mfuns: Vec::new(),
                ugen: None,
            },
        );
        Ok(())
    }

    /// Registers the constructor trampoline's address for the open class.
    /// Valid only while a class is open. The host keeps at most one
    /// constructor per class: registering a second silently overwrites the
    /// first, and this session mirrors that host behavior.
    pub fn add_ctor(&mut self, ctor: u64) -> (r: Result<(), CkError>)
        requires
            old(self).wf(),
        ensures
            final(self).wf(),
            final(self).descriptor() == old(self).descriptor(),
            final(self).classes() == old(self).classes(),
            r is Ok <==> old(self).state() is InClass,
            old(self).state() is Idle ==> r == Err::<(), CkError>(CkError::NoOpenClass) && *final(self) == *old(self),
            r is Ok ==> {
                &&& final(self).state() is InClass
                &&& final(self).current_class().ctor == Some(ctor)
                &&& final(self).current_class().name == old(self).current_class().name
                &&& final(self).current_class().parent == old(self).current_class().parent
                &&& final(self).current_class().dtor == old(self).current_class().dtor
                &&& final(self).current_class().mvars == old(self).current_class().mvars
                &&& final(self).current_class().mfuns == old(self).current_class().mfuns
                &&& final(self).current_class().ugen == old(self).current_class().ugen
            },
    {
        if self.current.is_none() {
            return Err(CkError::NoOpenClass);
        }
        let mut c = self.current.take().unwrap();
        c.ctor = Some(ctor);
        self.current = Some(c);
        Ok(())
    }

    /// Registers the destructor trampoline's address for the open class.
    /// Valid only while a class is open; a second registration silently
    /// overwrites the first, as the host does.
    pub fn add_dtor(&mut self, dtor: u64) -> (r: Result<(), CkError>)
        requires
            old(self).wf(),
        ensures
            final(self).wf(),
            final(self).descriptor() == old(self).descriptor(),
            final(self).classes() == old(self).classes(),
            r is Ok <==> old(self).state() is InClass,
            old(self).state() is Idle ==> r == Err::<(), CkError>(CkError::NoOpenClass) && *final(self) == *old(self),
            r is Ok ==> {
                &&& final(self).state() is InClass
                &&& final(self).current_class().dtor == Some(dtor)
                &&& final(self).current_class().name == old(self).current_class().name
                &&& final(self).current_class().parent == old(self).current_class().parent
                &&& final(self).current_class().ctor == old(self).current_class().ctor
                &&& final(self).current_class().mvars == old(self).current_class().mvars
                &&& final(self).current_class().mfuns == old(self).current_class().mfuns
                &&& final(self).current_class().ugen == old(self).current_class().ugen
            },
    {
        if self.current.is_none() {
            return Err(CkError::NoOpenClass);
        }
        let mut c = self.current.take().unwrap();
        c.dtor = Some(dtor);
        self.current = Some(c);
        Ok(())
    }

    /// Declares a member variable on the open class and returns the slot
    /// offset the plugin must use for this member in every later instance.
    /// Valid only while a class is open — declaring a member with no class
    /// open is rejected. Offsets are assigned one per declared member, in
    /// declaration order; a plugin may rely only on the value returned by
    /// its own most recent declaration, never on any other layout.
    pub fn add_mvar(&mut self, type_: &str, name: &str, is_const: bool) -> (r: Result<
        u64,
        CkError,
    >)
        requires
            old(self).wf(),
        ensures
            final(self).wf(),
            final(self).descriptor() == old(self).descriptor(),
            final(self).classes() == old(self).classes(),
            r is Ok <==> (old(self).state() is InClass && encodable(type_@) && encodable(name@)),
            r is Err ==> *final(self) == *old(self),
            old(self).state() is Idle ==> r == Err::<u64, CkError>(CkError::NoOpenClass),
            old(self).state() is InClass && !(encodable(type_@) && encodable(name@)) ==> r
                == Err::<u64, CkError>(CkError::NameEncodingError),
            r matches Ok(offset) ==> {
                &&& final(self).state() is InClass
                &&& offset as int == old(self).current_class().mvars@.len()
                &&& final(self).current_class().mvars@.len() == old(self).current_class().mvars@.len() + 1
                &&& final(self).current_class().mvars@.drop_last() == old(self).current_class().mvars@
                &&& final(self).current_class().mvars@.last().ty_name@ == encoded(type_@)
                &&& final(self).current_class().mvars@.last().name@ == encoded(name@)
                &&& final(self).current_class().mvars@.last().is_const == is_const
                &&& final(self).current_class().name == old(self).current_class().name
                &&& final(self).current_class().parent == old(self).current_class().parent
                &&& final(self).current_class().ctor == old(self).current_class().ctor
                &&& final(self).current_class().dtor == old(self).current_class().dtor
                &&& final(self).current_class().mfuns == old(self).current_class().mfuns
                &&& final(self).current_class().ugen == old(self).current_class().ugen
            },
    {
        if self.current.is_none() {
            return Err(CkError::NoOpenClass);
        }
        let ty_c = match CString::new(type_) {
            Ok(c) => c,
            Err(e) => return Err(e),
        };
        let name_c = match CString::new(name) {
            Ok(c) => c,
            Err(e) => return Err(e),
        };
        let mut c = self.current.take().unwrap();
        let offset = c.mvars.len() as u64;
        c.mvars.push(Mvar { ty_name: ty_c, name: name_c, is_const });
        proof {
            assert(c.mvars@.drop_last() =~= old(self).current_class().mvars@);
        }
        self.current = Some(c);
        Ok(offset)
    }

    /// Registers a method on the open class: the trampoline's address, the
    /// return type token, the method name, and the declared arguments in
    /// the order the argument cursor will later read them. Valid only while
    /// a class is open; every name involved must be encodable, and nothing
    /// is recorded unless all of them are.
    pub fn add_mfun(&mut self, mfun: u64, type_: &str, name: &str, args: &Vec<(String, String)>)
        -> (r: Result<(), CkError>)
        requires
            old(self).wf(),
        ensures
            final(self).wf(),
            final(self).descriptor() == old(self).descriptor(),
            final(self).classes() == old(self).classes(),
            r is Ok <==> {
                &&& old(self).state() is InClass
                &&& encodable(type_@)
                &&& encodable(name@)
                &&& forall|i: int|
                    0 <= i < args@.len() ==> encodable(#[trigger] args@[i].0@) && encodable(
                        args@[i].1@,
                    )
            },
            r is Err ==> *final(self) == *old(self),
            old(self).state() is Idle ==> r == Err::<(), CkError>(CkError::NoOpenClass),
            old(self).state() is InClass && r is Err ==> r == Err::<(), CkError>(
                CkError::NameEncodingError,
            ),
            r is Ok ==> {
                &&& final(self).state() is InClass
                &&& final(self).current_class().mfuns@.len() == old(self).current_class().mfuns@.len() + 1
                &&& final(self).current_class().mfuns@.drop_last() == old(self).current_class().mfuns@
                &&& final(self).current_class().mfuns@.last().fn_addr == mfun
                &&& final(self).current_class().mfuns@.last().ty_name@ == encoded(type_@)
                &&& final(self).current_class().mfuns@.last().name@ == encoded(name@)
                &&& final(self).current_class().mfuns@.last().args@.len() == args@.len()
                &&& forall|i: int|
                    0 <= i < args@.len() ==> (#[trigger] final(self).current_class().mfuns@.last().args@[i]).ty_name@ == encoded(args@[i].0@)
                        && final(self).current_class().mfuns@.last().args@[i].name@ == encoded(
                        args@[i].1@,
                    )
                &&& final(self).current_class().name == old(self).current_class().name
                &&& final(self).current_class().parent == old(self).current_class().parent
                &&& final(self).current_class().ctor == old(self).current_class().ctor
                &&& final(self).current_class().dtor == old(self).current_class().dtor
                &&& final(self).current_class().mvars == old(self).current_class().mvars
                &&& final(self).current_class().ugen == old(self).current_class().ugen
            },
    {
        if self.current.is_none() {
            return Err(CkError::NoOpenClass);
        }
        let ty_c = match CString::new(type_) {
            Ok(c) => c,
            Err(e) => return Err(e),
        };
        let name_c = match CString::new(name) {
            Ok(c) => c,
            Err(e) => return Err(e),
        };
        let mut margs: Vec<MethodArg> = Vec::new();
        let mut i: usize = 0;
        while i < args.len()
            invariant
                *self == *old(self),
                self.wf(),
                self.current is Some,
                0 <= i <= args@.len(),
                margs@.len() == i,
                forall|j: int|
                    0 <= j < i ==> (#[trigger] margs@[j]).ty_name@ == encoded(args@[j].0@)
                        && margs@[j].name@ == encoded(args@[j].1@),
                forall|j: int|
                    0 <= j < i ==> encodable(#[trigger] args@[j].0@) && encodable(args@[j].1@),
            decreases args@.len() - i,
        {
            let arg_ty = match CString::new(args[i].0.as_str()) {
                Ok(c) => c,
                Err(e) => return Err(e),
            };
            let arg_name = match CString::new(args[i].1.as_str()) {
                Ok(c) => c,
                Err(e) => return Err(e),
            };
            margs.push(MethodArg { ty_name: arg_ty, name: arg_name });
            i += 1;
            proof {
                assert(forall|j: int|
                    0 <= j < i ==> encodable(#[trigger] args@[j].0@) && encodable(args@[j].1@));
            }
        }
        let mut c = self.current.take().unwrap();
        c.mfuns.push(Mfun { fn_addr: mfun, ty_name: ty_c, name: name_c, args: margs });
        proof {
            assert(c.mfuns@.drop_last() =~= old(self).current_class().mfuns@);
        }
        self.current = Some(c);
        Ok(())
    }

    /// Registers the per-sample tick trampoline for the open class, making
    /// it a signal-processing unit with the given channel counts. Valid
    /// only while a class is open; a second registration silently
    /// overwrites the first, as the host does.
    pub fn add_ugen_func(&mut self, tick: u64, num_in: u32, num_out: u32) -> (r: Result<
        (),
        CkError,
    >)
        requires
            old(self).wf(),
        ensures
            final(self).wf(),
            final(self).descriptor() == old(self).descriptor(),
            final(self).classes() == old(self).classes(),
            r is Ok <==> old(self).state() is InClass,
            old(self).state() is Idle ==> r == Err::<(), CkError>(CkError::NoOpenClass) && *final(self) == *old(self),
            r is Ok ==> {
                &&& final(self).state() is InClass
                &&& final(self).current_class().ugen == (Some(
                    UgenFunc { fn_addr: tick, num_in: num_in, num_out: num_out },
                ))
                &&& final(self).current_class().name == old(self).current_class().name
                &&& final(self).current_class().parent == old(self).current_class().parent
                &&& final(self).current_class().ctor == old(self).current_class().ctor
                &&& final(self).current_class().dtor == old(self).current_class().dtor
                &&& final(self).current_class().mvars == old(self).current_class().mvars
                &&& final(self).current_class().mfuns == old(self).current_class().mfuns
            },
    {
        if self.current.is_none() {
            return Err(CkError::NoOpenClass);
        }
        let mut c = self.current.take().unwrap();
        c.ugen = Some(UgenFunc { fn_addr: tick, num_in: num_in, num_out: num_out });
        self.current = Some(c);
        Ok(())
    }

    /// An empty registration: `begin_class` directly followed by
    /// `end_class`, with nothing in between. Whenever the session is idle
    /// and both names are encodable, this succeeds, records a class with no
    /// constructor, destructor, member slots, methods or tick function, and
    /// leaves the session idle again.
    pub fn register_empty_class(&mut self, name: &str, parent: &str) -> (r: Result<(), CkError>)
        requires
            old(self).wf(),
        ensures
            final(self).wf(),
            final(self).descriptor() == old(self).descriptor(),
            r is Ok <==> (old(self).state() is Idle && encodable(name@) && encodable(parent@)),
            r is Err ==> *final(self) == *old(self),
            r is Ok ==> {
                &&& final(self).state() is Idle
                &&& final(self).classes().len() == old(self).classes().len() + 1
                &&& final(self).classes().drop_last() == old(self).classes()
                &&& final(self).classes().last().name@ == encoded(name@)
                &&& final(self).classes().last().parent@ == encoded(parent@)
                &&& final(self).classes().last().ctor is None
                &&& final(self).classes().last().dtor is None
                &&& final(self).classes().last().mvars@.len() == 0
                &&& final(self).classes().last().mfuns@.len() == 0
                &&& final(self).classes().last().ugen is None
            },
    {
        match self.begin_class(name, parent) {
            Err(e) => Err(e),
            Ok(()) => {
                let ghost mid = *self;
                let r = self.end_class();
                proof {
                    assert(self.classes().drop_last() =~= mid.classes());
                }
                r
            },
        }
    }

    /// Finalizes the class being assembled and returns the session to idle.
    /// Valid only while a class is open. The finished class joins the
    /// session's registration order; the host's own verdict on it arrives
    /// as a boolean code, mapped by [`end_class_outcome`].
    pub fn end_class(&mut self) -> (r: Result<(), CkError>)
        requires
            old(self).wf(),
        ensures
            final(self).wf(),
            final(self).descriptor() == old(self).descriptor(),
            r is Ok <==> old(self).state() is InClass,
            old(self).state() is Idle ==> r == Err::<(), CkError>(CkError::NoOpenClass)
                && *final(self) == *old(self),
            r is Ok ==> final(self).state() is Idle && final(self).classes() == old(self).classes().push(old(self).current_class()),
    {
        let taken = self.current.take();
        match taken {
            Some(c) => {
                self.classes.push(c);
                Ok(())
            },
            None => Err(CkError::NoOpenClass),
        }
    }
}

/// Maps the host's verdict on a finalized class to the protocol error: the
/// host answers with a boolean-like code, and zero means it rejected the
/// class — fatal for the whole module load.
pub fn end_class_outcome(code: u64) -> (r: Result<(), CkError>)
    ensures
        r is Ok <==> code != 0,
        code == 0 ==> r == Err::<(), CkError>(CkError::ClassRegistrationFailed),
{
    if code != 0 {
        Ok(())
    } else {
        Err(CkError::ClassRegistrationFailed)
    }
}

/// The registration entry point's return value: the sole feedback channel
/// to the host about registration. Success reports the host's true code,
/// any error its false code.
pub fn query_outcome(result: Result<(), CkError>) -> (b: u64)
    ensures
        b == if result is Ok {
            CK_TRUE
        } else {
            CK_FALSE
        },
        (b == CK_TRUE) <==> result is Ok,
{
    match result {
        Ok(()) => CK_TRUE,
        Err(_) => CK_FALSE,
    }
}

} // verus!
