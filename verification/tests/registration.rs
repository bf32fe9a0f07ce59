use chugin::error::CkError;
use chugin::session::Query;
use chugin::session::end_class_outcome;
use chugin::session::query_outcome;
use chugin::version::CK_FALSE;
use chugin::version::CK_TRUE;

#[test]
fn null_descriptor_rejected() {
    match Query::new(0) {
        Err(e) => assert_eq!(e, CkError::InvalidDescriptor),
        Ok(_) => panic!("a null descriptor must be rejected"),
    }
}

#[test]
fn nonnull_descriptor_accepted() {
    let q = Query::new(0x1000).unwrap();
    assert!(q.is_idle());
    assert_eq!(q.registered().len(), 0);
}

#[test]
fn empty_class_leaves_idle() {
    let mut q = Query::new(0x1000).unwrap();
    q.begin_class("Widget", "Object").unwrap();
    assert!(!q.is_idle());
    q.end_class().unwrap();
    assert!(q.is_idle());
    assert_eq!(q.registered().len(), 1);
    let c = &q.registered()[0];
    assert_eq!(c.name.as_bytes_with_nul().as_slice(), b"Widget\0");
    assert_eq!(c.parent.as_bytes_with_nul().as_slice(), b"Object\0");
    assert!(c.ctor.is_none());
    assert!(c.dtor.is_none());
    assert_eq!(c.mvars.len(), 0);
    assert_eq!(c.mfuns.len(), 0);
    assert!(c.ugen.is_none());
}

#[test]
fn register_empty_class_in_one_call() {
    let mut q = Query::new(0x1000).unwrap();
    q.register_empty_class("Widget", "Object").unwrap();
    assert!(q.is_idle());
    assert_eq!(q.registered().len(), 1);
    assert_eq!(q.registered()[0].name.as_bytes_with_nul().as_slice(), b"Widget\0");
}

#[test]
fn member_slot_before_begin_rejected() {
    let mut q = Query::new(0x1000).unwrap();
    match q.add_mvar("int", "@data", false) {
        Err(e) => assert_eq!(e, CkError::NoOpenClass),
        Ok(_) => panic!("a member slot with no open class must be rejected"),
    }
    assert!(q.is_idle());
    assert_eq!(q.registered().len(), 0);
}

#[test]
fn lifecycle_hooks_before_begin_rejected() {
    let mut q = Query::new(0x1000).unwrap();
    assert_eq!(q.add_ctor(0x10).unwrap_err(), CkError::NoOpenClass);
    assert_eq!(q.add_dtor(0x11).unwrap_err(), CkError::NoOpenClass);
    assert_eq!(q.add_ugen_func(0x12, 1, 1).unwrap_err(), CkError::NoOpenClass);
    assert_eq!(
        q.add_mfun(0x13, "float", "freq", &Vec::new()).unwrap_err(),
        CkError::NoOpenClass
    );
    assert_eq!(q.end_class().unwrap_err(), CkError::NoOpenClass);
}

#[test]
fn second_begin_rejected() {
    let mut q = Query::new(0x1000).unwrap();
    q.begin_class("First", "Object").unwrap();
    match q.begin_class("Second", "Object") {
        Err(e) => assert_eq!(e, CkError::ClassAlreadyOpen),
        Ok(_) => panic!("only one class may be open at a time"),
    }
    assert!(!q.is_idle());
}

#[test]
fn bad_name_reported_and_state_kept() {
    let mut q = Query::new(0x1000).unwrap();
    match q.begin_class("bad\0name", "Object") {
        Err(e) => assert_eq!(e, CkError::NameEncodingError),
        Ok(_) => panic!("a class name with a null byte must be rejected"),
    }
    assert!(q.is_idle());
    q.begin_class("Fine", "Object").unwrap();
    match q.add_mvar("in\0t", "x", false) {
        Err(e) => assert_eq!(e, CkError::NameEncodingError),
        Ok(_) => panic!("a type token with a null byte must be rejected"),
    }
    q.end_class().unwrap();
    assert_eq!(q.registered()[0].mvars.len(), 0);
}

#[test]
fn member_offsets_in_declaration_order() {
    let mut q = Query::new(0x1000).unwrap();
    q.begin_class("Filter", "UGen").unwrap();
    assert_eq!(q.add_mvar("int", "@data", false).unwrap(), 0);
    assert_eq!(q.add_mvar("float", "cutoff", false).unwrap(), 1);
    assert_eq!(q.add_mvar("float", "gain", true).unwrap(), 2);
    q.end_class().unwrap();
    let c = &q.registered()[0];
    assert_eq!(c.mvars.len(), 3);
    assert_eq!(c.mvars[0].name.as_bytes_with_nul().as_slice(), b"@data\0");
    assert_eq!(c.mvars[1].name.as_bytes_with_nul().as_slice(), b"cutoff\0");
    assert_eq!(c.mvars[2].ty_name.as_bytes_with_nul().as_slice(), b"float\0");
    assert!(!c.mvars[1].is_const);
    assert!(c.mvars[2].is_const);
}

#[test]
fn method_with_arguments_recorded() {
    let mut q = Query::new(0x1000).unwrap();
    q.begin_class("Osc", "UGen").unwrap();
    let args = vec![(String::from("float"), String::from("f"))];
    q.add_mfun(0xAB, "float", "freq", &args).unwrap();
    q.end_class().unwrap();
    let c = &q.registered()[0];
    assert_eq!(c.mfuns.len(), 1);
    let m = &c.mfuns[0];
    assert_eq!(m.fn_addr, 0xAB);
    assert_eq!(m.ty_name.as_bytes_with_nul().as_slice(), b"float\0");
    assert_eq!(m.name.as_bytes_with_nul().as_slice(), b"freq\0");
    assert_eq!(m.args.len(), 1);
    assert_eq!(m.args[0].ty_name.as_bytes_with_nul().as_slice(), b"float\0");
    assert_eq!(m.args[0].name.as_bytes_with_nul().as_slice(), b"f\0");
}

#[test]
fn method_with_bad_argument_name_rejected() {
    let mut q = Query::new(0x1000).unwrap();
    q.begin_class("Osc", "UGen").unwrap();
    let args = vec![(String::from("float"), String::from("f\0"))];
    match q.add_mfun(0xAB, "float", "freq", &args) {
        Err(e) => assert_eq!(e, CkError::NameEncodingError),
        Ok(_) => panic!("an argument name with a null byte must be rejected"),
    }
    q.end_class().unwrap();
    assert_eq!(q.registered()[0].mfuns.len(), 0);
}

#[test]
fn hooks_recorded_and_second_registration_overwrites() {
    let mut q = Query::new(0x1000).unwrap();
    q.begin_class("Osc", "UGen").unwrap();
    q.add_ctor(0x21).unwrap();
    q.add_ctor(0x22).unwrap();
    q.add_dtor(0x31).unwrap();
    q.add_ugen_func(0x41, 2, 2).unwrap();
    q.add_ugen_func(0x42, 0, 1).unwrap();
    q.end_class().unwrap();
    let c = &q.registered()[0];
    assert_eq!(c.ctor, Some(0x22));
    assert_eq!(c.dtor, Some(0x31));
    let u = c.ugen.as_ref().unwrap();
    assert_eq!(u.fn_addr, 0x42);
    assert_eq!(u.num_in, 0);
    assert_eq!(u.num_out, 1);
}

#[test]
fn two_classes_in_registration_order() {
    let mut q = Query::new(0x1000).unwrap();
    q.register_empty_class("First", "Object").unwrap();
    q.register_empty_class("Second", "Object").unwrap();
    assert_eq!(q.registered().len(), 2);
    assert_eq!(q.registered()[0].name.as_bytes_with_nul().as_slice(), b"First\0");
    assert_eq!(q.registered()[1].name.as_bytes_with_nul().as_slice(), b"Second\0");
}

#[test]
fn oscillator_registration_sequence() {
    let mut q = Query::new(0x2000).unwrap();
    let offset = chugin::osc::register_osc_class(&mut q, 0x10, 0x11, 0x12, 0x13).unwrap();
    assert_eq!(offset, 0);
    assert!(q.is_idle());
    let c = &q.registered()[0];
    assert_eq!(c.name.as_bytes_with_nul().as_slice(), b"RustOsc\0");
    assert_eq!(c.parent.as_bytes_with_nul().as_slice(), b"UGen\0");
    assert_eq!(c.ctor, Some(0x10));
    assert_eq!(c.dtor, Some(0x11));
    let u = c.ugen.as_ref().unwrap();
    assert_eq!((u.fn_addr, u.num_in, u.num_out), (0x12, 0, 1));
    assert_eq!(c.mvars.len(), 1);
    assert_eq!(c.mvars[0].ty_name.as_bytes_with_nul().as_slice(), b"int\0");
    assert_eq!(c.mvars[0].name.as_bytes_with_nul().as_slice(), b"@data\0");
    assert_eq!(c.mfuns.len(), 1);
    assert_eq!(c.mfuns[0].fn_addr, 0x13);
    assert_eq!(c.mfuns[0].name.as_bytes_with_nul().as_slice(), b"freq\0");
    assert_eq!(c.mfuns[0].args.len(), 1);
    assert_eq!(c.mfuns[0].args[0].name.as_bytes_with_nul().as_slice(), b"f\0");
    match chugin::osc::register_osc_class(&mut q, 0x10, 0x11, 0x12, 0x13) {
        Ok(_) => assert_eq!(q.registered().len(), 2),
        Err(_) => panic!("an idle session must accept the sequence"),
    }
}

#[test]
fn host_verdict_mapping() {
    assert_eq!(end_class_outcome(0).unwrap_err(), CkError::ClassRegistrationFailed);
    assert!(end_class_outcome(1).is_ok());
    assert!(end_class_outcome(5).is_ok());
}

#[test]
fn error_descriptions() {
    assert_eq!(CkError::InvalidDescriptor.describe(), "invalid query object");
    assert_eq!(CkError::NameEncodingError.describe(), "unable to convert C-string: name");
    assert_eq!(CkError::ClassRegistrationFailed.describe(), "failed to end_class");
    assert_eq!(CkError::NoOpenClass.describe(), "no class is open");
    assert_eq!(CkError::ClassAlreadyOpen.describe(), "a class is already open");
}

#[test]
fn query_outcome_codes() {
    assert_eq!(query_outcome(Ok(())), CK_TRUE);
    assert_eq!(query_outcome(Err(CkError::ClassRegistrationFailed)), CK_FALSE);
    assert_eq!(query_outcome(Err(CkError::InvalidDescriptor)), CK_FALSE);
}
