use imap_types::{
    Atom, AtomError, CapabilityEnable, CapabilityEnableOther, CapabilityEnableOtherError,
    CommandBody, NonEmptyVec, NonEmptyVecError, Utf8Kind,
};

fn atom(s: &str) -> Atom {
    Atom::try_from(s).unwrap()
}

#[test]
fn test_encode_command_body_enable() {
    let tests = [
        (
            CommandBody::enable(vec![CapabilityEnable::Utf8(Utf8Kind::Only)]),
            Ok((
                CommandBody::Enable {
                    capabilities: NonEmptyVec::try_from(vec![CapabilityEnable::Utf8(
                        Utf8Kind::Only,
                    )])
                    .unwrap(),
                },
                b"ENABLE UTF8=ONLY".as_ref(),
            )),
        ),
        (
            CommandBody::enable(vec![CapabilityEnable::Utf8(Utf8Kind::Accept)]),
            Ok((
                CommandBody::Enable {
                    capabilities: NonEmptyVec::try_from(vec![CapabilityEnable::Utf8(
                        Utf8Kind::Accept,
                    )])
                    .unwrap(),
                },
                b"ENABLE UTF8=ACCEPT",
            )),
        ),
        (
            CommandBody::enable(vec![CapabilityEnable::Other(
                CapabilityEnableOther::try_from(Atom::try_from("FOO").unwrap()).unwrap(),
            )]),
            Ok((
                CommandBody::Enable {
                    capabilities: NonEmptyVec::try_from(vec![CapabilityEnable::Other(
                        CapabilityEnableOther::try_from(Atom::try_from("FOO").unwrap())
                            .unwrap(),
                    )])
                    .unwrap(),
                },
                b"ENABLE FOO",
            )),
        ),
        (CommandBody::enable(vec![]), Err(NonEmptyVecError::Empty)),
    ];

    for (test, expected) in tests {
        match test {
            Ok(got) => {
                let bytes = got.encode_detached();
                assert_eq!(expected, Ok((got, bytes.as_ref())));
            }
            Err(got) => {
                assert_eq!(Err(got), expected);
            }
        }
    }
}

#[test]
fn test_conversion_capability_enable_other() {
    assert_eq!(
        CapabilityEnable::from(Atom::try_from("utf8=only").unwrap()),
        CapabilityEnable::Utf8(Utf8Kind::Only)
    );
    assert_eq!(
        CapabilityEnable::from(Atom::try_from("utf8=accept").unwrap()),
        CapabilityEnable::Utf8(Utf8Kind::Accept)
    );
    assert_eq!(
        CapabilityEnableOther::try_from(Atom::try_from("utf8=only").unwrap()),
        Err(CapabilityEnableOtherError::Reserved)
    );
    assert_eq!(
        CapabilityEnableOther::try_from(Atom::try_from("utf8=accept").unwrap()),
        Err(CapabilityEnableOtherError::Reserved)
    );
}

#[test]
fn recognize_accept_in_any_casing() {
    for s in ["UTF8=Accept", "utf8=accept", "Utf8=ACCEPT", "UTF8=ACCEPT", "uTf8=AcCePt"] {
        assert_eq!(
            CapabilityEnable::from(atom(s)),
            CapabilityEnable::Utf8(Utf8Kind::Accept),
            "{}",
            s
        );
    }
}

#[test]
fn recognize_only_in_any_casing() {
    for s in ["UTF8=Only", "utf8=only", "Utf8=ONLY", "UTF8=ONLY", "uTF8=oNlY"] {
        assert_eq!(
            CapabilityEnable::from(atom(s)),
            CapabilityEnable::Utf8(Utf8Kind::Only),
            "{}",
            s
        );
    }
}

#[test]
fn recognize_keeps_other_names_as_given() {
    for s in ["FOO", "CondStore", "utf8=acceptx", "utf8=onl", "utf8", "UTF8=ACCEPT8"] {
        let c = CapabilityEnable::from(atom(s));
        assert_eq!(
            c,
            CapabilityEnable::Other(CapabilityEnableOther::try_from(atom(s)).unwrap())
        );
        assert_eq!(c.encode_detached(), s.as_bytes().to_vec());
    }
}

#[test]
fn other_round_trip_reproduces_bytes() {
    for s in ["FOO", "foo", "CondStore", "X-Vendor=1", "utf8=onlyx", "UTF8"] {
        let other = CapabilityEnableOther::try_from(atom(s)).unwrap();
        assert_eq!(other.atom().as_bytes(), s.as_bytes());
        let mut out = Vec::new();
        other.encode(&mut out);
        assert_eq!(out, s.as_bytes().to_vec());
        assert_eq!(
            CapabilityEnable::Other(other).encode_detached(),
            s.as_bytes().to_vec()
        );
    }
}

#[test]
fn other_refuses_reserved_in_any_casing() {
    for s in ["UTF8=ACCEPT", "Utf8=Accept", "UTF8=ONLY", "utf8=OnLy"] {
        assert_eq!(
            CapabilityEnableOther::try_from(atom(s)),
            Err(CapabilityEnableOtherError::Reserved)
        );
    }
}

#[test]
fn enable_empty_fails() {
    assert_eq!(CommandBody::enable(Vec::new()), Err(NonEmptyVecError::Empty));
    assert_eq!(
        NonEmptyVec::<CapabilityEnable>::try_from(Vec::new()),
        Err(NonEmptyVecError::Empty)
    );
}

#[test]
fn enable_utf8_only_encodes() {
    let cmd = CommandBody::enable(vec![CapabilityEnable::Utf8(Utf8Kind::Only)]).unwrap();
    assert_eq!(cmd.encode_detached(), b"ENABLE UTF8=ONLY".to_vec());
}

#[test]
fn enable_utf8_accept_from_lowercase_atom_encodes_canonically() {
    let cmd = CommandBody::enable(vec![CapabilityEnable::from(atom("utf8=accept"))]).unwrap();
    assert_eq!(cmd.encode_detached(), b"ENABLE UTF8=ACCEPT".to_vec());
}

#[test]
fn enable_other_keeps_casing() {
    let cmd = CommandBody::enable(vec![CapabilityEnable::Other(
        CapabilityEnableOther::try_from(atom("FoO")).unwrap(),
    )])
    .unwrap();
    assert_eq!(cmd.encode_detached(), b"ENABLE FoO".to_vec());
}

#[test]
fn enable_keeps_order_and_duplicates() {
    let caps = vec![
        CapabilityEnable::from(atom("Foo")),
        CapabilityEnable::from(atom("utf8=Accept")),
        CapabilityEnable::from(atom("bar")),
        CapabilityEnable::from(atom("Foo")),
        CapabilityEnable::Utf8(Utf8Kind::Only),
    ];
    let cmd = CommandBody::enable(caps).unwrap();
    let mut out = b"A1 ".to_vec();
    cmd.encode(&mut out);
    assert_eq!(out, b"A1 ENABLE Foo UTF8=ACCEPT bar Foo UTF8=ONLY".to_vec());
    let CommandBody::Enable { capabilities } = cmd.clone();
    assert_eq!(capabilities.len(), 5);
    assert_eq!(capabilities.as_slice()[2], CapabilityEnable::from(atom("bar")));
    assert_eq!(capabilities.into_inner().len(), 5);
}

#[test]
fn arms_never_share_an_encoding() {
    let accept = CapabilityEnable::Utf8(Utf8Kind::Accept).encode_detached();
    let only = CapabilityEnable::Utf8(Utf8Kind::Only).encode_detached();
    assert_eq!(accept, b"UTF8=ACCEPT".to_vec());
    assert_eq!(only, b"UTF8=ONLY".to_vec());
    assert_ne!(accept, only);
    for s in ["UTF8=ACCEPT", "UTF8=ONLY", "utf8=accept", "FOO"] {
        let c = CapabilityEnable::from(atom(s));
        if let CapabilityEnable::Other(_) = c {
            let bytes = c.encode_detached();
            assert_ne!(bytes, accept);
            assert_ne!(bytes, only);
        }
    }
}

#[test]
fn capability_clone_is_equal() {
    let c = CapabilityEnable::from(atom("Foo"));
    assert_eq!(c.clone(), c);
    let u = CapabilityEnable::Utf8(Utf8Kind::Accept);
    assert_eq!(u.clone(), u);
    let a = atom("Bar");
    assert_eq!(a.clone(), a);
}

#[test]
fn atom_validation() {
    assert_eq!(Atom::try_from(""), Err(AtomError::Empty));
    assert_eq!(
        Atom::try_from("a b"),
        Err(AtomError::ByteNotAllowed { found: b' ', position: 1 })
    );
    assert_eq!(
        Atom::try_from("x(y"),
        Err(AtomError::ByteNotAllowed { found: b'(', position: 1 })
    );
    assert_eq!(
        Atom::try_from("ab]"),
        Err(AtomError::ByteNotAllowed { found: b']', position: 2 })
    );
    assert!(matches!(
        Atom::try_from("\u{e4}"),
        Err(AtomError::ByteNotAllowed { position: 0, .. })
    ));
    assert_eq!(atom("UTF8=ACCEPT").as_bytes(), b"UTF8=ACCEPT");
    assert_eq!(atom("a[b").as_bytes(), b"a[b");
}
