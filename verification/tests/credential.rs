use oath_core::algorithm::{Algorithm, Kind};
use oath_core::command;
use oath_core::credential::Credential;

fn carried<'a>(label: &'a [u8], secret: &'a [u8]) -> command::Credential<'a> {
    command::Credential {
        label,
        kind: Kind::Totp,
        algorithm: Algorithm::Sha256,
        digits: 6,
        secret,
        touch_required: true,
        counter: Some(41),
    }
}

#[test]
fn credential_copies_every_field() {
    let stored = Credential::try_from(&carried(b"alice@example.com", b"12345678901234567890")).unwrap();
    assert_eq!(stored.label.as_slice(), b"alice@example.com");
    assert_eq!(stored.secret.as_slice(), b"12345678901234567890");
    assert_eq!(stored.kind, Kind::Totp);
    assert_eq!(stored.algorithm, Algorithm::Sha256);
    assert_eq!(stored.digits, 6);
    assert!(stored.touch_required);
    assert_eq!(stored.counter, Some(41));
    assert_eq!(stored.clone(), stored);
}

#[test]
fn credential_at_capacity() {
    let full = [0xabu8; 128];
    let stored = Credential::try_from(&carried(&full, &full)).unwrap();
    assert_eq!(stored.label.as_slice(), &full[..]);
    assert_eq!(stored.secret.as_slice(), &full[..]);
    let empty = Credential::try_from(&carried(b"", b"")).unwrap();
    assert!(empty.label.as_slice().is_empty());
    assert!(empty.secret.as_slice().is_empty());
}

#[test]
fn credential_refuses_a_long_label() {
    let long = [0u8; 129];
    assert_eq!(Credential::try_from(&carried(&long, b"secret")), Err(()));
}

#[test]
fn credential_refuses_a_long_secret() {
    let long = [0u8; 129];
    assert_eq!(Credential::try_from(&carried(b"label", &long)), Err(()));
}
