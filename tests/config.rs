use rugix_core::config::{Architecture, InvalidArchitectureError};

#[test]
fn architecture_names_round_trip() {
    for a in [
        Architecture::Amd64,
        Architecture::Arm64,
        Architecture::Armv7,
        Architecture::Armhf,
        Architecture::Arm,
    ] {
        assert_eq!(Architecture::from_str(a.as_str()), Ok(a));
    }
    assert_eq!(Architecture::Armhf.as_str(), "armhf");
}

#[test]
fn unknown_architecture_is_rejected() {
    assert_eq!(Architecture::from_str("x86"), Err(InvalidArchitectureError));
    assert_eq!(Architecture::from_str("arm6"), Err(InvalidArchitectureError));
    assert_eq!(Architecture::from_str(""), Err(InvalidArchitectureError));
}
