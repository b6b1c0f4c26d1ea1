use ravi::change::{bytes_equal, check_code_changed, code_state, CodeState};

fn hex(bytes: &[u8]) -> String {
    bytes.iter().map(|b| format!("{:02x}", b)).collect()
}

#[test]
fn digest_of_abc_is_sha256() {
    match check_code_changed(b"abc", &None) {
        CodeState::Changed(d) => assert_eq!(
            hex(&d),
            "ba7816bf8f01cfea414140de5dae2223b00361a396177a9cb410ff61f20015ad"
        ),
        CodeState::Same => panic!("first run must compile"),
    }
}

#[test]
fn digest_of_empty_source_is_sha256() {
    match check_code_changed(b"", &None) {
        CodeState::Changed(d) => assert_eq!(
            hex(&d),
            "e3b0c44298fc1c149afbf4c8996fb92427ae41e4649b934ca495991b7852b855"
        ),
        CodeState::Same => panic!("first run must compile"),
    }
}

#[test]
fn matching_stored_digest_is_same() {
    let d = match check_code_changed(b"int main() {}", &None) {
        CodeState::Changed(d) => d,
        CodeState::Same => panic!("first run must compile"),
    };
    assert!(matches!(check_code_changed(b"int main() {}", &Some(d)), CodeState::Same));
}

#[test]
fn edited_source_is_changed() {
    let d1 = match check_code_changed(b"int main() {}", &None) {
        CodeState::Changed(d) => d,
        CodeState::Same => panic!("first run must compile"),
    };
    match check_code_changed(b"int main() { return 1; }", &Some(d1.clone())) {
        CodeState::Changed(d2) => {
            assert_ne!(d1, d2);
            assert_eq!(d2.len(), 32);
        }
        CodeState::Same => panic!("an edit must recompile"),
    }
}

#[test]
fn stored_digest_of_other_length_is_changed() {
    assert!(matches!(
        code_state(vec![1, 2, 3], &Some(vec![1, 2])),
        CodeState::Changed(d) if d == vec![1, 2, 3]
    ));
}

#[test]
fn code_state_decisions() {
    assert!(matches!(code_state(vec![7, 8], &None), CodeState::Changed(d) if d == vec![7, 8]));
    assert!(matches!(code_state(vec![7, 8], &Some(vec![7, 8])), CodeState::Same));
    assert!(matches!(
        code_state(vec![7, 8], &Some(vec![7, 9])),
        CodeState::Changed(d) if d == vec![7, 8]
    ));
}

#[test]
fn byte_comparison() {
    assert!(bytes_equal(&[], &[]));
    assert!(bytes_equal(&[1, 2, 3], &[1, 2, 3]));
    assert!(!bytes_equal(&[1, 2, 3], &[1, 2, 4]));
    assert!(!bytes_equal(&[1, 2], &[1, 2, 3]));
}
