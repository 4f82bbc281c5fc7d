use xivloader::fingerprint::{
    fingerprint_from_digest, generate_user_agent, get_user_agent, machine_info, make_computer_id,
    MachineInfo,
};

fn snapshot(name: &str, user: &str, cpus: usize) -> MachineInfo {
    MachineInfo {
        machine_name: name.to_string(),
        user_name: user.to_string(),
        processor_count: cpus,
    }
}

fn decode(hex: &str) -> Vec<u8> {
    (0..hex.len())
        .step_by(2)
        .map(|i| u8::from_str_radix(&hex[i..i + 2], 16).unwrap())
        .collect()
}

#[test]
fn computer_id_of_known_machine() {
    assert_eq!(make_computer_id(&snapshot("HOST", "user", 8)), "3bef14d4ed");
}

#[test]
fn computer_id_is_deterministic() {
    let a = make_computer_id(&snapshot("HOST", "user", 8));
    let b = make_computer_id(&snapshot("HOST", "user", 8));
    assert_eq!(a, b);
    assert_eq!(a.len(), 10);
    assert!(a.chars().all(|c| c.is_ascii_digit() || ('a'..='f').contains(&c)));
}

#[test]
fn computer_id_changes_with_each_attribute() {
    let base = make_computer_id(&snapshot("HOST", "user", 8));
    assert_ne!(base, make_computer_id(&snapshot("HOST2", "user", 8)));
    assert_ne!(base, make_computer_id(&snapshot("HOST", "other", 8)));
    assert_ne!(base, make_computer_id(&snapshot("HOST", "user", 4)));
}

#[test]
fn checksum_byte_recomputes() {
    for (name, user, cpus) in [("A", "b", 1), ("machine", "", 16), ("x", "y", 128)] {
        let bytes = decode(&make_computer_id(&snapshot(name, user, cpus)));
        assert_eq!(bytes.len(), 5);
        let sum = bytes[1]
            .wrapping_add(bytes[2])
            .wrapping_add(bytes[3])
            .wrapping_add(bytes[4]);
        assert_eq!(bytes[0], !sum);
    }
}

#[test]
fn fingerprint_bytes_from_digest() {
    assert_eq!(fingerprint_from_digest(&[1, 2, 3, 4, 9, 9]), vec![245, 1, 2, 3, 4]);
    assert_eq!(fingerprint_from_digest(&[255, 255, 1, 1]), vec![255, 255, 255, 1, 1]);
}

#[test]
fn user_agent_template() {
    assert_eq!(generate_user_agent("abc"), "SQEXAuthor/2.0.0(Windows 6.2; ja-jp; abc)");
    assert_eq!(
        get_user_agent(&snapshot("HOST", "user", 8)),
        "SQEXAuthor/2.0.0(Windows 6.2; ja-jp; 3bef14d4ed)"
    );
}

#[test]
fn machine_info_defaults() {
    let m = machine_info(None, None);
    assert_eq!(m.machine_name, "unknown");
    assert_eq!(m.user_name, "");
    assert!(m.processor_count >= 1);
    let m = machine_info(Some("PC".to_string()), Some("me".to_string()));
    assert_eq!(m.machine_name, "PC");
    assert_eq!(m.user_name, "me");
}
