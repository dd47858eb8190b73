use openmix::error::StorageError;
use openmix::store::{analysis_is_current, check_json, new_id, Project};

fn is_uuid_v4_text(s: &str) -> bool {
    let b = s.as_bytes();
    b.len() == 36
        && [8, 13, 18, 23].iter().all(|&i| b[i] == b'-')
        && b.iter()
            .enumerate()
            .all(|(i, c)| [8, 13, 18, 23].contains(&i) || c.is_ascii_digit() || (b'a'..=b'f').contains(c))
        && b[14] == b'4'
        && [b'8', b'9', b'a', b'b'].contains(&b[19])
}

#[test]
fn new_ids_are_random_hyphenated_and_distinct() {
    let a = new_id();
    let b = new_id();
    assert!(is_uuid_v4_text(&a), "{a}");
    assert!(is_uuid_v4_text(&b), "{b}");
    assert_ne!(a, b);
}

#[test]
fn created_project_has_id_name_and_equal_stamps() {
    let p = Project::create("Mix 1");
    assert!(!p.id.is_empty());
    assert!(is_uuid_v4_text(&p.id));
    assert_eq!(p.name, "Mix 1");
    assert_eq!(p.created_at, p.updated_at);
    assert!(p.created_at.parse::<u64>().unwrap() > 1_600_000_000);
}

#[test]
fn json_documents_pass_and_other_text_is_refused() {
    assert!(check_json(r#"{"rms_db":-12.0,"peak_db":-1.0,"energy_windows":[1,2,3]}"#).is_ok());
    assert!(check_json("{}").is_ok());
    assert!(check_json("[1, 2]").is_ok());
    match check_json("not json") {
        Err(StorageError::InvalidJson(t)) => assert_eq!(t, "not json"),
        _ => panic!("plain text must be refused"),
    }
    assert!(check_json("").is_err());
}

#[test]
fn cached_analysis_is_current_only_for_same_hash() {
    let hash = "fixture-hash".to_string();
    assert!(analysis_is_current(&hash, Some(&"fixture-hash".to_string())));
    assert!(!analysis_is_current(&hash, Some(&"other".to_string())));
    assert!(!analysis_is_current(&hash, None));
}
