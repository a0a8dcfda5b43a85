use stop_piracy_shield::model::{PublicSignature, Signature};
use stop_piracy_shield::public::{list_verified, public_view};

fn row(id: u128, name: &str, created_at: i64, verified: bool) -> Signature {
    Signature {
        id,
        first_name: name.to_string(),
        last_name: "Rossi".to_string(),
        org: Some("Acme".to_string()),
        email: format!("{}@example.com", name),
        message: Some("firmo".to_string()),
        created_at,
        verified,
        verified_at: if verified { Some(created_at + 10) } else { None },
    }
}

#[test]
fn public_view_leaves_out_email_and_id() {
    let v = public_view(&row(1, "Anna", 5, true));
    assert_eq!(
        v,
        PublicSignature {
            first_name: "Anna".to_string(),
            last_name: "Rossi".to_string(),
            org: Some("Acme".to_string()),
            created_at: 5,
            message: Some("firmo".to_string()),
        }
    );
}

#[test]
fn list_keeps_only_verified_newest_first() {
    let rows = vec![
        row(1, "a", 10, true),
        row(2, "b", 30, false),
        row(3, "c", 20, true),
        row(4, "d", 5, true),
        row(5, "e", 40, true),
    ];
    let names: Vec<String> = list_verified(&rows).into_iter().map(|p| p.first_name).collect();
    assert_eq!(names, vec!["e", "c", "a", "d"]);
}

#[test]
fn list_keeps_order_of_equal_times() {
    let rows = vec![row(1, "a", 10, true), row(2, "b", 10, true), row(3, "c", 10, true)];
    let names: Vec<String> = list_verified(&rows).into_iter().map(|p| p.first_name).collect();
    assert_eq!(names, vec!["a", "b", "c"]);
}

#[test]
fn list_of_pending_rows_is_empty() {
    let rows = vec![row(1, "a", 10, false), row(2, "b", 20, false)];
    assert!(list_verified(&rows).is_empty());
    assert!(list_verified(&Vec::new()).is_empty());
}
